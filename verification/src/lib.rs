use vstd::prelude::*;

mod flight;

pub use flight::copy_satisfying;
pub use flight::Call;
pub use flight::Completion;
pub use flight::Role;

verus! {

/// The registry's contents, seen abstractly: the set of keys with a call in
/// flight. Joining the registry under `key` either finds a call already in
/// flight (the caller becomes a waiter) or starts one (the caller becomes
/// the leader and the key enters the registry). The returned `bool` is true
/// exactly when the joining caller leads.
pub open spec fn join_step(inflight: Set<Seq<char>>, key: Seq<char>) -> (Set<Seq<char>>, bool) {
    if inflight.contains(key) {
        (inflight, false)
    } else {
        (inflight.insert(key), true)
    }
}

/// The registry's contents after the leader for `key` finishes: the key's
/// record is removed, whether the work produced a value or failed.
pub open spec fn finish_step(inflight: Set<Seq<char>>, key: Seq<char>) -> Set<Seq<char>> {
    inflight.remove(key)
}

/// While a call for `key` is in flight, every further caller for `key`
/// waits instead of starting a second execution: once one caller has joined
/// as leader, a second join for the same key never leads, so the work for
/// one window runs exactly once.
pub proof fn lemma_single_leader_per_window(inflight: Set<Seq<char>>, key: Seq<char>)
    ensures
        !join_step(join_step(inflight, key).0, key).1,
{
}

/// Calls under distinct keys are independent: joining or finishing under
/// one key neither adds nor removes a record under any other key, and
/// whether a caller for `k2` leads does not change when a caller for `k1`
/// joins first.
pub proof fn lemma_key_independence(inflight: Set<Seq<char>>, k1: Seq<char>, k2: Seq<char>)
    requires
        k1 != k2,
    ensures
        join_step(inflight, k1).0.contains(k2) == inflight.contains(k2),
        join_step(join_step(inflight, k1).0, k2).1 == join_step(inflight, k2).1,
        finish_step(inflight, k1).contains(k2) == inflight.contains(k2),
{
}

/// Once the leader for `key` has finished and its record is removed, the
/// next caller for `key` leads again: its work runs anew, and no stale
/// value is handed out.
pub proof fn lemma_reexecution_after_finish(inflight: Set<Seq<char>>, key: Seq<char>)
    ensures
        join_step(finish_step(inflight, key), key).1,
{
}

/// After the leader for `key` finishes — with a value or with a failure —
/// the registry holds no record for `key`: a call leaves no state behind.
pub proof fn lemma_no_record_after_finish(inflight: Set<Seq<char>>, key: Seq<char>)
    ensures
        !finish_step(inflight, key).contains(key),
{
}

/// The result invariant that allows every value: what `Group::new` fixes.
pub open spec fn any_value<T>() -> spec_fn(T) -> bool {
    |value: T| true
}

/// Whether the predicate `p` is closed under cloning: a copy of a value
/// satisfying `p` satisfies `p` again. Waiters receive copies of the one
/// value the leader produced, so this is what lets a group's result
/// invariant be promised of every caller's returned value. For a type
/// whose `clone` is the identity — every `Copy` type, and the common
/// containers — any predicate qualifies.
pub open spec fn clone_closed<T: Clone>(p: spec_fn(T) -> bool) -> bool {
    forall|a: T, b: T| p(a) && #[trigger] cloned::<T>(a, b) ==> p(b)
}

/// Group represents a class of work and creates a space in which units of
/// work can be executed with duplicate suppression: of all the callers that
/// overlap on one key, exactly one runs the work, and every one of them
/// receives that single execution's value.
///
/// A group cannot know that the closures concurrent callers pass for one
/// key agree, so what it promises of a returned value is the group's
/// *result invariant*: a predicate fixed when the group is created, which
/// every closure result — and therefore every published value — must
/// satisfy. `new` fixes the trivial invariant; `new_for` lets a verified
/// caller pin the results down (for instance to one single value).
#[verifier::reject_recursive_types(T)]
pub struct Group<T> {
    calls: flight::Registry<T>,
}

impl<T: Clone> Group<T> {
    /// The result invariant this group was created with: every value a
    /// `work` call returns satisfies it.
    pub closed spec fn inv(&self) -> spec_fn(T) -> bool {
        self.calls.inv()
    }

    /// Create a new Group to do work with. It starts with no call in
    /// flight, it owns its own registry — distinct groups never coalesce
    /// calls — and it allows every result value.
    pub fn new() -> (group: Group<T>)
        ensures
            group.inv() == any_value::<T>(),
    {
        Group::new_for(Ghost(any_value::<T>()))
    }

    /// Create a new Group whose results are promised to satisfy `p`: every
    /// closure handed to `work` must meet it, and every value `work`
    /// returns — to the leader and to every waiter — then meets it too.
    pub fn new_for(Ghost(p): Ghost<spec_fn(T) -> bool>) -> (group: Group<T>)
        ensures
            group.inv() == p,
    {
        Group { calls: flight::Registry::new(Ghost(p)) }
    }

    /// Execute and return the value for a given function, making sure that
    /// only one operation is in flight for a given key at a given moment. If
    /// a duplicate call comes in, that caller waits until the original call
    /// completes and returns the same value.
    ///
    /// Every caller — the leader that ran its closure as much as a waiter
    /// that received a copy of the leader's value — gets a value satisfying
    /// the group's result invariant; a caller that led returns, in
    /// addition, a value its own closure produced (`Role::settle` states
    /// that side). For a group made by `new` the two extra premises hold
    /// trivially.
    pub fn work<F: Fn() -> T>(&self, key: &str, func: F) -> (value: T)
        requires
            func.requires(()),
            forall|r: T| #[trigger] call_ensures(func, (), r) ==> (self.inv())(r),
            clone_closed::<T>(self.inv()),
        ensures
            (self.inv())(value),
    {
        self.calls.join(key).settle(func)
    }
}

impl<T: Clone> Default for Group<T> {
    /// An empty group that allows every result value, as `new` makes one.
    fn default() -> (group: Group<T>)
        ensures
            group.inv() == any_value::<T>(),
    {
        Group::new()
    }
}

impl<T: Clone> Role<T> {
    /// Finish a joined call on whichever side the registry handed out. The
    /// leader runs the closure once, publishes a copy of its value for the
    /// waiters — `fulfil` demands the handle's result invariant of it — and
    /// returns the value itself; a waiter blocks until the leader's value
    /// is published and returns an independently owned copy of it, which
    /// therefore satisfies the same invariant.
    pub fn settle<F: Fn() -> T>(self, func: F) -> (value: T)
        requires
            func.requires(()),
            forall|r: T| #[trigger] call_ensures(func, (), r) ==> (self.inv())(r),
            clone_closed::<T>(self.inv()),
        ensures
            (self.inv())(value),
            self is Leader ==> call_ensures(func, (), value),
            self is Waiter ==> copy_satisfying(self.inv(), value),
    {
        let ghost inv = self.inv();
        match self {
            Role::Leader(completion) => {
                let value = func();
                let stored = value.clone();
                proof {
                    assert(cloned::<T>(value, stored));
                    assert(inv(stored));
                }
                completion.fulfil(stored);
                value
            },
            Role::Waiter(call) => {
                let value = call.wait();
                proof {
                    let stored = choose|s: T| (call.inv())(s) && #[trigger] cloned::<T>(s, value);
                    assert(inv(value));
                }
                value
            },
        }
    }
}

} // verus!
