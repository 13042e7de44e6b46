use vstd::prelude::*;
use std::sync::Arc;

verus! {

/// What one in-flight call shares between its leader and its waiters: the
/// result slot and the completion signal. The slot holds `None` while the
/// work is still running, `Some(Some(v))` once the leader has stored its
/// value, and `Some(None)` if the leader's closure panicked before
/// producing one.
#[verifier::external_body]
#[verifier::reject_recursive_types(T)]
struct CallState<T> {
    slot: parking_lot::Mutex<Option<Option<T>>>,
    done: parking_lot::Condvar,
}

/// An opaque shared reference to one record's state.
#[verifier::external_body]
#[verifier::reject_recursive_types(T)]
struct CallRef<T> {
    state: Arc<CallState<T>>,
}

/// The opaque registry map: the in-flight records by key, behind one lock.
/// The lock is held only for point lookups, inserts and removals, never
/// across the execution of a caller's closure.
#[verifier::external_body]
#[verifier::reject_recursive_types(T)]
struct CallMap<T> {
    calls: Arc<parking_lot::Mutex<hashbrown::HashMap<String, CallRef<T>>>>,
}

/// The leader's opaque guard over the record it created. Dropping it
/// (normally right after `Completion::fulfil`, or while unwinding from a
/// panic inside the leader's closure) fires the completion signal and
/// removes the record from the registry, so no waiter is ever left blocked
/// and no record outlives its call.
#[verifier::external_body]
#[verifier::reject_recursive_types(T)]
struct CompletionGuard<T> {
    state: Arc<CallState<T>>,
    calls: Arc<parking_lot::Mutex<hashbrown::HashMap<String, CallRef<T>>>>,
    key: String,
}

/// What the atomic lookup-or-insert hands back, before the registry's
/// result invariant is attached to it.
#[verifier::reject_recursive_types(T)]
enum Joined<T> {
    Leader(CompletionGuard<T>),
    Waiter(CallRef<T>),
}

/// A waiter's handle to one in-flight call record: enough to block until
/// the record's completion signal fires and to copy the stored value out.
/// Waiters never mutate the record. In ghost state it carries the result
/// invariant of the group it came from.
#[verifier::reject_recursive_types(T)]
pub struct Call<T> {
    raw: CallRef<T>,
    inv: Ghost<spec_fn(T) -> bool>,
}

/// The leader's handle to the record it created, carrying the group's
/// result invariant in ghost state. The leader stores its value through
/// `fulfil`, which consumes the handle; the drop that follows fires the
/// completion signal and removes the record.
#[verifier::reject_recursive_types(T)]
pub struct Completion<T> {
    raw: CompletionGuard<T>,
    inv: Ghost<spec_fn(T) -> bool>,
}

/// The registry of in-flight calls, keyed by the caller-supplied string,
/// together with the result invariant every value published through it
/// must satisfy.
#[verifier::reject_recursive_types(T)]
pub struct Registry<T> {
    map: CallMap<T>,
    inv: Ghost<spec_fn(T) -> bool>,
}

/// Whether `value` is a copy (in the sense of `T::clone`, or the value
/// itself) of some value satisfying `p`: what a call can promise of a
/// published result that reached it as a clone.
pub open spec fn copy_satisfying<T: Clone>(p: spec_fn(T) -> bool, value: T) -> bool {
    exists|stored: T| p(stored) && #[trigger] cloned::<T>(stored, value)
}

/// The two sides a caller can come out on when it joins the registry: the
/// leader runs the work itself and owes its waiters the value; a waiter
/// blocks until the leader's value arrives.
#[verifier::reject_recursive_types(T)]
pub enum Role<T> {
    Leader(Completion<T>),
    Waiter(Call<T>),
}

impl<T> Call<T> {
    /// The result invariant this handle carries: the one of the group whose
    /// registry handed it out.
    pub closed spec fn inv(&self) -> spec_fn(T) -> bool {
        self.inv@
    }
}

impl<T> Completion<T> {
    /// The result invariant this handle carries: the one of the group whose
    /// registry handed it out.
    pub closed spec fn inv(&self) -> spec_fn(T) -> bool {
        self.inv@
    }
}

impl<T> Role<T> {
    /// The result invariant carried by whichever handle this is.
    pub open spec fn inv(&self) -> spec_fn(T) -> bool {
        match self {
            Role::Leader(completion) => completion.inv(),
            Role::Waiter(call) => call.inv(),
        }
    }
}

impl<T> CallMap<T> {
    /// Relies on parking_lot::Mutex::new and hashbrown::HashMap::new: an
    /// empty registry, with no call in flight.
    #[verifier::external_body]
    fn new() -> (map: CallMap<T>) {
        CallMap { calls: Arc::new(parking_lot::Mutex::new(hashbrown::HashMap::new())) }
    }
}

impl<T> Registry<T> {
    /// The result invariant every handle of this registry carries.
    pub closed spec fn inv(&self) -> spec_fn(T) -> bool {
        self.inv@
    }

    /// An empty registry whose handles will carry the result invariant `p`.
    pub(crate) fn new(Ghost(p): Ghost<spec_fn(T) -> bool>) -> (registry: Registry<T>)
        ensures
            registry.inv() == p,
    {
        Registry { map: CallMap::new(), inv: Ghost(p) }
    }

    /// Join the registry under `key`: one atomic lookup-or-insert, what
    /// `join_step` describes on the registry's instantaneous contents. The
    /// handle that comes back carries this registry's result invariant —
    /// both sides of one record always carry one and the same invariant,
    /// which is what lets `Call::wait` speak of it.
    pub(crate) fn join(&self, key: &str) -> (role: Role<T>)
        ensures
            role.inv() == self.inv(),
    {
        match self.join_raw(key) {
            Joined::Leader(raw) => Role::Leader(Completion { raw, inv: Ghost(self.inv()) }),
            Joined::Waiter(raw) => Role::Waiter(Call { raw, inv: Ghost(self.inv()) }),
        }
    }

    /// The atomic lookup-or-insert under the registry lock. Relies on
    /// parking_lot::Mutex::lock (exclusive access to the map for the
    /// guard's lifetime) and on hashbrown::HashMap::get and insert. Which
    /// side the caller comes out on depends on what other threads left in
    /// flight, so nothing can be promised of the result.
    #[verifier::external_body]
    fn join_raw(&self, key: &str) -> (joined: Joined<T>) {
        let mut calls = self.map.calls.lock();
        if let Some(call) = calls.get(key) {
            return Joined::Waiter(CallRef { state: Arc::clone(&call.state) });
        }
        let state = Arc::new(CallState {
            slot: parking_lot::Mutex::new(None),
            done: parking_lot::Condvar::new(),
        });
        calls.insert(String::from(key), CallRef { state: Arc::clone(&state) });
        Joined::Leader(CompletionGuard {
            state,
            calls: Arc::clone(&self.map.calls),
            key: String::from(key),
        })
    }
}

impl<T: Clone> Call<T> {
    /// Blocks until the call's completion signal has fired, then returns an
    /// independently owned copy of the stored value. Relies on
    /// parking_lot::Condvar::wait (the slot is re-checked under its mutex
    /// before every wait, so a signal that already fired is never waited
    /// for) and on T::clone. Believed clause: the value handed back is a
    /// copy of the value the record's leader stored, and that value
    /// satisfied this handle's result invariant — every store goes through
    /// `Completion::fulfil`, which requires exactly that, and `Registry::join`
    /// attaches one and the same invariant to every handle of one registry.
    /// If the leader's closure panicked, the failure is propagated: the
    /// unwrap of the empty slot panics here too, rather than leaving this
    /// caller blocked.
    #[verifier::external_body]
    pub(crate) fn wait(self) -> (value: T)
        ensures
            copy_satisfying(self.inv(), value),
    {
        let mut slot = self.raw.state.slot.lock();
        while slot.is_none() {
            self.raw.state.done.wait(&mut slot);
        }
        slot.as_ref().unwrap().as_ref().expect("singleflight: the call's work failed").clone()
    }
}

impl<T> Completion<T> {
    /// Stores the leader's value into the record's result slot; the value
    /// must satisfy the handle's result invariant — this clause is the
    /// other half of the model that lets `Call::wait` promise the invariant
    /// of what it hands back. Relies on parking_lot::Mutex::lock. The
    /// handle is consumed, and dropping it is what fires the completion
    /// signal and removes the record (see `CompletionGuard`'s `Drop`), in
    /// that order, after the value is in place.
    #[verifier::external_body]
    pub(crate) fn fulfil(self, value: T)
        requires
            (self.inv())(value),
    {
        let mut slot = self.raw.state.slot.lock();
        *slot = Some(Some(value));
        drop(slot);
    }
}

impl<T> Drop for CompletionGuard<T> {
    /// Fires the completion signal and removes the record: what
    /// `finish_step` describes on the registry's contents. Runs whether the
    /// leader stored a value or is unwinding from a panic inside its
    /// closure; in the latter case the slot is first marked failed, so that
    /// no waiter stays blocked. Relies on parking_lot::Mutex::lock,
    /// parking_lot::Condvar::notify_all (wakes every thread waiting at that
    /// moment) and hashbrown::HashMap::remove.
    #[verifier::external_body]
    fn drop(&mut self)
        opens_invariants none
        no_unwind
    {
        let mut slot = self.state.slot.lock();
        if slot.is_none() {
            *slot = Some(None);
        }
        drop(slot);
        self.state.done.notify_all();
        self.calls.lock().remove(&self.key);
    }
}

} // verus!
