use singleflight::Group;
use crossbeam_utils::thread;
use std::sync::atomic::AtomicBool;
use std::sync::atomic::AtomicUsize;
use std::sync::atomic::Ordering;
use std::time::Duration;
use std::time::Instant;

const RES: usize = 7;

/// Spins until `cond` holds, giving up after `max_ms` milliseconds; returns
/// whether the condition was seen.
fn spin_until<F: Fn() -> bool>(cond: F, max_ms: u64) -> bool {
    let start = Instant::now();
    while !cond() {
        if start.elapsed() > Duration::from_millis(max_ms) {
            return false;
        }
        std::hint::spin_loop();
    }
    true
}

/// Busy-waits for roughly `ms` milliseconds.
fn short_delay(ms: u64) {
    let start = Instant::now();
    while start.elapsed() < Duration::from_millis(ms) {
        std::hint::spin_loop();
    }
}

/// Stands in for a slow computation: spins briefly, then produces the value.
fn expensive_fn() -> usize {
    let mut spins: usize = 0;
    while spins < 500 {
        std::hint::spin_loop();
        spins += 1;
    }
    RES
}

#[test]
fn test_simple() {
    let g = Group::new();
    let res = g.work("key", || RES);
    assert_eq!(res, RES);
}

#[test]
fn test_multiple_threads() {
    let g = Group::new();
    thread::scope(|s| {
        for _ in 0..10 {
            s.spawn(|_| {
                let res = g.work("key", expensive_fn);
                assert_eq!(res, RES);
            });
        }
    })
    .unwrap();
}

#[test]
fn default_group_works_like_new() {
    let g: Group<usize> = Default::default();
    assert_eq!(g.work("key", || RES), RES);
}

#[test]
fn empty_string_is_a_valid_key() {
    let g = Group::new();
    assert_eq!(g.work("", || 1usize), 1);
}

#[test]
fn ten_callers_one_execution() {
    let g: Group<usize> = Group::new();
    let arrived = AtomicUsize::new(0);
    let calls = AtomicUsize::new(0);
    let results = thread::scope(|s| {
        let mut handles = Vec::new();
        for _ in 0..10 {
            handles.push(s.spawn(|_| {
                arrived.fetch_add(1, Ordering::SeqCst);
                g.work("key", || {
                    // The leader holds the in-flight window open until every
                    // caller has arrived, so all ten overlap on it.
                    assert!(spin_until(|| arrived.load(Ordering::SeqCst) == 10, 10_000));
                    short_delay(300);
                    calls.fetch_add(1, Ordering::SeqCst);
                    7usize
                })
            }));
        }
        handles.into_iter().map(|h| h.join().unwrap()).collect::<Vec<usize>>()
    })
    .unwrap();
    assert_eq!(results.len(), 10);
    for r in &results {
        assert_eq!(*r, 7);
    }
    assert_eq!(calls.load(Ordering::SeqCst), 1);
}

#[test]
fn results_are_equal_and_independently_owned() {
    let g: Group<Vec<u8>> = Group::new();
    let arrived = AtomicUsize::new(0);
    let mut results = thread::scope(|s| {
        let mut handles = Vec::new();
        for _ in 0..3 {
            handles.push(s.spawn(|_| {
                arrived.fetch_add(1, Ordering::SeqCst);
                g.work("key", || {
                    assert!(spin_until(|| arrived.load(Ordering::SeqCst) == 3, 10_000));
                    short_delay(200);
                    vec![1u8, 2, 3]
                })
            }));
        }
        handles.into_iter().map(|h| h.join().unwrap()).collect::<Vec<Vec<u8>>>()
    })
    .unwrap();
    for r in &results {
        assert_eq!(*r, vec![1u8, 2, 3]);
    }
    // Each caller owns its copy: changing one leaves the others untouched.
    results[0].push(9);
    assert_eq!(results[1], vec![1u8, 2, 3]);
    assert_eq!(results[2], vec![1u8, 2, 3]);
}

#[test]
fn distinct_keys_do_not_block_each_other() {
    let g: Group<usize> = Group::new();
    let flag = AtomicBool::new(false);
    let (ra, rb) = thread::scope(|s| {
        let a = s.spawn(|_| {
            g.work("a", || {
                // Waits, inside the work for key "a", on the work for key
                // "b": if calls with distinct keys blocked one another this
                // would never be seen.
                assert!(spin_until(|| flag.load(Ordering::SeqCst), 10_000));
                1usize
            })
        });
        let b = s.spawn(|_| {
            g.work("b", || {
                flag.store(true, Ordering::SeqCst);
                2usize
            })
        });
        (a.join().unwrap(), b.join().unwrap())
    })
    .unwrap();
    assert_eq!(ra, 1);
    assert_eq!(rb, 2);
}

#[test]
fn reexecutes_after_completion() {
    let g: Group<usize> = Group::new();
    let counter = AtomicUsize::new(0);
    let func = || counter.fetch_add(1, Ordering::SeqCst) + 1;
    let first = g.work("key", func);
    let second = g.work("key", func);
    // A fresh execution each time: no stale value, no leaked record.
    assert_eq!(first, 1);
    assert_eq!(second, 2);
    assert_eq!(counter.load(Ordering::SeqCst), 2);
}

#[test]
fn panicking_work_unblocks_waiters_and_removes_the_record() {
    let g: Group<usize> = Group::new();
    let arrived = AtomicUsize::new(0);
    let outcome = thread::scope(|s| {
        for _ in 0..2 {
            s.spawn(|_| {
                arrived.fetch_add(1, Ordering::SeqCst);
                g.work("key", || {
                    // Holds the window open until the other caller has
                    // arrived, then fails: the waiter must not stay blocked.
                    spin_until(|| arrived.load(Ordering::SeqCst) == 2, 10_000);
                    short_delay(200);
                    panic!("the work failed");
                })
            });
        }
    });
    assert!(outcome.is_err());
    // The failed call left no record behind: a fresh call runs anew instead
    // of waiting on it.
    assert_eq!(g.work("key", || 42usize), 42);
}
