use singleflight::Failure;
use singleflight::Group;
use crossbeam::thread;
use std::sync::atomic::AtomicUsize;
use std::sync::atomic::Ordering;
use std::time::Duration;

const RES: usize = 7;

fn expensive_fn() -> anyhow::Result<usize> {
    for _ in 0..500 {
        std::hint::spin_loop();
    }
    Ok(RES)
}

#[test]
fn test_go_simple() {
    let g = Group::new();
    let res = g.go("key", || Ok(RES));
    // simple call's result should not be shared
    assert_eq!(res.unwrap(), (RES, false));
}

#[test]
fn test_go_multiple_threads() {
    let g = Group::new();
    thread::scope(|s| {
        for _ in 0..10 {
            s.spawn(|_| {
                let res = g.go("key", expensive_fn);
                // mutiple call's result may be shared by ohter duplicate calls
                assert_eq!(res.unwrap().0, RES);
            });
        }
    })
    .unwrap();
}

#[test]
fn test_go_runs_work_again_after_completion() {
    let counter = AtomicUsize::new(0);
    let g = Group::new();
    let work = || {
        counter.fetch_add(1, Ordering::SeqCst);
        Ok(RES)
    };
    let first = g.go("key", work);
    let second = g.go("key", work);
    // no caching across rounds: the work ran once per round
    assert_eq!(counter.load(Ordering::SeqCst), 2);
    assert_eq!(first.unwrap(), (RES, false));
    assert_eq!(second.unwrap(), (RES, false));
}

#[test]
fn test_go_reports_work_failure_text() {
    let g: Group<usize> = Group::new();
    let res = g.go("key", || Err(anyhow::Error::msg("boom")));
    match res {
        Err(Failure::Work(d)) => assert_eq!(d, "boom"),
        other => panic!("expected a work failure, got {:?}", other),
    }
}

#[test]
fn test_distinct_keys_do_not_block_each_other() {
    let (gate_tx, gate_rx) = crossbeam::channel::bounded::<()>(1);
    let g: Group<usize> = Group::new();
    thread::scope(|s| {
        let first = s.spawn(|_| {
            // waits until the round for the other key has run
            g.go("first", || {
                gate_rx.recv().unwrap();
                Ok(1)
            })
        });
        let second = s.spawn(|_| {
            g.go("second", || {
                gate_tx.send(()).unwrap();
                Ok(2)
            })
        });
        assert_eq!(second.join().unwrap().unwrap(), (2, false));
        assert_eq!(first.join().unwrap().unwrap(), (1, false));
    })
    .unwrap();
}

#[test]
fn test_ten_concurrent_callers_share_one_execution() {
    let entered = AtomicUsize::new(0);
    let (in_work_tx, in_work_rx) = crossbeam::channel::bounded::<()>(1);
    let (release_tx, release_rx) = crossbeam::channel::bounded::<()>(1);
    let g: Group<usize> = Group::new();
    let mut shared_count: usize = 0;
    thread::scope(|s| {
        let leader = s.spawn(|_| {
            g.go("key", || {
                entered.fetch_add(1, Ordering::SeqCst);
                in_work_tx.send(()).unwrap();
                release_rx.recv().unwrap();
                Ok(RES)
            })
        });
        // the round is now held open by the leader
        in_work_rx.recv().unwrap();
        let mut followers = Vec::new();
        for _ in 0..9 {
            followers.push(s.spawn(|_| {
                g.go("key", || {
                    entered.fetch_add(1, Ordering::SeqCst);
                    Ok(RES)
                })
            }));
        }
        // give every follower ample time to join, then let the leader finish
        let _ = crossbeam::channel::after(Duration::from_millis(200)).recv();
        release_tx.send(()).unwrap();
        let (v, shared) = leader.join().unwrap().unwrap();
        assert_eq!(v, RES);
        if shared {
            shared_count += 1;
        }
        for f in followers {
            let (v, shared) = f.join().unwrap().unwrap();
            assert_eq!(v, RES);
            if shared {
                shared_count += 1;
            }
        }
    })
    .unwrap();
    // the work's body was entered exactly once
    assert_eq!(entered.load(Ordering::SeqCst), 1);
    // at least the nine followers saw a shared result
    assert!(shared_count >= 9);
}
