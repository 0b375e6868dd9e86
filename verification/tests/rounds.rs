use singleflight::Call;
use singleflight::Failure;
use singleflight::Group;
use singleflight::Registry;
use singleflight::Role;
use singleflight::RoundMsg;
use singleflight::outcome::follower_delivery;
use singleflight::outcome::round_message;

#[test]
fn test_fan_out_single_round_is_unshared() {
    let (tx, rx) = crossbeam::channel::unbounded::<RoundMsg<usize>>();
    let r = Group::<usize>::fan_out(Ok(7), 0, &tx);
    assert_eq!(r.unwrap(), (7, false));
    // nobody joined, so nothing was fanned out
    assert!(rx.try_recv().is_err());
}

#[test]
fn test_fan_out_shared_round_delivers_value_to_everyone() {
    let (tx, rx) = crossbeam::channel::unbounded::<RoundMsg<usize>>();
    let r = Group::<usize>::fan_out(Ok(7), 2, &tx);
    assert_eq!(r.unwrap(), (7, true));
    for _ in 0..2 {
        let m = rx.recv().unwrap();
        assert!(matches!(m, RoundMsg::SharedValue(7)));
    }
    assert!(rx.try_recv().is_err());
}

#[test]
fn test_fan_out_failure_reaches_every_recipient() {
    let (tx, rx) = crossbeam::channel::unbounded::<RoundMsg<usize>>();
    let r = Group::<usize>::fan_out(Err(anyhow::Error::msg("boom")), 1, &tx);
    match r {
        Err(Failure::Work(d)) => assert_eq!(d, "boom"),
        other => panic!("expected a work failure, got {:?}", other),
    }
    let m = rx.recv().unwrap();
    let delivered = follower_delivery(m);
    match delivered {
        Err(Failure::Work(d)) => assert_eq!(d, "boom"),
        other => panic!("expected a work failure, got {:?}", other),
    }
}

#[test]
fn test_follower_delivery_marks_success_shared() {
    let r = follower_delivery(RoundMsg::SharedValue(5usize));
    assert_eq!(r.unwrap(), (5, true));
}

#[test]
fn test_round_message_carries_value_or_text() {
    let empty = String::new();
    let m: RoundMsg<usize> = round_message(Some(&7), &empty);
    assert!(matches!(m, RoundMsg::SharedValue(7)));
    let text = String::from("gone");
    let m2: RoundMsg<usize> = round_message(None, &text);
    match m2 {
        RoundMsg::Failed(d) => assert_eq!(d, "gone"),
        RoundMsg::SharedValue(_) => panic!("a failed round must not carry a value"),
    }
}

#[test]
fn test_registry_classifies_and_counts() {
    let mut rg: Registry<usize> = Registry::new();
    let key = String::from("key");
    assert!(matches!(rg.claim_or_join(&key), Role::Leader));
    assert!(matches!(rg.claim_or_join(&key), Role::Follower(_)));
    assert!(matches!(rg.claim_or_join(&key), Role::Follower(_)));
    let record: Call<usize> = rg.retire(&key).unwrap();
    assert_eq!(record.dup, 2);
    // retiring again finds nothing: the round left no trace
    assert!(rg.retire(&key).is_none());
    // so the next caller for the key leads a fresh round
    assert!(matches!(rg.claim_or_join(&key), Role::Leader));
}

#[test]
fn test_registry_keys_are_independent() {
    let mut rg: Registry<usize> = Registry::new();
    let first = String::from("first");
    let second = String::from("second");
    assert!(matches!(rg.claim_or_join(&first), Role::Leader));
    assert!(matches!(rg.claim_or_join(&second), Role::Leader));
    assert!(matches!(rg.claim_or_join(&second), Role::Follower(_)));
    let record = rg.retire(&first).unwrap();
    assert_eq!(record.dup, 0);
    // the other key's round is untouched by the first key's retire
    let other = rg.retire(&second).unwrap();
    assert_eq!(other.dup, 1);
}
