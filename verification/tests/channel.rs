use promise_chain::chain::{chain_promise, settle};
use promise_chain::channel::{receive, ReceiveError};
use promise_chain::settled::Settled;

#[test]
fn settle_publishes_the_value() {
    let mut rx = settle(Settled::Success(42));
    assert_eq!(receive(&mut rx), Ok(Settled::Success(42)));
}

#[test]
fn settle_publishes_a_failure() {
    let mut rx = settle(Settled::Failure(String::from("My Error!")));
    assert_eq!(receive(&mut rx), Ok(Settled::Failure(String::from("My Error!"))));
}

#[test]
fn a_settled_value_can_be_awaited() {
    let rx = settle(Settled::Success(-3));
    let runtime = tokio::runtime::Builder::new_current_thread().build().unwrap();
    let got = runtime.block_on(rx);
    assert_eq!(got, Ok(Settled::Success(-3)));
}

#[test]
fn chain_promise_relays_a_success_unchanged() {
    let mut log = Vec::new();
    let mut rx = chain_promise(Settled::Success(42), &mut log);
    assert_eq!(receive(&mut rx), Ok(Settled::Success(42)));
    assert_eq!(log, vec!["Success! Resolved to value 42"]);
}

#[test]
fn chain_promise_relays_a_failure_unchanged() {
    let mut log = Vec::new();
    let mut rx = chain_promise(Settled::Failure(String::from("My Error!")), &mut log);
    assert_eq!(receive(&mut rx), Ok(Settled::Failure(String::from("My Error!"))));
    assert_eq!(log, vec!["Failure! Rejected to error My Error!"]);
}

#[test]
fn chain_promise_appends_to_an_existing_log() {
    let mut log = vec![String::from("earlier")];
    let _rx = chain_promise(Settled::Success(5), &mut log);
    assert_eq!(log, vec!["earlier", "Success! Resolved to value 5"]);
}

#[test]
fn chain_promise_uses_a_fresh_channel_each_time() {
    let mut log = Vec::new();
    let mut first = chain_promise(Settled::Success(1), &mut log);
    let mut second = chain_promise(Settled::Success(2), &mut log);
    assert_eq!(receive(&mut second), Ok(Settled::Success(2)));
    assert_eq!(receive(&mut first), Ok(Settled::Success(1)));
}

#[test]
fn chained_handle_can_be_awaited() {
    let mut log = Vec::new();
    let rx = chain_promise(Settled::Failure(String::from("late")), &mut log);
    let runtime = tokio::runtime::Builder::new_current_thread().build().unwrap();
    assert_eq!(runtime.block_on(rx), Ok(Settled::Failure(String::from("late"))));
}

#[test]
fn second_receive_fails() {
    let mut rx = settle(Settled::Success(42));
    assert_eq!(receive(&mut rx), Ok(Settled::Success(42)));
    assert_eq!(receive(&mut rx), Err(ReceiveError::Closed));
}

#[test]
fn drained_end_keeps_answering_closed() {
    let mut rx = settle(Settled::Failure(String::from("once")));
    assert!(receive(&mut rx).is_ok());
    for _ in 0..5 {
        assert_eq!(receive(&mut rx), Err(ReceiveError::Closed));
    }
}

#[test]
fn receive_before_anything_is_sent_is_empty() {
    let (tx, mut rx) = tokio::sync::oneshot::channel::<Settled>();
    assert_eq!(receive(&mut rx), Err(ReceiveError::Empty));
    assert_eq!(receive(&mut rx), Err(ReceiveError::Empty));
    assert!(tx.send(Settled::Success(9)).is_ok());
    assert_eq!(receive(&mut rx), Ok(Settled::Success(9)));
    assert_eq!(receive(&mut rx), Err(ReceiveError::Closed));
}

#[test]
fn receive_after_the_sender_is_dropped_is_closed() {
    let (tx, mut rx) = tokio::sync::oneshot::channel::<Settled>();
    drop(tx);
    assert_eq!(receive(&mut rx), Err(ReceiveError::Closed));
    assert_eq!(receive(&mut rx), Err(ReceiveError::Closed));
}
