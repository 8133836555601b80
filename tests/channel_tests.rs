use relm_core::channel::{channel, send_outcome, SendError};
use relm_core::source::{bool_to_int, prepare_result};

#[test]
fn messages_from_many_senders_arrive_once_each() {
    let (sender, mut data) = channel::<u32>();
    let senders: Vec<_> = (0..4).map(|_| sender.clone()).collect();
    for (k, s) in senders.iter().enumerate() {
        for i in 0..5u32 {
            assert!(s.send(k as u32 * 100 + i).is_ok());
        }
    }
    let mut got = Vec::new();
    loop {
        let (ready, timeout) = data.prepare();
        assert_eq!(timeout, None);
        if !ready {
            break;
        }
        assert!(data.has_peeked());
        got.push(data.dispatch().unwrap());
    }
    assert_eq!(got.len(), 20);
    let mut sorted = got.clone();
    sorted.sort();
    sorted.dedup();
    assert_eq!(sorted.len(), 20);
    for k in 0..4u32 {
        let from_k: Vec<u32> = got.iter().copied().filter(|m| m / 100 == k).collect();
        assert_eq!(from_k, (0..5).map(|i| k * 100 + i).collect::<Vec<u32>>());
    }
}

#[test]
fn prepare_keeps_the_peeked_message_for_dispatch() {
    let (sender, mut data) = channel::<&str>();
    assert_eq!(data.prepare(), (false, None));
    sender.send("x").ok().unwrap();
    sender.send("y").ok().unwrap();
    assert_eq!(data.prepare(), (true, None));
    assert_eq!(data.prepare(), (true, None));
    assert_eq!(data.dispatch(), Some("x"));
    assert!(!data.has_peeked());
    assert_eq!(data.dispatch(), Some("y"));
    assert_eq!(data.dispatch(), None);
}

#[test]
fn send_after_receiver_dropped_fails() {
    let (sender, data) = channel::<i32>();
    drop(data);
    match sender.send(42) {
        Err(SendError(m)) => assert_eq!(m, 42),
        Ok(()) => panic!("send succeeded on a closed channel"),
    }
}

#[test]
fn bool_in_native_form() {
    assert_eq!(bool_to_int(true), 1);
    assert_eq!(bool_to_int(false), 0);
}

#[test]
fn prepare_result_writes_timeout_only_when_asked() {
    let mut timeout: i32 = -1;
    assert_eq!(prepare_result((false, None), &mut timeout), 0);
    assert_eq!(timeout, -1);
    assert_eq!(prepare_result((true, Some(250)), &mut timeout), 1);
    assert_eq!(timeout, 250);
}


#[test]
fn send_outcome_maps_the_transport_answer() {
    assert!(send_outcome::<u8>(Ok(())).is_ok());
    match send_outcome(Err(7u8)) {
        Err(SendError(m)) => assert_eq!(m, 7),
        Ok(()) => panic!("a refused message was reported as sent"),
    }
}

#[test]
fn received_values_are_passed_on_as_they_came() {
    let (_sender, mut data) = channel::<u8>();
    assert_eq!(data.peek_received(None), (false, None));
    assert_eq!(data.hand_out_received(None), None);
    assert_eq!(data.peek_received(Some(4)), (true, None));
    assert!(data.has_peeked());
    assert_eq!(data.dispatch(), Some(4));
    assert_eq!(data.hand_out_received(Some(5)), Some(5));
    assert!(!data.has_peeked());
}

#[test]
fn send_to_live_receiver_is_delivered() {
    let (sender, mut data) = channel::<u8>();
    assert!(sender.send(1).is_ok());
    assert_eq!(data.dispatch(), Some(1));
    assert_eq!(data.dispatch(), None);
}
