use relm_core::stream::{emit, EventStreamData, StreamArena};

/// Runs one emission the way the loop does: observers first, in
/// registration order, then the message is queued.
fn emit_with_observers(
    arena: &mut StreamArena<i32>,
    h: &relm_core::stream::StreamHandle,
    observers: &[Box<dyn Fn(&i32, &mut Vec<String>)>],
    log: &mut Vec<String>,
    msg: i32,
) {
    if let Some(n) = h.begin_emit(arena) {
        for obs in observers.iter().take(n) {
            obs(&msg, log);
        }
        h.finish_emit(arena, msg);
    }
}

#[test]
fn observer_before_callback_per_message() {
    let mut arena: StreamArena<i32> = StreamArena::new();
    let h = arena.create();
    let mut log: Vec<String> = Vec::new();
    let observers: Vec<Box<dyn Fn(&i32, &mut Vec<String>)>> =
        vec![Box::new(|n: &i32, log: &mut Vec<String>| log.push(format!("obs:{}", n)))];
    assert_eq!(h.observe(&mut arena), 0);
    for msg in [1, 2, 3] {
        emit_with_observers(&mut arena, &h, &observers, &mut log, msg);
        let (ready, timeout) = h.prepare(&arena);
        assert!(ready);
        assert_eq!(timeout, None);
        if let Some(m) = h.dispatch(&mut arena) {
            log.push(format!("cb:{}", m));
        }
    }
    assert_eq!(log, vec!["obs:1", "cb:1", "obs:2", "cb:2", "obs:3", "cb:3"]);
    assert!(!h.prepare(&arena).0);
}

#[test]
fn locked_messages_are_dropped() {
    let mut arena: StreamArena<i32> = StreamArena::new();
    let h = arena.create();
    let mut log: Vec<String> = Vec::new();
    let observers: Vec<Box<dyn Fn(&i32, &mut Vec<String>)>> =
        vec![Box::new(|n: &i32, log: &mut Vec<String>| log.push(format!("obs:{}", n)))];
    h.observe(&mut arena);
    let lock = h.lock(&mut arena);
    emit_with_observers(&mut arena, &h, &observers, &mut log, 5);
    assert_eq!(h.emit(&mut arena, 6), None);
    lock.release(&mut arena);
    emit_with_observers(&mut arena, &h, &observers, &mut log, 7);
    let mut delivered = Vec::new();
    while let Some(m) = h.dispatch(&mut arena) {
        delivered.push(m);
    }
    assert_eq!(delivered, vec![7]);
    assert_eq!(log, vec!["obs:7"]);
}

#[test]
fn fifo_delivery_of_every_message() {
    let mut arena: StreamArena<u32> = StreamArena::new();
    let h = arena.create();
    for i in 0..10u32 {
        assert_eq!(h.emit(&mut arena, i), Some(0));
    }
    assert_eq!(h.dispatch(&mut arena), Some(0));
    assert_eq!(h.emit(&mut arena, 10), Some(0));
    let mut out = vec![0u32];
    while let Some(m) = h.dispatch(&mut arena) {
        out.push(m);
    }
    assert_eq!(out, (0..11).collect::<Vec<u32>>());
}

#[test]
fn dispatch_on_empty_stream_is_a_no_op() {
    let mut arena: StreamArena<u8> = StreamArena::new();
    let h = arena.create();
    assert_eq!(h.dispatch(&mut arena), None);
    assert_eq!(arena.get(&h).pending(), 0);
    assert!(!h.prepare(&arena).0);
}

#[test]
fn later_observer_does_not_see_earlier_message() {
    let mut arena: StreamArena<u8> = StreamArena::new();
    let h = arena.create();
    assert_eq!(h.observe(&mut arena), 0);
    assert_eq!(h.emit(&mut arena, 1), Some(1));
    assert_eq!(h.observe(&mut arena), 1);
    assert_eq!(h.emit(&mut arena, 2), Some(2));
    assert_eq!(arena.get(&h).observer_count(), 2);
}

#[test]
fn overlapping_locks_are_not_counted() {
    let mut arena: StreamArena<u8> = StreamArena::new();
    let h = arena.create();
    let first = h.lock(&mut arena);
    let second = h.stream().lock(&mut arena);
    second.release(&mut arena);
    assert!(!arena.get(&h).is_locked());
    assert_eq!(h.emit(&mut arena, 9), Some(0));
    first.release(&mut arena);
    assert_eq!(h.dispatch(&mut arena), Some(9));
}

#[test]
fn closed_stream_handle_is_dead() {
    let mut arena: StreamArena<u8> = StreamArena::new();
    let h = arena.create();
    let copy = h.stream();
    let other = arena.create();
    assert!(arena.is_live(&copy));
    h.emit(&mut arena, 1);
    arena.close(&h);
    assert!(!arena.is_live(&copy));
    assert!(arena.is_live(&other));
    let third = arena.create();
    assert!(!arena.is_live(&copy));
    assert!(third != copy);
    arena.close(&h);
    assert!(!arena.is_live(&h));
}

#[test]
fn free_emit_respects_lock() {
    let mut data: EventStreamData<&str> = EventStreamData::new();
    assert_eq!(emit(&mut data, "a"), Some(0));
    data.set_locked(true);
    assert_eq!(data.begin_emit(), None);
    assert_eq!(emit(&mut data, "b"), None);
    data.set_locked(false);
    assert_eq!(data.add_observer(), 0);
    assert_eq!(emit(&mut data, "c"), Some(1));
    assert_eq!(data.pending(), 2);
    assert_eq!(data.dispatch(), Some("a"));
    assert_eq!(data.dispatch(), Some("c"));
    assert_eq!(data.dispatch(), None);
}
