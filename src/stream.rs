use std::collections::VecDeque;
use vstd::prelude::*;

verus! {

/// The abstract state of one stream: the pending messages in arrival order,
/// the lock flag, and how many observers have been registered.
pub struct StreamModel<MSG> {
    pub events: Seq<MSG>,
    pub locked: bool,
    pub observers: nat,
}

/// The stream after `msg` was emitted: a locked stream drops it, an unlocked
/// one queues it at the back.
pub open spec fn emit_model<MSG>(m: StreamModel<MSG>, msg: MSG) -> StreamModel<MSG> {
    if m.locked {
        m
    } else {
        StreamModel { events: m.events.push(msg), ..m }
    }
}

/// The stream after one dispatch: the front message, if any, leaves the queue.
pub open spec fn dispatch_model<MSG>(m: StreamModel<MSG>) -> StreamModel<MSG> {
    if m.events.len() == 0 {
        m
    } else {
        StreamModel { events: m.events.drop_first(), ..m }
    }
}

/// The message that one dispatch hands to the primary callback.
pub open spec fn dispatched<MSG>(m: StreamModel<MSG>) -> Option<MSG> {
    if m.events.len() == 0 {
        None
    } else {
        Some(m.events[0])
    }
}

/// The state shared by a stream and the handles derived from it: pending
/// messages (FIFO), the lock flag, and the number of registered observers.
/// Observer `i` is the `i`-th one registered; observers are never removed.
pub struct EventStreamData<MSG> {
    events: VecDeque<MSG>,
    locked: bool,
    observers: usize,
}

impl<MSG> View for EventStreamData<MSG> {
    type V = StreamModel<MSG>;

    closed spec fn view(&self) -> StreamModel<MSG> {
        StreamModel { events: self.events@, locked: self.locked, observers: self.observers as nat }
    }
}

impl<MSG> EventStreamData<MSG> {
    /// An unlocked stream with no pending message and no observer.
    pub fn new() -> (r: Self)
        ensures
            r@.events == Seq::<MSG>::empty(),
            !r@.locked,
            r@.observers == 0,
    {
        EventStreamData { events: VecDeque::new(), locked: false, observers: 0 }
    }

    pub fn is_locked(&self) -> (r: bool)
        ensures
            r == self@.locked,
    {
        self.locked
    }

    pub fn observer_count(&self) -> (r: usize)
        ensures
            r == self@.observers,
    {
        self.observers
    }

    /// Number of messages waiting for the primary callback.
    pub fn pending(&self) -> (r: usize)
        ensures
            r == self@.events.len(),
    {
        self.events.len()
    }

    /// First half of an emission: `None` when the stream is locked (the
    /// message is to be dropped), else the number of observers to notify,
    /// observers `0..n` in registration order, before the message is queued.
    pub fn begin_emit(&self) -> (r: Option<usize>)
        ensures
            self@.locked ==> r is None,
            !self@.locked ==> r == Some(self@.observers as usize),
    {
        if self.locked {
            None
        } else {
            Some(self.observers)
        }
    }

    /// Second half of an emission: queue the message at the back.
    pub fn finish_emit(&mut self, msg: MSG)
        ensures
            final(self)@ == (StreamModel { events: old(self)@.events.push(msg), ..old(self)@ }),
    {
        self.events.push_back(msg);
    }

    /// Set or clear the lock flag; a lock is a flag, not a count.
    pub fn set_locked(&mut self, locked: bool)
        ensures
            final(self)@ == (StreamModel { locked, ..old(self)@ }),
    {
        self.locked = locked;
    }

    /// Register one more observer and return its index.
    pub fn add_observer(&mut self) -> (r: usize)
        requires
            old(self)@.observers < usize::MAX,
        ensures
            r == old(self)@.observers,
            final(self)@ == (StreamModel { observers: old(self)@.observers + 1, ..old(self)@ }),
    {
        self.observers = self.observers + 1;
        self.observers - 1
    }

    /// Readiness for the polling loop: ready exactly when a message is
    /// pending; no timeout is ever asked for.
    pub fn prepare(&self) -> (r: (bool, Option<u32>))
        ensures
            r.0 == (self@.events.len() > 0),
            r.1 is None,
    {
        (self.events.len() > 0, None)
    }

    /// Take the front message for the primary callback; on an empty queue,
    /// nothing happens.
    pub fn dispatch(&mut self) -> (r: Option<MSG>)
        ensures
            r == dispatched(old(self)@),
            final(self)@ == dispatch_model(old(self)@),
    {
        let r = self.events.pop_front();
        proof {
            if old(self)@.events.len() > 0 {
                assert(self@ =~= dispatch_model(old(self)@));
            }
        }
        r
    }
}

/// Emit `msg` into `stream` in one step. A locked stream drops it and
/// returns `None`; otherwise it is queued and the result is the number of
/// observers registered so far. Observers see a message before it is
/// queued: where they are to be notified, emit through
/// [`EventStreamData::begin_emit`], notify observers `0..n`, then
/// [`EventStreamData::finish_emit`].
pub fn emit<MSG>(stream: &mut EventStreamData<MSG>, msg: MSG) -> (r: Option<usize>)
    ensures
        final(stream)@ == emit_model(old(stream)@, msg),
        old(stream)@.locked ==> r is None,
        !old(stream)@.locked ==> r == Some(old(stream)@.observers as usize),
{
    let plan = stream.begin_emit();
    if plan.is_some() {
        stream.finish_emit(msg);
    }
    plan
}


/// A non-owning reference to a stream of a [`StreamArena`]. It stays valid
/// until the stream is closed; after that every operation through it is a
/// use-after-teardown bug and is ruled out by the operations' `requires`.
#[derive(Clone, Copy, PartialEq, Eq, Structural)]
pub struct StreamHandle {
    slot: usize,
}

impl View for StreamHandle {
    type V = nat;

    closed spec fn view(&self) -> nat {
        self.slot as nat
    }
}

/// The owner of every stream of one thread. Stream `i` lives in slot `i`;
/// closing a stream empties its slot for good, so a handle to it can never
/// reach another stream.
pub struct StreamArena<MSG> {
    slots: Vec<Option<EventStreamData<MSG>>>,
}

/// The abstract state of an arena: per slot, the live stream's model, or
/// `None` once that stream was torn down.
pub open spec fn slot_model<MSG>(s: Option<EventStreamData<MSG>>) -> Option<StreamModel<MSG>> {
    match s {
        Some(d) => Some(d@),
        None => None,
    }
}

impl<MSG> View for StreamArena<MSG> {
    type V = Seq<Option<StreamModel<MSG>>>;

    closed spec fn view(&self) -> Seq<Option<StreamModel<MSG>>> {
        self.slots@.map_values(|s: Option<EventStreamData<MSG>>| slot_model(s))
    }
}

/// Whether the stream that `h` refers to is still alive in arena state `a`.
pub open spec fn live<MSG>(a: Seq<Option<StreamModel<MSG>>>, h: nat) -> bool {
    h < a.len() && a[h as int] is Some
}

/// The model of the live stream that `h` refers to.
pub open spec fn model_at<MSG>(a: Seq<Option<StreamModel<MSG>>>, h: nat) -> StreamModel<MSG> {
    a[h as int]->Some_0
}

/// Arena state `a` with the stream of `h` replaced by `m`.
pub open spec fn with_model<MSG>(
    a: Seq<Option<StreamModel<MSG>>>,
    h: nat,
    m: StreamModel<MSG>,
) -> Seq<Option<StreamModel<MSG>>> {
    a.update(h as int, Some(m))
}

impl<MSG> StreamArena<MSG> {
    /// An arena with no stream.
    pub fn new() -> (r: Self)
        ensures
            r@ == Seq::<Option<StreamModel<MSG>>>::empty(),
    {
        let r = StreamArena { slots: Vec::new() };
        assert(r@ =~= Seq::<Option<StreamModel<MSG>>>::empty());
        r
    }

    /// Create a new, unlocked, empty stream and return a handle to it.
    pub fn create(&mut self) -> (r: StreamHandle)
        ensures
            r@ == old(self)@.len(),
            dead_stays_dead(old(self)@, final(self)@),
            final(self)@ == old(self)@.push(
                Some(StreamModel { events: Seq::empty(), locked: false, observers: 0 }),
            ),
    {
        let slot = self.slots.len();
        self.slots.push(Some(EventStreamData::new()));
        proof {
            assert(self@ =~= old(self)@.push(
                Some(StreamModel { events: Seq::empty(), locked: false, observers: 0 }),
            ));
        }
        StreamHandle::new(slot)
    }

    /// Whether the stream of `h` is still alive.
    pub fn is_live(&self, h: &StreamHandle) -> (r: bool)
        ensures
            r == live(self@, h@),
    {
        h.slot < self.slots.len() && self.slots[h.slot].is_some()
    }

    /// Read access to the live stream of `h`.
    pub fn get(&self, h: &StreamHandle) -> (r: &EventStreamData<MSG>)
        requires
            live(self@, h@),
        ensures
            r@ == model_at(self@, h@),
    {
        match &self.slots[h.slot] {
            Some(d) => d,
            None => {
                proof {
                    assert(slot_model(self.slots@[h.slot as int]) is Some);
                }
                unreached()
            },
        }
    }

    /// Tear down the stream of `h`: its pending messages and its state are
    /// dropped and every handle to it becomes dead. Closing a dead stream
    /// does nothing.
    pub fn close(&mut self, h: &StreamHandle)
        ensures
            final(self)@.len() == old(self)@.len(),
            !live(final(self)@, h@),
            dead_stays_dead(old(self)@, final(self)@),
            forall|i: int|
                0 <= i < old(self)@.len() && i != h@ ==> #[trigger] final(self)@[i] == old(self)@[i],
            live(old(self)@, h@) ==> final(self)@ == old(self)@.update(h@ as int, None),
            !live(old(self)@, h@) ==> final(self)@ == old(self)@,
    {
        if h.slot < self.slots.len() {
            self.slots.set(h.slot, None);
            proof {
                assert(self@ =~= old(self)@.update(h@ as int, None));
            }
        }
    }

    /// Take the live stream of `h` out of its slot, to be put back by `put`.
    fn take(&mut self, h: &StreamHandle) -> (r: EventStreamData<MSG>)
        requires
            live(old(self)@, h@),
        ensures
            r@ == model_at(old(self)@, h@),
            final(self)@ == old(self)@.update(h@ as int, None),
    {
        let mut taken: Option<EventStreamData<MSG>> = None;
        std::mem::swap(&mut taken, &mut self.slots[h.slot]);
        proof {
            assert(self@ =~= old(self)@.update(h@ as int, None));
        }
        match taken {
            Some(d) => d,
            None => {
                proof {
                    assert(slot_model(old(self).slots@[h.slot as int]) is Some);
                }
                unreached()
            },
        }
    }

    /// Put a stream back into the slot of `h`.
    fn put(&mut self, h: &StreamHandle, d: EventStreamData<MSG>)
        requires
            h@ < old(self)@.len(),
        ensures
            final(self)@ == old(self)@.update(h@ as int, Some(d@)),
    {
        self.slots.set(h.slot, Some(d));
        proof {
            assert(self@ =~= old(self)@.update(h@ as int, Some(d@)));
        }
    }
}


/// Every stream that was dead in `a` is still dead in `b`: a torn-down
/// stream never comes back.
pub open spec fn dead_stays_dead<MSG>(a: Seq<Option<StreamModel<MSG>>>, b: Seq<Option<StreamModel<MSG>>>) -> bool {
    forall|k: nat| k < a.len() && !live(a, k) ==> !#[trigger] live(b, k)
}

impl StreamHandle {
    fn new(slot: usize) -> (r: Self)
        ensures
            r@ == slot,
    {
        StreamHandle { slot }
    }

    /// Another handle to the same stream.
    pub fn stream(&self) -> (r: Self)
        ensures
            r@ == self@,
    {
        *self
    }

    /// Emit `msg` into the stream (see [`emit`]).
    pub fn emit<MSG>(&self, arena: &mut StreamArena<MSG>, msg: MSG) -> (r: Option<usize>)
        requires
            live(old(arena)@, self@),
        ensures
            final(arena)@ == with_model(old(arena)@, self@, emit_model(model_at(old(arena)@, self@), msg)),
            model_at(old(arena)@, self@).locked ==> r is None,
            !model_at(old(arena)@, self@).locked ==> r == Some(model_at(old(arena)@, self@).observers as usize),
    {
        let mut d = arena.take(self);
        let r = emit(&mut d, msg);
        arena.put(self, d);
        r
    }

    /// First half of an emission through the handle: see
    /// [`EventStreamData::begin_emit`].
    pub fn begin_emit<MSG>(&self, arena: &StreamArena<MSG>) -> (r: Option<usize>)
        requires
            live(arena@, self@),
        ensures
            model_at(arena@, self@).locked ==> r is None,
            !model_at(arena@, self@).locked ==> r == Some(model_at(arena@, self@).observers as usize),
    {
        arena.get(self).begin_emit()
    }

    /// Second half of an emission through the handle: queue `msg`.
    pub fn finish_emit<MSG>(&self, arena: &mut StreamArena<MSG>, msg: MSG)
        requires
            live(old(arena)@, self@),
        ensures
            final(arena)@ == with_model(
                old(arena)@,
                self@,
                StreamModel { events: model_at(old(arena)@, self@).events.push(msg), ..model_at(old(arena)@, self@) },
            ),
    {
        let mut d = arena.take(self);
        d.finish_emit(msg);
        arena.put(self, d);
    }

    /// Lock the stream: emissions are dropped until the returned guard is
    /// released.
    pub fn lock<MSG>(&self, arena: &mut StreamArena<MSG>) -> (r: Lock)
        requires
            live(old(arena)@, self@),
        ensures
            r@ == self@,
            final(arena)@ == with_model(old(arena)@, self@, StreamModel { locked: true, ..model_at(old(arena)@, self@) }),
    {
        let mut d = arena.take(self);
        d.set_locked(true);
        arena.put(self, d);
        Lock { stream: self.stream() }
    }

    /// Clear the lock flag, whoever set it.
    pub fn unlock<MSG>(&self, arena: &mut StreamArena<MSG>)
        requires
            live(old(arena)@, self@),
        ensures
            final(arena)@ == with_model(old(arena)@, self@, StreamModel { locked: false, ..model_at(old(arena)@, self@) }),
    {
        let mut d = arena.take(self);
        d.set_locked(false);
        arena.put(self, d);
    }

    /// Register an observer of the stream and return its index: it sees
    /// every message emitted from now on, and none emitted before.
    pub fn observe<MSG>(&self, arena: &mut StreamArena<MSG>) -> (r: usize)
        requires
            live(old(arena)@, self@),
            model_at(old(arena)@, self@).observers < usize::MAX,
        ensures
            r == model_at(old(arena)@, self@).observers,
            final(arena)@ == with_model(
                old(arena)@,
                self@,
                StreamModel { observers: model_at(old(arena)@, self@).observers + 1, ..model_at(old(arena)@, self@) },
            ),
    {
        let mut d = arena.take(self);
        let r = d.add_observer();
        arena.put(self, d);
        r
    }

    /// Readiness of the stream for the polling loop.
    pub fn prepare<MSG>(&self, arena: &StreamArena<MSG>) -> (r: (bool, Option<u32>))
        requires
            live(arena@, self@),
        ensures
            r.0 == (model_at(arena@, self@).events.len() > 0),
            r.1 is None,
    {
        arena.get(self).prepare()
    }

    /// Take the front message of the stream for its primary callback.
    pub fn dispatch<MSG>(&self, arena: &mut StreamArena<MSG>) -> (r: Option<MSG>)
        requires
            live(old(arena)@, self@),
        ensures
            r == dispatched(model_at(old(arena)@, self@)),
            final(arena)@ == with_model(old(arena)@, self@, dispatch_model(model_at(old(arena)@, self@))),
    {
        let mut d = arena.take(self);
        let r = d.dispatch();
        arena.put(self, d);
        r
    }
}

/// A scoped lock on a stream. Releasing it clears the lock flag
/// unconditionally: overlapping locks are not counted.
pub struct Lock {
    stream: StreamHandle,
}

impl View for Lock {
    type V = nat;

    closed spec fn view(&self) -> nat {
        self.stream@
    }
}

impl Lock {
    /// The stream that this lock holds.
    pub fn handle(&self) -> (r: StreamHandle)
        ensures
            r@ == self@,
    {
        self.stream
    }

    /// Release the lock: the stream accepts messages again.
    pub fn release<MSG>(self, arena: &mut StreamArena<MSG>)
        requires
            live(old(arena)@, self@),
        ensures
            final(arena)@ == with_model(old(arena)@, self@, StreamModel { locked: false, ..model_at(old(arena)@, self@) }),
    {
        self.stream.unlock(arena);
    }
}

} // verus!
