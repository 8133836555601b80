use crate::channel::slot_seq;
use crate::stream::{
    dead_stays_dead, dispatch_model, dispatched, emit_model, live, with_model, StreamModel,
};
use vstd::prelude::*;

verus! {

/// One operation on a single stream, as seen from the stream.
pub enum StreamOp<MSG> {
    Emit(MSG),
    Dispatch,
    Observe,
}

/// The stream after one operation.
pub open spec fn step<MSG>(m: StreamModel<MSG>, op: StreamOp<MSG>) -> StreamModel<MSG> {
    match op {
        StreamOp::Emit(x) => emit_model(m, x),
        StreamOp::Dispatch => dispatch_model(m),
        StreamOp::Observe => StreamModel { observers: m.observers + 1, ..m },
    }
}

/// The stream after a sequence of operations.
pub open spec fn run<MSG>(m: StreamModel<MSG>, ops: Seq<StreamOp<MSG>>) -> StreamModel<MSG>
    decreases ops.len(),
{
    if ops.len() == 0 {
        m
    } else {
        run(step(m, ops[0]), ops.drop_first())
    }
}

/// The messages handed to the primary callback by a sequence of operations,
/// in order.
pub open spec fn delivered<MSG>(m: StreamModel<MSG>, ops: Seq<StreamOp<MSG>>) -> Seq<MSG>
    decreases ops.len(),
{
    if ops.len() == 0 {
        Seq::empty()
    } else {
        let out = match ops[0] {
            StreamOp::Dispatch => dispatched(m),
            _ => None,
        };
        slot_seq(out) + delivered(step(m, ops[0]), ops.drop_first())
    }
}

/// The messages emitted by a sequence of operations, in order.
pub open spec fn emitted<MSG>(ops: Seq<StreamOp<MSG>>) -> Seq<MSG>
    decreases ops.len(),
{
    if ops.len() == 0 {
        Seq::empty()
    } else {
        let head = match ops[0] {
            StreamOp::Emit(x) => seq![x],
            _ => Seq::empty(),
        };
        head + emitted(ops.drop_first())
    }
}

/// The stream after `msgs` were emitted one after the other.
pub open spec fn emit_all<MSG>(m: StreamModel<MSG>, msgs: Seq<MSG>) -> StreamModel<MSG>
    decreases msgs.len(),
{
    if msgs.len() == 0 {
        m
    } else {
        emit_all(emit_model(m, msgs[0]), msgs.drop_first())
    }
}

/// On an unlocked stream, however emissions and dispatches interleave, the
/// messages handed to the primary callback followed by those still pending
/// are the messages pending at the start followed by those emitted, in
/// order: each message is delivered once, none is skipped or duplicated.
pub proof fn lemma_fifo_delivery<MSG>(m: StreamModel<MSG>, ops: Seq<StreamOp<MSG>>)
    requires
        !m.locked,
    ensures
        delivered(m, ops) + run(m, ops).events == m.events + emitted(ops),
    decreases ops.len(),
{
    if ops.len() == 0 {
        assert(delivered(m, ops) + run(m, ops).events =~= m.events + emitted(ops));
    } else {
        let m1 = step(m, ops[0]);
        let rest = ops.drop_first();
        lemma_fifo_delivery(m1, rest);
        match ops[0] {
            StreamOp::Emit(x) => {
                assert(m1.events == m.events.push(x));
                assert(delivered(m, ops) =~= delivered(m1, rest));
                assert(emitted(ops) =~= seq![x] + emitted(rest));
                assert(m.events.push(x) + emitted(rest) =~= m.events + (seq![x] + emitted(rest)));
            },
            StreamOp::Dispatch => {
                if m.events.len() == 0 {
                    assert(delivered(m, ops) =~= delivered(m1, rest));
                    assert(emitted(ops) =~= emitted(rest));
                } else {
                    let e = m.events[0];
                    assert(delivered(m, ops) =~= seq![e] + delivered(m1, rest));
                    assert(emitted(ops) =~= emitted(rest));
                    assert(m.events =~= seq![e] + m1.events);
                    assert(seq![e] + delivered(m1, rest) + run(m1, rest).events =~= seq![e] + (
                    delivered(m1, rest) + run(m1, rest).events));
                    assert(seq![e] + (m1.events + emitted(rest)) =~= m.events + emitted(rest));
                }
            },
            StreamOp::Observe => {
                assert(delivered(m, ops) =~= delivered(m1, rest));
                assert(emitted(ops) =~= emitted(rest));
            },
        }
    }
}

/// Emissions into a locked stream leave no trace: nothing is queued, and
/// once the lock is cleared the stream is exactly as if they had never
/// happened.
pub proof fn lemma_locked_emissions_vanish<MSG>(m: StreamModel<MSG>, msgs: Seq<MSG>)
    requires
        m.locked,
    ensures
        emit_all(m, msgs) == m,
        (StreamModel { locked: false, ..emit_all(m, msgs) }) == (StreamModel { locked: false, ..m }),
    decreases msgs.len(),
{
    if msgs.len() > 0 {
        lemma_locked_emissions_vanish(emit_model(m, msgs[0]), msgs.drop_first());
    }
}

/// Observers are never removed: the observer count never decreases.
pub proof fn lemma_observers_only_grow<MSG>(m: StreamModel<MSG>, ops: Seq<StreamOp<MSG>>)
    ensures
        run(m, ops).observers >= m.observers,
    decreases ops.len(),
{
    if ops.len() > 0 {
        lemma_observers_only_grow(step(m, ops[0]), ops.drop_first());
    }
}

/// An emission into an unlocked stream notifies the observers with an index
/// below `n = m.observers`, all registered before it. Whatever operations
/// follow, an observer registered afterwards gets an index of at least `n`,
/// so it never sees that message (`observe` hands out the observer count
/// of the state it is called in as the new index).
pub proof fn lemma_late_observer_misses_earlier_message<MSG>(
    m: StreamModel<MSG>,
    msg: MSG,
    ops: Seq<StreamOp<MSG>>,
)
    requires
        !m.locked,
    ensures
        run(emit_model(m, msg), ops).observers >= m.observers,
{
    lemma_observers_only_grow(emit_model(m, msg), ops);
}

/// Updating a live stream never revives a torn-down one: a handle to a
/// closed stream stays dead.
pub proof fn lemma_teardown_is_final<MSG>(a: Seq<Option<StreamModel<MSG>>>, h: nat, m: StreamModel<MSG>)
    requires
        live(a, h),
    ensures
        dead_stays_dead(a, with_model(a, h, m)),
{
}

} // verus!
