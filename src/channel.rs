use std::sync::mpsc;
use vstd::prelude::*;

verus! {

#[verifier::external_type_specification]
#[verifier::external_body]
#[verifier::reject_recursive_types(T)]
pub struct ExMpscSender<T>(std::sync::mpsc::Sender<T>);

#[verifier::external_type_specification]
#[verifier::external_body]
#[verifier::reject_recursive_types(T)]
pub struct ExMpscReceiver<T>(std::sync::mpsc::Receiver<T>);

/// Relies on std::sync::mpsc::channel: a fresh sender / receiver pair of one
/// unbounded transport.
#[verifier::external_body]
fn new_transport<MSG>() -> (r: (mpsc::Sender<MSG>, mpsc::Receiver<MSG>)) {
    mpsc::channel()
}

/// Relies on std::sync::mpsc::Sender::send: when the receiver is gone, the
/// error hands the message back unchanged.
#[verifier::external_body]
fn transport_send<MSG>(s: &mpsc::Sender<MSG>, msg: MSG) -> (r: Result<(), MSG>)
    ensures
        r matches Err(m) ==> m == msg,
{
    s.send(msg).map_err(|e| e.0)
}

/// Relies on std::sync::mpsc::Sender::clone: another sender of the same
/// transport.
#[verifier::external_body]
fn transport_clone<MSG>(s: &mpsc::Sender<MSG>) -> (r: mpsc::Sender<MSG>) {
    s.clone()
}

/// Relies on std::sync::mpsc::Receiver::try_recv: a message if one is
/// waiting, without blocking. What comes back depends on the sending
/// threads, so nothing is promised of it.
#[verifier::external_body]
fn transport_try_receive<MSG>(r: &mpsc::Receiver<MSG>) -> (m: Option<MSG>) {
    r.try_recv().ok()
}

/// The message that a send could not deliver because the receiving side is
/// gone.
pub struct SendError<MSG>(pub MSG);

/// The sending half of a channel; it can be cloned and handed to other
/// threads.
#[verifier::reject_recursive_types(MSG)]
pub struct Sender<MSG> {
    sender: mpsc::Sender<MSG>,
}

impl<MSG> Clone for Sender<MSG> {
    fn clone(&self) -> (r: Self) {
        Sender { sender: transport_clone(&self.sender) }
    }
}

/// The outcome of a send as the library reports it, from what the transport
/// answered: accepted stays `Ok`, a message refused because the receiving
/// side is gone comes back inside a `SendError`.
pub fn send_outcome<MSG>(answer: Result<(), MSG>) -> (r: Result<(), SendError<MSG>>)
    ensures
        answer is Ok <==> r is Ok,
        answer matches Err(m) ==> (r matches Err(e) && e.0 == m),
{
    match answer {
        Ok(()) => Ok(()),
        Err(m) => Err(SendError(m)),
    }
}

impl<MSG> Sender<MSG> {
    /// Hand `msg` to the transport once, without blocking or retrying, and
    /// report its answer through [`send_outcome`]: `Ok` when the transport
    /// took the message, else the message back when the receiving side has
    /// been dropped.
    pub fn send(&self, msg: MSG) -> (r: Result<(), SendError<MSG>>)
        ensures
            r matches Err(e) ==> e.0 == msg,
    {
        let answer = transport_send(&self.sender, msg);
        send_outcome(answer)
    }
}

/// A message slot as a sequence: empty, or the one message it holds.
pub open spec fn slot_seq<MSG>(o: Option<MSG>) -> Seq<MSG> {
    match o {
        Some(m) => seq![m],
        None => Seq::empty(),
    }
}

/// The lookahead slot together with the record of what went through it.
struct Lookahead<MSG> {
    peeked_value: Option<MSG>,
    taken: Ghost<Seq<MSG>>,
    handed_out: Ghost<Seq<MSG>>,
}

/// The receiving side of a channel, polled on the loop's thread. A message
/// that `prepare` takes from the transport waits in a one-slot lookahead
/// until `dispatch` hands it out. What the transport answers is passed on
/// as it came ([`ChannelData::peek_received`],
/// [`ChannelData::hand_out_received`]), and what was taken from the
/// transport is always what was handed out followed by what waits in the
/// lookahead.
#[verifier::reject_recursive_types(MSG)]
pub struct ChannelData<MSG> {
    look: Lookahead<MSG>,
    receiver: mpsc::Receiver<MSG>,
}

impl<MSG> ChannelData<MSG> {
    #[verifier::type_invariant]
    spec fn conserved(self) -> bool {
        self.look.taken@ == self.look.handed_out@ + slot_seq(self.look.peeked_value)
    }

    /// The message waiting in the lookahead slot.
    pub closed spec fn peeked(&self) -> Option<MSG> {
        self.look.peeked_value
    }

    /// Every message taken from the transport so far, in order.
    pub closed spec fn taken(&self) -> Seq<MSG> {
        self.look.taken@
    }

    /// Every message handed out by `dispatch` so far, in order.
    pub closed spec fn handed_out(&self) -> Seq<MSG> {
        self.look.handed_out@
    }

    /// Whether a message waits in the lookahead slot.
    pub fn has_peeked(&self) -> (r: bool)
        ensures
            r == self.peeked() is Some,
    {
        self.look.peeked_value.is_some()
    }

    /// Readiness for the polling loop: a message waits in the lookahead, or
    /// the transport yields one now, which then waits there. No timeout.
    pub fn prepare(&mut self) -> (r: (bool, Option<u32>))
        ensures
            final(self).taken() == final(self).handed_out() + slot_seq(final(self).peeked()),
            r.1 is None,
            r.0 == final(self).peeked() is Some,
            old(self).peeked() is Some ==> final(self).peeked() == old(self).peeked(),
            final(self).handed_out() == old(self).handed_out(),
            final(self).taken() == old(self).taken() + (if old(self).peeked() is Some {
                Seq::empty()
            } else {
                slot_seq(final(self).peeked())
            }),
    {
        proof {
            use_type_invariant(&*self);
        }
        if self.look.peeked_value.is_some() {
            return (true, None);
        }
        let v = transport_try_receive(&self.receiver);
        self.peek_received(v)
    }

    /// The rest of `prepare` once the transport has answered `v` while the
    /// lookahead was empty: `v` waits in the lookahead, and the source is
    /// ready exactly when it is a message.
    pub fn peek_received(&mut self, v: Option<MSG>) -> (r: (bool, Option<u32>))
        requires
            old(self).peeked() is None,
        ensures
            r == (v is Some, None::<u32>),
            final(self).peeked() == v,
            final(self).taken() == old(self).taken() + slot_seq(v),
            final(self).handed_out() == old(self).handed_out(),
    {
        proof {
            use_type_invariant(&*self);
        }
        let ghost taken = self.look.taken@ + slot_seq(v);
        let ghost handed_out = self.look.handed_out@;
        assert(taken =~= handed_out + slot_seq(v));
        self.look = Lookahead { peeked_value: v, taken: Ghost(taken), handed_out: Ghost(handed_out) };
        (self.look.peeked_value.is_some(), None)
    }

    /// The rest of `dispatch` once the transport has answered `v` while the
    /// lookahead was empty: `v` is handed out as it came, and nothing else
    /// changes when it is `None`.
    pub fn hand_out_received(&mut self, v: Option<MSG>) -> (r: Option<MSG>)
        requires
            old(self).peeked() is None,
        ensures
            r == v,
            final(self).peeked() is None,
            final(self).taken() == old(self).taken() + slot_seq(v),
            final(self).handed_out() == old(self).handed_out() + slot_seq(v),
    {
        proof {
            use_type_invariant(&*self);
        }
        let ghost taken = self.look.taken@ + slot_seq(v);
        let ghost handed_out = self.look.handed_out@ + slot_seq(v);
        assert(taken =~= handed_out + slot_seq(None::<MSG>));
        self.look = Lookahead { peeked_value: None, taken: Ghost(taken), handed_out: Ghost(handed_out) };
        v
    }

    /// One unit of work: the message in the lookahead if there is one, else
    /// one more that the transport yields now, if any. The lookahead is
    /// empty afterwards.
    pub fn dispatch(&mut self) -> (r: Option<MSG>)
        ensures
            final(self).taken() == final(self).handed_out() + slot_seq(final(self).peeked()),
            final(self).peeked() is None,
            old(self).peeked() is Some ==> r == old(self).peeked(),
            final(self).handed_out() == old(self).handed_out() + slot_seq(r),
            old(self).peeked() is Some ==> final(self).taken() == old(self).taken(),
            old(self).peeked() is None ==> final(self).taken() == old(self).taken() + slot_seq(r),
    {
        proof {
            use_type_invariant(&*self);
        }
        if self.look.peeked_value.is_some() {
            let ghost taken = self.look.taken@;
            let ghost handed_out = self.look.handed_out@ + slot_seq(self.look.peeked_value);
            assert(taken =~= handed_out + slot_seq(None::<MSG>));
            let mut fresh = Lookahead { peeked_value: None, taken: Ghost(taken), handed_out: Ghost(handed_out) };
            std::mem::swap(&mut fresh, &mut self.look);
            fresh.peeked_value
        } else {
            let v = transport_try_receive(&self.receiver);
            self.hand_out_received(v)
        }
    }
}

/// A new channel: its sender, and its receiving side with nothing taken yet.
pub fn channel<MSG>() -> (r: (Sender<MSG>, ChannelData<MSG>))
    ensures
        r.1.peeked() is None,
        r.1.taken() == Seq::<MSG>::empty(),
        r.1.handed_out() == Seq::<MSG>::empty(),
{
    let (sender, receiver) = new_transport();
    let look = Lookahead { peeked_value: None, taken: Ghost(Seq::empty()), handed_out: Ghost(Seq::empty()) };
    assert(look.taken@ =~= look.handed_out@ + slot_seq(look.peeked_value));
    let data = ChannelData { look, receiver };
    (Sender { sender }, data)
}

} // verus!
