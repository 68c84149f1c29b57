//! Runs of the connection state machine, and what holds of every run.
use vstd::prelude::*;
use crate::bridge::{Action, ConnState, Input, Phase, next};
use crate::frame::{Frame, frame_of, message_of, payload_len};
use crate::message::{WsEvent, WsMessage};

verus! {

/// The state reached and the actions taken when `ins` is fed to `c` in order.
pub open spec fn run(c: ConnState, ins: Seq<Input>) -> (ConnState, Seq<Action>)
    decreases ins.len(),
{
    if ins.len() == 0 {
        (c, Seq::empty())
    } else {
        let (c1, acts) = run(c, ins.drop_last());
        let (c2, a) = next(c1, ins.last());
        (c2, acts.push(a))
    }
}

/// The events handed to the handler by a list of actions, in order.
pub open spec fn delivered(acts: Seq<Action>) -> Seq<WsEvent>
    decreases acts.len(),
{
    if acts.len() == 0 {
        Seq::empty()
    } else {
        let rest = delivered(acts.drop_last());
        match acts.last() {
            Action::Deliver(e) => rest.push(e),
            Action::Shutdown => rest.push(WsEvent::Closed),
            _ => rest,
        }
    }
}

/// The frames written to the socket by a list of actions, in order.
pub open spec fn written(acts: Seq<Action>) -> Seq<Frame>
    decreases acts.len(),
{
    if acts.len() == 0 {
        Seq::empty()
    } else {
        let rest = written(acts.drop_last());
        match acts.last() {
            Action::Write(f) => rest.push(f),
            Action::Shutdown => rest.push(Frame::Close),
            _ => rest,
        }
    }
}

/// The messages that a list of inputs hands over for sending, in order.
pub open spec fn sends(ins: Seq<Input>) -> Seq<WsMessage>
    decreases ins.len(),
{
    if ins.len() == 0 {
        Seq::empty()
    } else {
        let rest = sends(ins.drop_last());
        match ins.last() {
            Input::Send(m) => rest.push(m),
            _ => rest,
        }
    }
}

/// The message events that a list of inputs brings in, in arrival order.
pub open spec fn inbound(ins: Seq<Input>) -> Seq<WsEvent>
    decreases ins.len(),
{
    if ins.len() == 0 {
        Seq::empty()
    } else {
        let rest = inbound(ins.drop_last());
        match ins.last() {
            Input::Received(f) => match message_of(f) {
                Some(m) => rest.push(WsEvent::Message(m)),
                None => rest,
            },
            _ => rest,
        }
    }
}

/// An event sequence in lifecycle order: `Opened` only first, a message only
/// after `Opened`, an `Error` or `Closed` only last.
pub open spec fn well_ordered(ev: Seq<WsEvent>) -> bool {
    &&& forall|i: int| 0 <= i < ev.len() && (#[trigger] ev[i]) is Opened ==> i == 0
    &&& forall|i: int| 0 <= i < ev.len() && (#[trigger] ev[i]) is Message ==> ev[0] is Opened
    &&& forall|i: int|
        0 <= i < ev.len() && (#[trigger] ev[i]).spec_is_terminal() ==> i == ev.len() - 1
}

/// Whether some event of the sequence ends the connection.
pub open spec fn has_terminal(ev: Seq<WsEvent>) -> bool {
    exists|i: int| 0 <= i < ev.len() && (#[trigger] ev[i]).spec_is_terminal()
}

/// What stands between the phase and the events delivered so far.
spec fn consistent(p: Phase, ev: Seq<WsEvent>) -> bool {
    &&& well_ordered(ev)
    &&& p is Connecting ==> ev.len() == 0
    &&& p is Open ==> ev.len() > 0 && ev[0] is Opened
    &&& !p.spec_is_terminal() ==> !has_terminal(ev)
}

proof fn lemma_consistent(c: ConnState, ins: Seq<Input>)
    requires
        c.phase is Connecting,
    ensures
        consistent(run(c, ins).0.phase, delivered(run(c, ins).1)),
    decreases ins.len(),
{
    if ins.len() > 0 {
        lemma_consistent(c, ins.drop_last());
        let (c1, acts) = run(c, ins.drop_last());
        let (c2, a) = next(c1, ins.last());
        assert(acts.push(a).drop_last() =~= acts);
        let ev = delivered(acts);
        let e = match a {
            Action::Deliver(e) => e,
            _ => WsEvent::Closed,
        };
        if a is Deliver || a is Shutdown {
            let ev2 = ev.push(e);
            assert(ev2[ev.len() as int] == e);
            assert forall|i: int| 0 <= i < ev.len() implies ev2[i] == ev[i] by {}
        }
    }
}

/// `Opened` is delivered at most once and before every message, and an `Error`
/// or `Closed` only as the last event.
pub proof fn lemma_events_well_ordered(c: ConnState, ins: Seq<Input>)
    requires
        c.phase is Connecting,
    ensures
        well_ordered(delivered(run(c, ins).1)),
{
    lemma_consistent(c, ins);
}

/// Once an `Error` or `Closed` event has been delivered, no input leads to
/// another event, and the connection stays in its final phase.
pub proof fn lemma_nothing_after_end(c: ConnState, ins: Seq<Input>, more: Seq<Input>)
    requires
        c.phase is Connecting,
        has_terminal(delivered(run(c, ins).1)),
    ensures
        delivered(run(c, ins + more).1) == delivered(run(c, ins).1),
        run(c, ins + more).0.phase == run(c, ins).0.phase,
        run(c, ins + more).0.phase.spec_is_terminal(),
    decreases more.len(),
{
    lemma_consistent(c, ins);
    if more.len() == 0 {
        assert(ins + more =~= ins);
    } else {
        lemma_nothing_after_end(c, ins, more.drop_last());
        assert((ins + more).drop_last() =~= ins + more.drop_last());
        assert((ins + more).last() == more.last());
        let (c1, acts) = run(c, ins + more.drop_last());
        let (c2, a) = next(c1, more.last());
        assert(acts.push(a).drop_last() =~= acts);
    }
}

/// Every input that may reach an open connection before it ends: a sendable
/// message, or an incoming data frame within the size limit.
pub open spec fn steady(c: ConnState, i: Input) -> bool {
    match i {
        Input::Send(m) => m.spec_is_sendable(),
        Input::Received(f) => !(f is Close) && payload_len(f) <= c.limit,
        _ => false,
    }
}

/// While a connection is open, the frames written are the frames of the
/// messages handed over, in the order they were handed over, whatever
/// incoming frames arrive in between; and the events delivered are the
/// messages of the incoming frames, in the order they arrived.
pub proof fn lemma_sends_written_in_order(c: ConnState, ins: Seq<Input>)
    requires
        c.phase is Open,
        forall|i: int| 0 <= i < ins.len() ==> steady(c, #[trigger] ins[i]),
    ensures
        run(c, ins).0 == c,
        written(run(c, ins).1) == sends(ins).map_values(|m: WsMessage| frame_of(m)),
        delivered(run(c, ins).1) == inbound(ins),
    decreases ins.len(),
{
    if ins.len() > 0 {
        let init = ins.drop_last();
        assert forall|i: int| 0 <= i < init.len() implies steady(c, #[trigger] init[i]) by {
            assert(init[i] == ins[i]);
        }
        lemma_sends_written_in_order(c, init);
        let acts = run(c, init).1;
        let a = next(c, ins.last()).1;
        assert(steady(c, ins[ins.len() - 1]));
        assert(acts.push(a).drop_last() =~= acts);
        let f = |m: WsMessage| frame_of(m);
        if let Input::Send(m) = ins.last() {
            assert(sends(init).push(m).map_values(f) =~= sends(init).map_values(f).push(
                frame_of(m),
            ));
        }
    }
}

/// A message of kind `Unknown` is never written: an open connection rejects
/// it with an `Error` event and ends, any other leaves it unanswered.
pub proof fn lemma_unknown_never_written(c: ConnState, s: String)
    ensures
        !(next(c, Input::Send(WsMessage::Unknown(s))).1 is Write),
        !(next(c, Input::Send(WsMessage::Unknown(s))).1 is Shutdown),
        c.phase is Open ==> next(c, Input::Send(WsMessage::Unknown(s))) == (
        c.with_phase(Phase::Errored),
        Action::Deliver(WsEvent::Error(c.unsendable)),
        ),
        !(c.phase is Open) ==> next(c, Input::Send(WsMessage::Unknown(s))) == (c, Action::Idle),
{
}

/// No run writes a raw frame, the only frame that an `Unknown` message could
/// have become: every frame written carries a sendable message or closes.
pub proof fn lemma_no_raw_frame_written(c: ConnState, ins: Seq<Input>)
    ensures
        forall|k: int|
            0 <= k < written(run(c, ins).1).len() ==> !(#[trigger] written(run(c, ins).1)[k] is Raw),
    decreases ins.len(),
{
    if ins.len() > 0 {
        lemma_no_raw_frame_written(c, ins.drop_last());
        let (c1, acts) = run(c, ins.drop_last());
        let (c2, a) = next(c1, ins.last());
        assert(acts.push(a).drop_last() =~= acts);
        let w = written(acts);
        let f = match a {
            Action::Write(f) => f,
            _ => Frame::Close,
        };
        if a is Write || a is Shutdown {
            let w2 = w.push(f);
            assert forall|k: int| 0 <= k < w.len() implies w2[k] == w[k] by {}
            assert(w2[w.len() as int] == f);
        }
    }
}

/// When the sender goes away, the connection ends in that one step, whatever
/// the peer does: an open one writes a close frame and delivers `Closed`.
pub proof fn lemma_sender_gone_closes(c: ConnState)
    requires
        !c.phase.spec_is_terminal(),
    ensures
        next(c, Input::SenderClosed).0.phase is Closed,
        c.phase is Open ==> next(c, Input::SenderClosed).1 is Shutdown,
        c.phase is Connecting ==> next(c, Input::SenderClosed).1 is Idle,
{
}

} // verus!
