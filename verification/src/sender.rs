//! The sender worker: from deltas on the delta queue to outbound frames.

use crate::delta::{Delta, DeltaView};
use crate::error::Error;
use crate::models::{Message, MessageView};
use vstd::prelude::*;

verus! {

/// One outbound frame: the kind of update, and the message it is about.
#[derive(Debug, PartialEq, Eq)]
pub struct OutboundFrame {
    pub kind: String,
    pub message: Message,
}

pub ghost struct OutboundFrameView {
    pub kind: Seq<char>,
    pub message: MessageView,
}

impl View for OutboundFrame {
    type V = OutboundFrameView;

    open spec fn view(&self) -> OutboundFrameView {
        OutboundFrameView { kind: self.kind@, message: self.message@ }
    }
}

/// The frame that carries a delta: tagged "append" or "replace", with the message.
pub open spec fn frame_of(delta: DeltaView) -> OutboundFrameView {
    OutboundFrameView { kind: delta.kind(), message: delta.message() }
}

impl OutboundFrame {
    pub fn new(delta: Delta) -> (r: Self)
        ensures
            r@ == frame_of(delta@),
    {
        let (kind, message) = delta.into_frame();
        OutboundFrame { kind: kind.to_owned(), message }
    }
}

/// Where the sender stands.
#[derive(Clone, Copy, Debug, PartialEq, Eq, Structural)]
pub enum SenderState {
    /// A delta is awaited.
    Waiting,
    /// A frame is being written.
    Writing,
    /// The worker has returned.
    Exited,
}

/// How the last request went.
#[derive(Debug, PartialEq, Eq)]
pub enum SenderEvent {
    /// The delta queue gave this delta.
    Took(Delta),
    /// The delta queue is closed and empty.
    QueueClosed,
    /// The frame was written.
    Written,
    /// The frame could not be written: the client is gone.
    WriteFailed,
}

pub ghost enum SenderEventView {
    Took(DeltaView),
    QueueClosed,
    Written,
    WriteFailed,
}

impl View for SenderEvent {
    type V = SenderEventView;

    open spec fn view(&self) -> SenderEventView {
        match self {
            SenderEvent::Took(delta) => SenderEventView::Took(delta@),
            SenderEvent::QueueClosed => SenderEventView::QueueClosed,
            SenderEvent::Written => SenderEventView::Written,
            SenderEvent::WriteFailed => SenderEventView::WriteFailed,
        }
    }
}

/// What the sender asks for next.
#[derive(Debug, PartialEq, Eq)]
pub enum SenderAction {
    /// Take the next delta from the delta queue.
    Take,
    /// Write this frame to the outbound half of the connection.
    Write(OutboundFrame),
    /// Return: without an error, or with the one that ends the session.
    Exit(Option<Error>),
}

pub ghost enum SenderActionView {
    Take,
    Write(OutboundFrameView),
    Exit(Option<Error>),
}

impl View for SenderAction {
    type V = SenderActionView;

    open spec fn view(&self) -> SenderActionView {
        match self {
            SenderAction::Take => SenderActionView::Take,
            SenderAction::Write(frame) => SenderActionView::Write(frame@),
            SenderAction::Exit(error) => SenderActionView::Exit(*error),
        }
    }
}

/// The sender, step by step. Each delta becomes one frame, in the order in which the
/// deltas come. A frame that cannot be written is not written again.
pub open spec fn spec_step(state: SenderState, event: SenderEventView) -> (
    SenderState,
    SenderActionView,
) {
    match state {
        SenderState::Waiting => match event {
            SenderEventView::Took(delta) => (
                SenderState::Writing,
                SenderActionView::Write(frame_of(delta)),
            ),
            SenderEventView::QueueClosed => (SenderState::Exited, SenderActionView::Exit(None)),
            _ => (SenderState::Exited, SenderActionView::Exit(Some(Error::OutOfTurn))),
        },
        SenderState::Writing => match event {
            SenderEventView::Written => (SenderState::Waiting, SenderActionView::Take),
            SenderEventView::WriteFailed => (
                SenderState::Exited,
                SenderActionView::Exit(Some(Error::OutboundWriteError)),
            ),
            _ => (SenderState::Exited, SenderActionView::Exit(Some(Error::OutOfTurn))),
        },
        SenderState::Exited => (SenderState::Exited, SenderActionView::Exit(None)),
    }
}

impl SenderState {
    /// One step of the sender.
    pub fn step(self, event: SenderEvent) -> (r: (SenderState, SenderAction))
        ensures
            (r.0, r.1@) == spec_step(self, event@),
    {
        match self {
            SenderState::Waiting => match event {
                SenderEvent::Took(delta) => (
                    SenderState::Writing,
                    SenderAction::Write(OutboundFrame::new(delta)),
                ),
                SenderEvent::QueueClosed => (SenderState::Exited, SenderAction::Exit(None)),
                _ => (SenderState::Exited, SenderAction::Exit(Some(Error::OutOfTurn))),
            },
            SenderState::Writing => match event {
                SenderEvent::Written => (SenderState::Waiting, SenderAction::Take),
                SenderEvent::WriteFailed => (
                    SenderState::Exited,
                    SenderAction::Exit(Some(Error::OutboundWriteError)),
                ),
                _ => (SenderState::Exited, SenderAction::Exit(Some(Error::OutOfTurn))),
            },
            SenderState::Exited => (SenderState::Exited, SenderAction::Exit(None)),
        }
    }
}

/// What the sender asks for, request by request, while `events` come in.
pub open spec fn requests(state: SenderState, events: Seq<SenderEventView>) -> Seq<
    SenderActionView,
>
    decreases events.len(),
{
    if events.len() == 0 {
        Seq::empty()
    } else {
        let (next, action) = spec_step(state, events[0]);
        seq![action] + requests(next, events.drop_first())
    }
}

/// The frames that are written, in order.
pub open spec fn written(actions: Seq<SenderActionView>) -> Seq<OutboundFrameView>
    decreases actions.len(),
{
    if actions.len() == 0 {
        Seq::empty()
    } else {
        let rest = written(actions.drop_first());
        match actions[0] {
            SenderActionView::Write(frame) => seq![frame] + rest,
            _ => rest,
        }
    }
}

/// What comes in while `deltas` come off the delta queue and every frame can be
/// written.
pub open spec fn delivered(deltas: Seq<DeltaView>) -> Seq<SenderEventView>
    decreases deltas.len(),
{
    if deltas.len() == 0 {
        Seq::empty()
    } else {
        seq![SenderEventView::Took(deltas[0]), SenderEventView::Written] + delivered(
            deltas.drop_first(),
        )
    }
}

/// The frames that carry `deltas`, one for each, in order.
pub open spec fn frames_of(deltas: Seq<DeltaView>) -> Seq<OutboundFrameView> {
    Seq::new(deltas.len(), |i: int| frame_of(deltas[i]))
}

proof fn lemma_first_request(action: SenderActionView, rest: Seq<SenderActionView>)
    ensures
        written(seq![action] + rest) == (match action {
            SenderActionView::Write(frame) => seq![frame] + written(rest),
            _ => written(rest),
        }),
{
    assert((seq![action] + rest).drop_first() =~= rest);
}

/// While frames can be written, the sender writes exactly one frame for each delta,
/// in the order in which the deltas come off the queue.
pub proof fn lemma_one_frame_for_each_delta(deltas: Seq<DeltaView>)
    ensures
        written(requests(SenderState::Waiting, delivered(deltas))) == frames_of(deltas),
    decreases deltas.len(),
{
    let events = delivered(deltas);
    if deltas.len() > 0 {
        let rest = deltas.drop_first();
        lemma_one_frame_for_each_delta(rest);
        let (s1, a1) = spec_step(SenderState::Waiting, events[0]);
        let (s2, a2) = spec_step(s1, events.drop_first()[0]);
        assert(events.drop_first().drop_first() =~= delivered(rest));
        let after2 = requests(s2, delivered(rest));
        let after1 = requests(s1, events.drop_first());
        lemma_first_request(a2, after2);
        lemma_first_request(a1, after1);
    }
}

/// A frame that cannot be written ends the sender with `OutboundWriteError`, and no
/// frame is written after it, whatever comes in.
pub proof fn lemma_failed_write_is_the_last(events: Seq<SenderEventView>)
    ensures
        written(
            requests(SenderState::Writing, seq![SenderEventView::WriteFailed] + events),
        ).len() == 0,
        requests(SenderState::Writing, seq![SenderEventView::WriteFailed] + events)[0]
            == SenderActionView::Exit(Some(Error::OutboundWriteError)),
{
    let all = seq![SenderEventView::WriteFailed] + events;
    assert(all.drop_first() =~= events);
    lemma_exited_writes_nothing(events);
    let after = requests(SenderState::Exited, events);
    let first = SenderActionView::Exit(Some(Error::OutboundWriteError));
    lemma_first_request(first, after);
}

proof fn lemma_exited_writes_nothing(events: Seq<SenderEventView>)
    ensures
        written(requests(SenderState::Exited, events)).len() == 0,
    decreases events.len(),
{
    if events.len() > 0 {
        lemma_exited_writes_nothing(events.drop_first());
        let after = requests(SenderState::Exited, events.drop_first());
        let first = SenderActionView::Exit(None);
        lemma_first_request(first, after);
    }
}

} // verus!
