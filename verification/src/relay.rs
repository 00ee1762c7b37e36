//! The relay's rules: how connected clients are numbered, and what each of
//! them is forwarded from the hub that all handlers publish to.

use crate::wire::{encode_forwarded, forwarded_frame};
use vstd::prelude::*;

verus! {

/// How many published messages the hub holds for a subscriber that lags.
pub const HUB_CAPACITY: usize = 100;

/// Hands out client identifiers: 1, 2, 3 and so on, each once.
pub struct ClientIds {
    issued: u32,
}

impl ClientIds {
    /// The identifier handed out last, 0 before the first.
    pub closed spec fn last(&self) -> u32 {
        self.issued
    }

    /// A source that has handed out nothing yet.
    pub fn new() -> (out: Self)
        ensures
            out.last() == 0,
    {
        ClientIds { issued: 0 }
    }

    /// The identifier handed out last, 0 before the first.
    pub fn last_issued(&self) -> (id: u32)
        ensures
            id == self.last(),
    {
        self.issued
    }

    /// Hands out the next identifier: one more than the last, so larger than
    /// every one before it. `None`, with nothing changed, once all 32-bit
    /// identifiers are used up.
    pub fn assign(&mut self) -> (out: Option<u32>)
        ensures
            out is Some <==> old(self).last() < u32::MAX,
            out matches Some(id) ==> id == old(self).last() + 1 && final(self).last() == id,
            out is None ==> final(self).last() == old(self).last(),
    {
        if self.issued < u32::MAX {
            self.issued = self.issued + 1;
            Some(self.issued)
        } else {
            None
        }
    }
}

/// What the handler of client `own` sends to its client for a message that
/// `sender` published: nothing for its own messages, else the sender's
/// identifier followed by the payload.
pub open spec fn forward_spec(own: u32, sender: u32, payload: Seq<u8>) -> Option<Seq<u8>> {
    if sender == own {
        None
    } else {
        Some(forwarded_frame(sender, payload))
    }
}

/// Every client but the sender is forwarded the sender's identifier and the
/// payload; the sender is forwarded nothing of its own.
pub proof fn lemma_fan_out_excludes_sender(subscriber: u32, sender: u32, payload: Seq<u8>)
    ensures
        subscriber != sender ==> forward_spec(subscriber, sender, payload) == Some(
            forwarded_frame(sender, payload),
        ),
        forward_spec(sender, sender, payload) is None,
{
}

/// Decides what the handler of client `own` forwards for a published
/// message. The frame goes out as a best-effort message whichever way the
/// payload came in.
pub fn forward(own: u32, sender: u32, payload: &[u8]) -> (out: Option<Vec<u8>>)
    ensures
        out is Some <==> sender != own,
        match out {
            Some(frame) => forward_spec(own, sender, payload@) == Some(frame@),
            None => forward_spec(own, sender, payload@) is None,
        },
{
    if sender == own {
        None
    } else {
        Some(encode_forwarded(sender, payload))
    }
}

/// What the hub hands a subscriber that asks for the next message.
pub enum HubEvent {
    /// A message that `sender` published.
    Message { sender: u32, payload: Vec<u8> },
    /// The subscriber fell behind and the hub dropped this many of the
    /// oldest messages it had not read yet.
    Lagged(u64),
    /// The hub is gone.
    Closed,
}

/// What the fan-out duty of a handler does next.
#[derive(Debug, PartialEq, Eq)]
pub enum FanOut {
    /// Send this frame to the own client as a best-effort message.
    Send(Vec<u8>),
    /// Nothing to send; ask the hub again.
    Skip,
    /// End the duty.
    Stop,
}

/// The mathematical content of a [`FanOut`].
pub enum FanOutView {
    Send(Seq<u8>),
    Skip,
    Stop,
}

impl View for FanOut {
    type V = FanOutView;

    open spec fn view(&self) -> FanOutView {
        match *self {
            FanOut::Send(frame) => FanOutView::Send(frame@),
            FanOut::Skip => FanOutView::Skip,
            FanOut::Stop => FanOutView::Stop,
        }
    }
}

/// The step that the handler of client `own` takes on a hub event. Messages
/// of others are forwarded, its own are skipped. A subscriber that lagged
/// has lost the dropped messages and carries on with the next. The duty
/// ends with the hub.
pub open spec fn fan_out_spec(own: u32, event: HubEvent) -> FanOutView {
    match event {
        HubEvent::Message { sender, payload } => match forward_spec(own, sender, payload@) {
            Some(frame) => FanOutView::Send(frame),
            None => FanOutView::Skip,
        },
        HubEvent::Lagged(_) => FanOutView::Skip,
        HubEvent::Closed => FanOutView::Stop,
    }
}

/// Decides the next step of the fan-out duty of client `own`.
pub fn fan_out(own: u32, event: &HubEvent) -> (out: FanOut)
    ensures
        out@ == fan_out_spec(own, *event),
{
    match event {
        HubEvent::Message { sender, payload } => match forward(own, *sender, payload.as_slice()) {
            Some(frame) => FanOut::Send(frame),
            None => FanOut::Skip,
        },
        HubEvent::Lagged(_) => FanOut::Skip,
        HubEvent::Closed => FanOut::Stop,
    }
}

} // verus!
