//! The seek/control channel between the outside world and the decoder
//! worker. In the running system this is a channel whose sender side
//! is cloned into handles; here the pending messages are modelled as
//! an explicit queue so that the delivery order and the "fails only
//! once the worker is gone" behaviour are proved.
use core::time::Duration;
use std::collections::VecDeque;
use vstd::prelude::*;

verus! {

/// A command for the decoder worker. Seeking is the only mid-stream
/// command; everything else goes through the shared flags.
pub enum ControlMessage {
    Seek(Duration),
}

/// The error returned when a control message cannot be delivered
/// because the decoder worker has already terminated.
#[derive(Debug, Clone, Copy, PartialEq, Eq, Structural)]
pub struct SeekSendError;

/// The sending side of the decoder worker's control channel. Requests
/// queue up until the worker polls them, one per main-loop iteration;
/// the worker performs each seek in order, so the newest request is
/// the one whose effect survives.
pub struct FFmpegDecoderHandle {
    pending: VecDeque<ControlMessage>,
    closed: bool,
}

impl FFmpegDecoderHandle {
    /// The control messages sent but not yet polled by the worker,
    /// oldest first.
    pub closed spec fn pending(self) -> Seq<ControlMessage> {
        self.pending@
    }

    /// Whether the worker has terminated; sends fail from then on.
    pub closed spec fn closed(self) -> bool {
        self.closed
    }

    /// A fresh channel with no pending message and a live worker.
    pub fn new() -> (h: Self)
        ensures
            h.pending() == Seq::<ControlMessage>::empty(),
            !h.closed(),
    {
        FFmpegDecoderHandle { pending: VecDeque::new(), closed: false }
    }

    /// Requests a seek to `pos`. Fails exactly when the worker has
    /// already terminated; otherwise the request is queued behind any
    /// earlier ones.
    pub fn seek(&mut self, pos: Duration) -> (r: Result<(), SeekSendError>)
        ensures
            old(self).closed() ==> r is Err && *final(self) == *old(self),
            !old(self).closed() ==> r is Ok && final(self).pending() == old(self).pending().push(
                ControlMessage::Seek(pos),
            ) && !final(self).closed(),
    {
        if self.closed {
            Err(SeekSendError)
        } else {
            self.pending.push_back(ControlMessage::Seek(pos));
            Ok(())
        }
    }

    /// The worker's non-blocking poll: removes and returns the oldest
    /// pending message, if any.
    pub fn poll(&mut self) -> (r: Option<ControlMessage>)
        ensures
            final(self).closed() == old(self).closed(),
            old(self).pending().len() == 0 ==> r is None && final(self).pending() == old(self).pending(),
            old(self).pending().len() > 0 ==> r == Some(old(self).pending()[0])
                && final(self).pending() == old(self).pending().drop_first(),
    {
        self.pending.pop_front()
    }

    /// Whether the worker has terminated.
    pub fn closed_flag(&self) -> (b: bool)
        ensures
            b == self.closed(),
    {
        self.closed
    }

    /// Marks the worker as terminated: every later send fails.
    pub fn mark_closed(&mut self)
        ensures
            final(self).closed(),
            final(self).pending() == old(self).pending(),
    {
        self.closed = true;
    }
}

} // verus!
