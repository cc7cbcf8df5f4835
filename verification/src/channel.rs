//! The handoff channel between the command receiver and the controller.
//!
//! A single slot with room for exactly one outstanding payload.  Sending
//! never blocks and never overwrites: while the slot is occupied every send
//! fails, signalling that the controller is busy.  That refusal is the
//! system's whole backpressure policy — excess commands are dropped, never
//! queued or merged.

use vstd::prelude::*;

verus! {

/// A capacity-one conduit for command payloads.
pub struct HandoffChannel {
    slot: Option<Vec<u8>>,
}

impl HandoffChannel {
    /// The outstanding payload, if any.
    pub closed spec fn pending(self) -> Option<Seq<u8>> {
        match self.slot {
            Some(v) => Some(v@),
            None => None,
        }
    }

    /// A payload is outstanding: the channel refuses further sends.
    pub open spec fn is_full(self) -> bool {
        self.pending() is Some
    }

    /// An empty channel.
    pub fn new() -> (c: Self)
        ensures
            !c.is_full(),
    {
        HandoffChannel { slot: None }
    }

    /// Non-blocking send: deposit `data` when the slot is free; fail —
    /// handing the payload back and leaving the slot untouched — when one
    /// is already outstanding.
    pub fn try_send(&mut self, data: Vec<u8>) -> (r: Result<(), Vec<u8>>)
        ensures
            r is Ok <==> !old(self).is_full(),
            match r {
                Ok(()) => final(self).pending() == Some(data@),
                Err(returned) => final(self).pending() == old(self).pending()
                    && returned@ == data@,
            },
    {
        if self.slot.is_none() {
            self.slot = Some(data);
            Ok(())
        } else {
            Err(data)
        }
    }

    /// Whether a payload is outstanding.
    pub fn has_pending(&self) -> (b: bool)
        ensures
            b == self.is_full(),
    {
        self.slot.is_some()
    }

    /// Read the outstanding payload without consuming it.
    pub fn peek(&self) -> (r: &Vec<u8>)
        requires
            self.is_full(),
        ensures
            Some(r@) == self.pending(),
    {
        self.slot.as_ref().unwrap()
    }

    /// Consume the outstanding payload, freeing the slot.
    pub fn take(&mut self) -> (r: Vec<u8>)
        requires
            old(self).is_full(),
        ensures
            !final(self).is_full(),
            Some(r@) == old(self).pending(),
    {
        self.slot.take().unwrap()
    }
}

} // verus!
