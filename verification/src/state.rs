//! The shared capture record.
//!
//! One record exists per capture flow.  The listener writes the extracted
//! credential into it at most once (first writer wins), and the waiter reads
//! it until a value appears or the deadline passes.  Its ghost model is simply
//! `Option<Seq<u8>>`: the credential's bytes, once one has been captured.

use vstd::prelude::*;

use crate::bytes::copy_bytes;

verus! {

/// What one capture attempt does to the record's contents: the first writer
/// wins, and every later attempt changes nothing.
pub open spec fn capture_step(s: Option<Seq<u8>>, v: Seq<u8>) -> Option<Seq<u8>> {
    if s is Some {
        s
    } else {
        Some(v)
    }
}

/// The capture record: whether a credential has been captured, and which.
/// The flag and the value move together — the flag is set exactly when a
/// value is present — so a reader that sees the flag set always finds a
/// fully written value.
pub struct CaptureState {
    value: Option<Vec<u8>>,
    captured: bool,
}

impl View for CaptureState {
    type V = Option<Seq<u8>>;

    closed spec fn view(&self) -> Option<Seq<u8>> {
        match self.value {
            Some(v) => Some(v@),
            None => None,
        }
    }
}

impl CaptureState {
    /// The flag agrees with the value.
    pub closed spec fn wf(&self) -> bool {
        self.captured <==> self.value is Some
    }

    /// A fresh, empty record.
    pub fn new() -> (s: CaptureState)
        ensures
            s.wf(),
            s@ is None,
    {
        CaptureState { value: None, captured: false }
    }

    /// Clear the record for a new flow.  The outcome does not depend on what
    /// the record held before: every flow starts from the same empty record.
    pub fn reset(&mut self)
        ensures
            final(self).wf(),
            final(self)@ is None,
    {
        self.value = None;
        self.captured = false;
    }

    /// Has a credential been captured?
    pub fn is_captured(&self) -> (r: bool)
        requires
            self.wf(),
        ensures
            r == (self@ is Some),
    {
        self.captured
    }

    /// Offer a credential: stored if the record is still empty, dropped
    /// otherwise.
    pub fn try_capture(&mut self, v: Vec<u8>)
        requires
            old(self).wf(),
        ensures
            final(self).wf(),
            final(self)@ == capture_step(old(self)@, v@),
    {
        if !self.captured {
            self.value = Some(v);
            self.captured = true;
        }
    }

    /// A copy of the captured credential, when one is present.
    pub fn credential(&self) -> (r: Option<Vec<u8>>)
        ensures
            r.deep_view() == self@,
    {
        match &self.value {
            Some(v) => {
                let c = copy_bytes(v);
                proof {
                    crate::bytes::lemma_deep_bytes(c);
                }
                Some(c)
            },
            None => None,
        }
    }
}

/// At-most-once, one offer at a time: once the record holds a value, a
/// further capture attempt leaves it exactly as it was, whatever value the
/// attempt carries.
pub proof fn lemma_capture_at_most_once(s: Option<Seq<u8>>, v: Seq<u8>)
    requires
        s is Some,
    ensures
        capture_step(s, v) == s,
{
}

} // verus!
