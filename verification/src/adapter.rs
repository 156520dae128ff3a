//! The text-to-bytes bridge in front of a response body.
//!
//! An encoder produces text fragments; a response body takes bytes and may
//! fail for reasons of its own. The adapter decides, fragment by fragment,
//! what the body is asked to do, and folds whatever the body answers into one
//! kind of failure.

use vstd::prelude::*;
use vstd::string::*;

verus! {

/// The one failure an adapter reports. It carries no cause: whatever made the
/// sink turn a write down is deliberately not handed on.
#[derive(Clone, Copy, Debug, PartialEq, Eq)]
pub struct WriteError;

/// Why a byte sink turned a write down.
#[derive(Clone, Copy, Debug, PartialEq, Eq)]
pub enum SinkFailure {
    ConnectionReset,
    BrokenPipe,
    Other,
}

/// Whether the status line and headers of a response have gone out yet.
#[derive(Clone, Copy, Debug, PartialEq, Eq)]
pub enum ResponsePhase {
    NotStarted,
    Streaming,
}

/// What the owner of the sink has to do for one fragment.
#[derive(Debug, PartialEq, Eq)]
pub enum SinkAction {
    /// Nothing at all: the fragment is already dealt with, successfully.
    Skip,
    /// Write `bytes` to the sink, after the status line and headers if
    /// `head_first` is set, and report the outcome to
    /// [`ResponseStreamAdapter::settle`].
    Write { head_first: bool, bytes: Vec<u8> },
}

/// The action that a fragment calls for in a given phase.
pub open spec fn action_matches(action: SinkAction, phase: ResponsePhase, fragment: Seq<char>) -> bool {
    if fragment.len() == 0 {
        action is Skip
    } else {
        &&& action matches SinkAction::Write { head_first, bytes }
        &&& head_first == (phase is NotStarted)
        &&& bytes@ == vstd::utf8::encode_utf8(fragment)
    }
}

/// Presents a text sink over the byte sink of one response.
pub struct ResponseStreamAdapter {
    phase: ResponsePhase,
}

impl ResponseStreamAdapter {
    /// The phase the response is in.
    pub closed spec fn phase(&self) -> ResponsePhase {
        self.phase
    }

    /// An adapter for a response of which nothing has been sent.
    pub fn new() -> (adapter: Self)
        ensures
            adapter.phase() is NotStarted,
    {
        ResponseStreamAdapter { phase: ResponsePhase::NotStarted }
    }

    /// The phase the response is in.
    pub fn current_phase(&self) -> (phase: ResponsePhase)
        ensures
            phase == self.phase(),
    {
        self.phase
    }

    /// Decides what one fragment asks of the sink.
    ///
    /// An empty fragment asks nothing of it. Any other fragment is written as
    /// its UTF-8 bytes, behind the status line and headers while none of the
    /// response has been sent.
    pub fn write_fragment(&self, fragment: &str) -> (action: SinkAction)
        ensures
            action_matches(action, self.phase(), fragment@),
    {
        if fragment.is_empty() {
            SinkAction::Skip
        } else {
            let head_first = match self.phase {
                ResponsePhase::NotStarted => true,
                ResponsePhase::Streaming => false,
            };
            SinkAction::Write { head_first, bytes: fragment.as_bytes_vec() }
        }
    }

    /// Takes in what the sink answered to a write.
    ///
    /// A write that the sink accepted, in part or in whole, is a success and
    /// leaves the response streaming. A write that it turned down is reported
    /// as the one `WriteError`, and the phase stays as it was.
    pub fn settle(&mut self, outcome: Result<usize, SinkFailure>) -> (result: Result<(), WriteError>)
        ensures
            result is Ok <==> outcome is Ok,
            outcome is Ok ==> final(self).phase() is Streaming,
            outcome is Err ==> final(self).phase() == old(self).phase(),
        no_unwind
    {
        match outcome {
            Ok(_) => {
                self.phase = ResponsePhase::Streaming;
                Ok(())
            },
            Err(_) => Err(WriteError),
        }
    }
}

} // verus!
