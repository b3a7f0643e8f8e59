//! The terminal outcome of one execution.

use serde_json::Value;
use vstd::prelude::*;
use vstd::string::*;

verus! {

/// The message of the envelope that stands for an elapsed wait.
pub const TIMEOUT_MESSAGE: &'static str = "Script execution timeout";

/// The message of the envelope that stands for a result channel that closed
/// without a delivery.
pub const CHANNEL_CLOSED_MESSAGE: &'static str = "Script execution failed: channel closed";

/// What comes before the reason in the message of a failed injection.
pub const INJECTION_FAILED_PREFIX: &'static str = "Failed to execute script: ";

/// The message of a failure that the remote side reported without one.
pub const UNKNOWN_ERROR_MESSAGE: &'static str = "Unknown error";

/// What one execution ends in: the script's value, or the message of what
/// went wrong.
#[derive(Debug, PartialEq)]
pub enum Envelope {
    /// The script ran to its end. `data` is the value it reported; `None`
    /// where the report held none, which reads as JSON `null`.
    Success { data: Option<Value> },
    /// The script threw, could not be injected, or did not answer.
    Failure { error: String },
}

/// An [`Envelope`] with its message as a sequence of characters.
pub enum EnvelopeView {
    Success { data: Option<Value> },
    Failure { error: Seq<char> },
}

impl View for Envelope {
    type V = EnvelopeView;

    open spec fn view(&self) -> EnvelopeView {
        match self {
            Envelope::Success { data } => EnvelopeView::Success { data: *data },
            Envelope::Failure { error } => EnvelopeView::Failure { error: error@ },
        }
    }
}

/// The view of an envelope that may be absent.
pub open spec fn envelope_view(envelope: Option<Envelope>) -> Option<EnvelopeView> {
    match envelope {
        Some(e) => Some(e@),
        None => None,
    }
}

impl Envelope {
    /// The envelope of an execution whose wait elapsed.
    pub fn timeout() -> (e: Envelope)
        ensures
            e@ == (EnvelopeView::Failure { error: TIMEOUT_MESSAGE@ }),
    {
        Envelope::Failure { error: String::from_str(TIMEOUT_MESSAGE) }
    }

    /// The envelope of an execution whose result channel closed without a
    /// delivery.
    pub fn channel_closed() -> (e: Envelope)
        ensures
            e@ == (EnvelopeView::Failure { error: CHANNEL_CLOSED_MESSAGE@ }),
    {
        Envelope::Failure { error: String::from_str(CHANNEL_CLOSED_MESSAGE) }
    }

    /// The envelope of an execution whose script the remote engine did not
    /// accept, for the `reason` it gave.
    pub fn injection_failed(reason: &str) -> (e: Envelope)
        ensures
            e@ == (EnvelopeView::Failure { error: INJECTION_FAILED_PREFIX@ + reason@ }),
    {
        Envelope::Failure { error: String::from_str(INJECTION_FAILED_PREFIX).concat(reason) }
    }

    /// Tells whether the envelope stands for a script that ran to its end.
    pub fn is_success(&self) -> (b: bool)
        ensures
            b == (self@ is Success),
    {
        match self {
            Envelope::Success { .. } => true,
            Envelope::Failure { .. } => false,
        }
    }
}

} // verus!
