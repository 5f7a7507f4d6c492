use vstd::prelude::*;

verus! {

/// A failure of the controller-monitor link itself, as opposed to a
/// domain-level rejection of an action by the monitor.
#[derive(Clone, Copy, Debug, PartialEq, Eq, Structural)]
pub enum TransportError {
    /// The request channel's receive half was dropped before the send.
    SendFailed,
    /// The wakeup signal could not be written after the request was enqueued.
    SignalFailed,
    /// The response channel's send half was dropped without answering.
    RecvFailed,
}

impl TransportError {
    /// A short description, for callers that report the failure.
    pub fn describe(&self) -> (r: &'static str)
        ensures
            (*self is SendFailed) ==> r@ == "request channel closed"@,
            (*self is SignalFailed) ==> r@ == "wakeup signal write failed"@,
            (*self is RecvFailed) ==> r@ == "response channel closed"@,
    {
        match self {
            TransportError::SendFailed => "request channel closed",
            TransportError::SignalFailed => "wakeup signal write failed",
            TransportError::RecvFailed => "response channel closed",
        }
    }
}

} // verus!
