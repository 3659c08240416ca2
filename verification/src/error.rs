//! Structured failures of a card operation.

use vstd::prelude::*;

verus! {

/// Why the card service or the reader could not be used.
#[derive(Debug, Clone, Copy, PartialEq, Eq, Structural)]
pub enum DeviceFault {
    /// The smart-card service could not be reached.
    ServiceUnavailable,
    /// No reader is attached.
    NoReader,
    /// The reader is absent or held by someone else.
    ReaderUnavailable,
    /// A command could not be exchanged with the card.
    Transport,
}

/// How a response broke the protocol.
#[derive(Debug, Clone, Copy, PartialEq, Eq, Structural)]
pub enum ProtocolFault {
    /// The response is shorter than the two status bytes.
    MissingStatusWord,
    /// The status word is not one that may answer the command sent.
    UnexpectedStatus(u8, u8),
    /// Two "more data" responses in a row brought no bytes.
    NoProgress,
    /// The file runs past what a 16-bit offset can address.
    OffsetOverflow,
}

/// How the card answered a wrong PIN.
#[derive(Debug, Clone, Copy, PartialEq, Eq, Structural)]
pub enum AuthFailure {
    /// The PIN was wrong; this many attempts remain.
    Remaining(u8),
    /// The PIN is blocked and needs an out-of-band reset.
    Locked,
}

/// Every way a card operation can end without a record. Each one is final
/// for the attempt: the engine never retries on its own.
#[derive(Debug, Clone, Copy, PartialEq, Eq, Structural)]
pub enum CardError {
    /// The PIN is not four ASCII digits; nothing was sent.
    Validation,
    /// The reader or the card service failed.
    Device(DeviceFault),
    /// The card's response cannot be accepted.
    Protocol(ProtocolFault),
    /// The applet could not be selected; carries the status word.
    Selection(u8, u8),
    /// The card rejected the PIN.
    Auth(AuthFailure),
}

} // verus!
