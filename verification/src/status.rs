//! Classification of the two status bytes that end every card response.

use vstd::prelude::*;

verus! {

/// Meaning of a status word, as a pure function of its two bytes.
#[derive(Debug, Clone, Copy, PartialEq, Eq, Structural)]
pub enum StatusOutcome {
    /// `90 00`: the command completed.
    Success,
    /// `61 xx`: more bytes are available; the payload is the count announced.
    MoreData(u8),
    /// `6C xx`: the requested length was wrong; the payload is the right one.
    WrongLength(u8),
    /// `63 xx`: the PIN was rejected; the payload is the number of tries left.
    PinRetry(u8),
    /// `69 84`: the PIN is blocked.
    PinLocked,
    /// Any other status word, carried unchanged.
    ApplicationError(u8, u8),
}

/// The classification table.
pub open spec fn classify_spec(sw1: u8, sw2: u8) -> StatusOutcome {
    if sw1 == 0x90 && sw2 == 0x00 {
        StatusOutcome::Success
    } else if sw1 == 0x61 {
        StatusOutcome::MoreData(sw2)
    } else if sw1 == 0x6C {
        StatusOutcome::WrongLength(sw2)
    } else if sw1 == 0x63 {
        StatusOutcome::PinRetry(sw2 & 0x0F)
    } else if sw1 == 0x69 && sw2 == 0x84 {
        StatusOutcome::PinLocked
    } else {
        StatusOutcome::ApplicationError(sw1, sw2)
    }
}

/// True for the status words that the table gives a meaning of their own.
pub open spec fn is_known_status(sw1: u8, sw2: u8) -> bool {
    ||| (sw1 == 0x90 && sw2 == 0x00)
    ||| sw1 == 0x61
    ||| sw1 == 0x6C
    ||| sw1 == 0x63
    ||| (sw1 == 0x69 && sw2 == 0x84)
}

/// Classifies a status word.
pub fn classify(sw1: u8, sw2: u8) -> (outcome: StatusOutcome)
    ensures
        outcome == classify_spec(sw1, sw2),
        !is_known_status(sw1, sw2) ==> outcome == StatusOutcome::ApplicationError(sw1, sw2),
        outcome matches StatusOutcome::PinRetry(n) ==> n <= 15,
{
    if sw1 == 0x90 && sw2 == 0x00 {
        StatusOutcome::Success
    } else if sw1 == 0x61 {
        StatusOutcome::MoreData(sw2)
    } else if sw1 == 0x6C {
        StatusOutcome::WrongLength(sw2)
    } else if sw1 == 0x63 {
        let remaining: u8 = sw2 & 0x0F;
        assert(sw2 & 0x0F <= 15) by (bit_vector);
        StatusOutcome::PinRetry(remaining)
    } else if sw1 == 0x69 && sw2 == 0x84 {
        StatusOutcome::PinLocked
    } else {
        StatusOutcome::ApplicationError(sw1, sw2)
    }
}

} // verus!
