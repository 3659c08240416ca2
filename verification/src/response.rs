//! Response APDUs: splitting off the status word and judging what the card
//! said to SELECT and to VERIFY.

use vstd::prelude::*;
use crate::error::{AuthFailure, CardError, ProtocolFault};
use crate::status::{classify, classify_spec, StatusOutcome};

verus! {

/// First status byte of a response of at least two bytes.
pub open spec fn sw1_of(raw: Seq<u8>) -> u8 {
    raw[raw.len() - 2]
}

/// Second status byte of a response of at least two bytes.
pub open spec fn sw2_of(raw: Seq<u8>) -> u8 {
    raw[raw.len() - 1]
}

/// What a response of at least two bytes carries before its status word.
pub open spec fn payload_of(raw: Seq<u8>) -> Seq<u8> {
    raw.subrange(0, raw.len() - 2)
}

/// Classified status of a response of at least two bytes.
pub open spec fn outcome_of(raw: Seq<u8>) -> StatusOutcome {
    classify_spec(sw1_of(raw), sw2_of(raw))
}

/// A response as the card sent it, with its status word read off its end.
#[derive(Debug, Clone, Copy)]
pub struct ApduResponse<'a> {
    /// All bytes received, status word included.
    pub raw: &'a [u8],
    /// First status byte.
    pub sw1: u8,
    /// Second status byte.
    pub sw2: u8,
}

impl<'a> ApduResponse<'a> {
    /// The status bytes are the last two bytes received.
    pub open spec fn wf(&self) -> bool {
        &&& self.raw@.len() >= 2
        &&& self.sw1 == sw1_of(self.raw@)
        &&& self.sw2 == sw2_of(self.raw@)
    }

    /// Reads the status word off the end of `raw`. A response too short to
    /// hold one is a protocol error.
    pub fn parse(raw: &'a [u8]) -> (result: Result<ApduResponse<'a>, CardError>)
        ensures
            raw@.len() >= 2 <==> result is Ok,
            result matches Err(e) ==> e == CardError::Protocol(ProtocolFault::MissingStatusWord),
            result matches Ok(response) ==> response.wf() && response.raw@ == raw@,
    {
        let len: usize = raw.len();
        if len < 2 {
            return Err(CardError::Protocol(ProtocolFault::MissingStatusWord));
        }
        Ok(ApduResponse { raw, sw1: raw[len - 2], sw2: raw[len - 1] })
    }

    /// The bytes in front of the status word.
    pub fn payload(&self) -> (data: &'a [u8])
        requires
            self.wf(),
        ensures
            data@ == payload_of(self.raw@),
    {
        let end: usize = self.raw.len() - 2;
        &self.raw[0..end]
    }

    /// The classified status word.
    pub fn outcome(&self) -> (outcome: StatusOutcome)
        requires
            self.wf(),
        ensures
            outcome == outcome_of(self.raw@),
    {
        classify(self.sw1, self.sw2)
    }
}

/// The error that a status other than success stands for: a rejected or
/// blocked PIN is an authentication failure, anything else an unexpected
/// status that carries the raw status word.
pub open spec fn rejection_spec(sw1: u8, sw2: u8) -> CardError {
    match classify_spec(sw1, sw2) {
        StatusOutcome::PinRetry(n) => CardError::Auth(AuthFailure::Remaining(n)),
        StatusOutcome::PinLocked => CardError::Auth(AuthFailure::Locked),
        _ => CardError::Protocol(ProtocolFault::UnexpectedStatus(sw1, sw2)),
    }
}

/// Maps a status word that does not let the operation go on to its error.
pub fn rejection(sw1: u8, sw2: u8) -> (error: CardError)
    ensures
        error == rejection_spec(sw1, sw2),
{
    match classify(sw1, sw2) {
        StatusOutcome::PinRetry(n) => CardError::Auth(AuthFailure::Remaining(n)),
        StatusOutcome::PinLocked => CardError::Auth(AuthFailure::Locked),
        _ => CardError::Protocol(ProtocolFault::UnexpectedStatus(sw1, sw2)),
    }
}

/// What the response to SELECT means.
pub open spec fn select_result(raw: Seq<u8>) -> Result<(), CardError> {
    if raw.len() < 2 {
        Err(CardError::Protocol(ProtocolFault::MissingStatusWord))
    } else if outcome_of(raw) == StatusOutcome::Success {
        Ok(())
    } else {
        Err(CardError::Selection(sw1_of(raw), sw2_of(raw)))
    }
}

/// Judges the response to SELECT: the applet is selected on `90 00` and on
/// nothing else.
pub fn select_outcome(raw: &[u8]) -> (result: Result<(), CardError>)
    ensures
        result == select_result(raw@),
        result is Ok <==> raw@.len() >= 2 && sw1_of(raw@) == 0x90 && sw2_of(raw@) == 0x00,
{
    let response = match ApduResponse::parse(raw) {
        Ok(response) => response,
        Err(e) => {
            return Err(e);
        },
    };
    match response.outcome() {
        StatusOutcome::Success => Ok(()),
        _ => Err(CardError::Selection(response.sw1, response.sw2)),
    }
}

/// What the response to VERIFY means.
pub open spec fn verify_result(raw: Seq<u8>) -> Result<(), CardError> {
    if raw.len() < 2 {
        Err(CardError::Protocol(ProtocolFault::MissingStatusWord))
    } else if outcome_of(raw) == StatusOutcome::Success {
        Ok(())
    } else {
        Err(rejection_spec(sw1_of(raw), sw2_of(raw)))
    }
}

/// Judges the response to VERIFY. `90 00` accepts the PIN; `63 xx` reports
/// the attempts left, `69 84` a blocked PIN; every other status word is a
/// protocol error that carries it.
pub fn verify_outcome(raw: &[u8]) -> (result: Result<(), CardError>)
    ensures
        result == verify_result(raw@),
        result is Ok <==> raw@.len() >= 2 && sw1_of(raw@) == 0x90 && sw2_of(raw@) == 0x00,
{
    let response = match ApduResponse::parse(raw) {
        Ok(response) => response,
        Err(e) => {
            return Err(e);
        },
    };
    match response.outcome() {
        StatusOutcome::Success => Ok(()),
        _ => Err(rejection(response.sw1, response.sw2)),
    }
}

} // verus!
