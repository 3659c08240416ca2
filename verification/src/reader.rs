//! The binary reader: a state machine that assembles one file from chained
//! READ BINARY commands. The caller sends the command of the current state,
//! hands the response to [`FileReader::step`] and goes on with what comes
//! back, until the file is complete or the read is abandoned.

use vstd::prelude::*;
use crate::command::{append_bytes, read_binary_bytes, read_binary_command, ApduCommand, DATA_CAPACITY};
use crate::error::{CardError, ProtocolFault};
use crate::response::{outcome_of, payload_of, rejection, rejection_spec, sw1_of, sw2_of, ApduResponse};
use crate::status::StatusOutcome;

verus! {

/// Expected-length byte of a first request: the full 256 bytes.
pub const LE_FULL: u8 = 0x00;

/// Largest offset that READ BINARY can name.
pub const MAX_OFFSET: u16 = 0xFFFF;

/// State of a read in progress, as plain values.
pub struct ReaderView {
    /// Short identifier of the file being read.
    pub file_id: u8,
    /// Offset of the next byte to ask for.
    pub offset: u16,
    /// Bytes assembled so far.
    pub data: Seq<u8>,
    /// The last response announced more data and brought none.
    pub stalled: bool,
    /// The card asked for this expected length; the request that carries it
    /// is the last one of the read.
    pub corrected_le: Option<u8>,
}

/// Result of one step, as plain values.
pub enum StepView {
    /// Send the command of this state next.
    Continue(ReaderView),
    /// The file is complete.
    Done(Seq<u8>),
    /// The read is abandoned.
    Failed(CardError),
}

impl ReaderView {
    /// State before the first request.
    pub open spec fn initial(file_id: u8) -> ReaderView {
        ReaderView { file_id, offset: 0, data: Seq::empty(), stalled: false, corrected_le: None }
    }

    /// While more requests may follow, the offset counts the bytes assembled.
    pub open spec fn wf(self) -> bool {
        self.offset == self.data.len()
    }

    /// Expected-length byte of the command to send in this state.
    pub open spec fn le(self) -> u8 {
        match self.corrected_le {
            Some(le) => le,
            None => LE_FULL,
        }
    }

    /// Wire form of the command to send in this state.
    pub open spec fn command_bytes(self) -> Seq<u8> {
        read_binary_bytes(self.file_id, self.offset, self.le())
    }

    /// The transition that a response containing "more data" with this
    /// payload causes.
    pub open spec fn after_more_data(self, payload: Seq<u8>) -> StepView {
        if payload.len() == 0 {
            if self.stalled {
                StepView::Failed(CardError::Protocol(ProtocolFault::NoProgress))
            } else {
                StepView::Continue(ReaderView { stalled: true, ..self })
            }
        } else if self.offset + payload.len() > MAX_OFFSET {
            StepView::Failed(CardError::Protocol(ProtocolFault::OffsetOverflow))
        } else {
            StepView::Continue(
                ReaderView {
                    offset: (self.offset + payload.len()) as u16,
                    data: self.data + payload,
                    stalled: false,
                    ..self
                },
            )
        }
    }

    /// The transition function: state and response to next state or end.
    ///
    /// A response without a status word abandons the read. The response to a
    /// corrected-length request ends it with whatever payload it carries.
    /// Otherwise success ends the read with the payload appended, a wrong
    /// length leads to one corrected request, "more data" appends the payload
    /// and moves the offset on, and any other status abandons the read.
    pub open spec fn step(self, raw: Seq<u8>) -> StepView {
        if raw.len() < 2 {
            StepView::Failed(CardError::Protocol(ProtocolFault::MissingStatusWord))
        } else if self.corrected_le is Some {
            StepView::Done(self.data + payload_of(raw))
        } else {
            match outcome_of(raw) {
                StatusOutcome::Success => StepView::Done(self.data + payload_of(raw)),
                StatusOutcome::WrongLength(le) => StepView::Continue(
                    ReaderView { corrected_le: Some(le), ..self },
                ),
                StatusOutcome::MoreData(_) => self.after_more_data(payload_of(raw)),
                _ => StepView::Failed(rejection_spec(sw1_of(raw), sw2_of(raw))),
            }
        }
    }

    /// An upper bound on the requests still to come after this state's own.
    pub open spec fn budget(self) -> nat {
        if self.corrected_le is Some {
            0
        } else {
            (1 + 2 * (MAX_OFFSET - self.offset) + if self.stalled { 0int } else { 1int }) as nat
        }
    }
}

/// A read in progress.
#[derive(Debug)]
pub struct FileReader {
    file_id: u8,
    offset: u16,
    data: Vec<u8>,
    stalled: bool,
    corrected_le: Option<u8>,
}

/// What the caller does after a step.
#[derive(Debug)]
pub enum ReadStep {
    /// Send the command of this reader and step again with its response.
    Continue(FileReader),
    /// The file is complete: these are its bytes.
    Done(Vec<u8>),
    /// The read is abandoned with this error.
    Failed(CardError),
}

impl View for FileReader {
    type V = ReaderView;

    closed spec fn view(&self) -> ReaderView {
        ReaderView {
            file_id: self.file_id,
            offset: self.offset,
            data: self.data@,
            stalled: self.stalled,
            corrected_le: self.corrected_le,
        }
    }
}

impl View for ReadStep {
    type V = StepView;

    open spec fn view(&self) -> StepView {
        match self {
            ReadStep::Continue(reader) => StepView::Continue(reader@),
            ReadStep::Done(data) => StepView::Done(data@),
            ReadStep::Failed(error) => StepView::Failed(*error),
        }
    }
}

impl FileReader {
    /// Holds of every reader: the offset counts the bytes assembled.
    #[verifier::type_invariant]
    pub open spec fn inv(self) -> bool {
        self@.wf()
    }

    /// Starts a read of the file `file_id` at offset 0.
    pub fn new(file_id: u8) -> (reader: FileReader)
        ensures
            reader@ == ReaderView::initial(file_id),
            reader@.wf(),
    {
        FileReader { file_id, offset: 0, data: Vec::new(), stalled: false, corrected_le: None }
    }

    /// Offset of the next byte to ask for. It always equals the number of
    /// bytes assembled.
    pub fn offset(&self) -> (offset: u16)
        ensures
            offset == self@.offset,
            self@.wf(),
    {
        proof {
            use_type_invariant(self);
        }
        self.offset
    }

    /// Number of bytes assembled so far.
    pub fn assembled(&self) -> (n: usize)
        ensures
            n == self@.data.len(),
            self@.wf(),
    {
        proof {
            use_type_invariant(self);
        }
        self.data.len()
    }

    /// The command to send in this state.
    pub fn command(&self) -> (cmd: ApduCommand)
        ensures
            cmd.wf(),
            cmd.bytes() == self@.command_bytes(),
            cmd.payload is None,
            cmd.le == Some(self@.le()),
            cmd.capacity == DATA_CAPACITY,
            self@.wf(),
    {
        proof {
            use_type_invariant(self);
        }
        let le: u8 = match self.corrected_le {
            Some(le) => le,
            None => LE_FULL,
        };
        read_binary_command(self.file_id, self.offset, le)
    }

    /// Takes the response to the command of this state and decides how the
    /// read goes on.
    pub fn step(self, raw: &[u8]) -> (next: ReadStep)
        ensures
            next@ == self@.step(raw@),
            self@.wf(),
    {
        proof {
            use_type_invariant(&self);
        }
        let response = match ApduResponse::parse(raw) {
            Ok(response) => response,
            Err(e) => {
                return ReadStep::Failed(e);
            },
        };
        let payload = response.payload();
        let FileReader { file_id, offset, mut data, stalled, corrected_le } = self;
        if corrected_le.is_some() {
            append_bytes(&mut data, payload);
            return ReadStep::Done(data);
        }
        match response.outcome() {
            StatusOutcome::Success => {
                append_bytes(&mut data, payload);
                ReadStep::Done(data)
            },
            StatusOutcome::WrongLength(le) => ReadStep::Continue(
                FileReader { file_id, offset, data, stalled, corrected_le: Some(le) },
            ),
            StatusOutcome::MoreData(_) => {
                let received: usize = payload.len();
                if received == 0 {
                    if stalled {
                        ReadStep::Failed(CardError::Protocol(ProtocolFault::NoProgress))
                    } else {
                        ReadStep::Continue(
                            FileReader { file_id, offset, data, stalled: true, corrected_le },
                        )
                    }
                } else if received > (MAX_OFFSET - offset) as usize {
                    ReadStep::Failed(CardError::Protocol(ProtocolFault::OffsetOverflow))
                } else {
                    append_bytes(&mut data, payload);
                    ReadStep::Continue(
                        FileReader {
                            file_id,
                            offset: offset + received as u16,
                            data,
                            stalled: false,
                            corrected_le,
                        },
                    )
                }
            },
            _ => ReadStep::Failed(rejection(response.sw1, response.sw2)),
        }
    }
}

/// A response that announces more data and carries none.
pub open spec fn is_empty_more_data(raw: Seq<u8>) -> bool {
    &&& raw.len() == 2
    &&& outcome_of(raw) is MoreData
}

/// Two responses in a row that announce more data and bring none abandon the
/// read with a protocol error, whatever was read before them.
pub proof fn lemma_no_progress_aborts(state: ReaderView, first: Seq<u8>, second: Seq<u8>)
    requires
        state.corrected_le is None,
        is_empty_more_data(first),
        is_empty_more_data(second),
    ensures
        state.step(first) matches StepView::Failed(e) ==> e == CardError::Protocol(
            ProtocolFault::NoProgress,
        ),
        state.step(first) matches StepView::Continue(next) ==> next.step(second)
            == StepView::Failed(CardError::Protocol(ProtocolFault::NoProgress)),
        !(state.step(first) is Done),
{
    assert(payload_of(first).len() == 0);
    assert(payload_of(second).len() == 0);
}

/// A step that goes on keeps the offset equal to the number of bytes
/// assembled, and never changes the file being read.
pub proof fn lemma_step_keeps_offset(state: ReaderView, raw: Seq<u8>)
    requires
        state.wf(),
    ensures
        state.step(raw) matches StepView::Continue(next) ==> next.wf() && next.file_id
            == state.file_id && state.data.is_prefix_of(next.data),
        state.step(raw) matches StepView::Done(data) ==> state.data.is_prefix_of(data),
{
}

/// Every step that goes on uses up budget, so a read ends after a bounded
/// number of requests however the card behaves.
pub proof fn lemma_step_uses_budget(state: ReaderView, raw: Seq<u8>)
    ensures
        state.step(raw) matches StepView::Continue(next) ==> next.budget() < state.budget(),
{
}

/// After a corrected-length request the read always ends: the card is asked
/// once more and never again.
pub proof fn lemma_corrected_request_is_last(state: ReaderView, raw: Seq<u8>)
    requires
        state.corrected_le is Some,
    ensures
        !(state.step(raw) is Continue),
        raw.len() >= 2 ==> state.step(raw) == StepView::Done(state.data + payload_of(raw)),
{
}

} // verus!
