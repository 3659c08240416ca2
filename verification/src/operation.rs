//! One whole read of the basic four fields: select the applet, verify the
//! PIN, read the file, decode it. The operation is a state machine: the
//! caller sends the command of the current state over the card connection
//! and hands the response to [`CardRead::step`].

use vstd::prelude::*;
use vstd::string::*;
use crate::command::{
    append_bytes, applet_id, applet_identifier, is_four_digits, is_valid_pin, select_bytes, select_command,
    valid_pin, verify_bytes, verify_command_for, ApduCommand, CONTROL_CAPACITY, DATA_CAPACITY,
    FILE_BASIC_FOUR, INS_VERIFY,
};
use crate::error::{CardError, DeviceFault};
use crate::reader::{FileReader, ReadStep, ReaderView, StepView};
use crate::response::{select_outcome, select_result, verify_outcome, verify_result};
use crate::tlv::{decode, parse_basic_four};
use crate::{BasicFourInfo, BasicFourView};

verus! {

/// Where an operation stands.
#[derive(Debug, Clone, Copy, PartialEq, Eq, Structural)]
pub enum Phase {
    /// SELECT is the next command.
    Selecting,
    /// VERIFY is the next command.
    Verifying,
    /// READ BINARY is the next command.
    Reading,
}

/// State of an operation, as plain values.
pub struct CardReadView {
    /// Where the operation stands.
    pub phase: Phase,
    /// The PIN digits, as ASCII bytes.
    pub pin: Seq<u8>,
    /// State of the file read.
    pub reader: ReaderView,
}

/// Result of one step of an operation, as plain values.
pub enum ProgressView {
    /// Send the command of this state next.
    Continue(CardReadView),
    /// The record was read.
    Complete(BasicFourView),
    /// The operation is over without a record.
    Failed(CardError),
}

impl CardReadView {
    /// State of an operation before its first command.
    pub open spec fn initial(pin: Seq<u8>) -> CardReadView {
        CardReadView {
            phase: Phase::Selecting,
            pin,
            reader: ReaderView::initial(FILE_BASIC_FOUR),
        }
    }

    /// The PIN is valid, the reader reads the basic four file, and it has not
    /// moved before the reading phase.
    pub open spec fn wf(self) -> bool {
        &&& valid_pin(self.pin)
        &&& self.reader.file_id == FILE_BASIC_FOUR
        &&& self.reader.wf()
        &&& !(self.phase is Reading) ==> self.reader == ReaderView::initial(FILE_BASIC_FOUR)
    }

    /// Wire form of the command to send in this state.
    pub open spec fn command_bytes(self) -> Seq<u8> {
        match self.phase {
            Phase::Selecting => select_bytes(applet_id()),
            Phase::Verifying => verify_bytes(self.pin),
            Phase::Reading => self.reader.command_bytes(),
        }
    }

    /// Size of the buffer that receives the response in this state.
    pub open spec fn capacity(self) -> usize {
        match self.phase {
            Phase::Reading => DATA_CAPACITY,
            _ => CONTROL_CAPACITY,
        }
    }

    /// The transition function of the operation.
    pub open spec fn step(self, raw: Seq<u8>) -> ProgressView {
        match self.phase {
            Phase::Selecting => match select_result(raw) {
                Ok(_) => ProgressView::Continue(CardReadView { phase: Phase::Verifying, ..self }),
                Err(e) => ProgressView::Failed(e),
            },
            Phase::Verifying => match verify_result(raw) {
                Ok(_) => ProgressView::Continue(CardReadView { phase: Phase::Reading, ..self }),
                Err(e) => ProgressView::Failed(e),
            },
            Phase::Reading => match self.reader.step(raw) {
                StepView::Continue(reader) => ProgressView::Continue(
                    CardReadView { reader, ..self },
                ),
                StepView::Done(data) => ProgressView::Complete(decode(data)),
                StepView::Failed(e) => ProgressView::Failed(e),
            },
        }
    }

    /// An upper bound on the commands still to come after this state's own.
    pub open spec fn budget(self) -> nat {
        match self.phase {
            Phase::Selecting => self.reader.budget() + 2,
            Phase::Verifying => self.reader.budget() + 1,
            Phase::Reading => self.reader.budget(),
        }
    }
}

/// Picks the reader to use: the first one listed. Without any reader there
/// is nothing to connect to.
pub fn choose_reader(readers: &Vec<String>) -> (result: Result<&String, CardError>)
    ensures
        result is Ok <==> readers@.len() > 0,
        result matches Ok(reader) ==> *reader == readers@[0],
        result matches Err(e) ==> e == CardError::Device(DeviceFault::NoReader),
{
    if readers.len() == 0 {
        Err(CardError::Device(DeviceFault::NoReader))
    } else {
        Ok(&readers[0])
    }
}

/// An operation in progress. It owns the PIN for as long as it runs.
pub struct CardRead {
    phase: Phase,
    pin: Vec<u8>,
    reader: FileReader,
}

/// What the caller does after a step of an operation.
pub enum ReadProgress {
    /// Send the command of this operation and step again with its response.
    Continue(CardRead),
    /// The operation is complete: this is the record.
    Complete(BasicFourInfo),
    /// The operation is over with this error.
    Failed(CardError),
}

impl View for CardRead {
    type V = CardReadView;

    closed spec fn view(&self) -> CardReadView {
        CardReadView { phase: self.phase, pin: self.pin@, reader: self.reader@ }
    }
}

impl View for ReadProgress {
    type V = ProgressView;

    open spec fn view(&self) -> ProgressView {
        match self {
            ReadProgress::Continue(operation) => ProgressView::Continue(operation@),
            ReadProgress::Complete(info) => ProgressView::Complete(info@),
            ReadProgress::Failed(error) => ProgressView::Failed(*error),
        }
    }
}

impl CardRead {
    #[verifier::type_invariant]
    spec fn inv(self) -> bool {
        &&& valid_pin(self.pin@)
        &&& self.reader@.file_id == FILE_BASIC_FOUR
        &&& !(self.phase is Reading) ==> self.reader@ == ReaderView::initial(FILE_BASIC_FOUR)
    }

    /// Starts an operation. The PIN is checked first: unless it is four
    /// ASCII digits the operation does not start and no command exists.
    pub fn begin(pin: &str) -> (result: Result<CardRead, CardError>)
        ensures
            is_four_digits(pin@) <==> result is Ok,
            valid_pin(pin.spec_bytes()) <==> result is Ok,
            result matches Err(e) ==> e == CardError::Validation,
            result matches Ok(operation) ==> operation@ == CardReadView::initial(pin.spec_bytes())
                && operation@.wf(),
    {
        if !is_valid_pin(pin) {
            return Err(CardError::Validation);
        }
        let mut digits: Vec<u8> = Vec::new();
        append_bytes(&mut digits, pin.as_bytes());
        assert(digits@ == pin.spec_bytes());
        Ok(CardRead { phase: Phase::Selecting, pin: digits, reader: FileReader::new(FILE_BASIC_FOUR) })
    }

    /// Where the operation stands.
    pub fn phase(&self) -> (phase: Phase)
        ensures
            phase == self@.phase,
            self@.wf(),
    {
        proof {
            use_type_invariant(self);
            use_type_invariant(&self.reader);
        }
        self.phase
    }

    /// The command to send in this state.
    pub fn command(&self) -> (cmd: ApduCommand)
        ensures
            cmd.wf(),
            cmd.bytes() == self@.command_bytes(),
            cmd.capacity == self@.capacity(),
            self@.wf(),
    {
        proof {
            use_type_invariant(self);
            use_type_invariant(&self.reader);
        }
        match self.phase {
            Phase::Selecting => {
                let aid = applet_identifier();
                select_command(aid.as_slice())
            },
            Phase::Verifying => verify_command_for(self.pin.as_slice()),
            Phase::Reading => self.reader.command(),
        }
    }

    /// Takes the response to the command of this state and decides how the
    /// operation goes on.
    pub fn step(self, raw: &[u8]) -> (next: ReadProgress)
        ensures
            next@ == self@.step(raw@),
            self@.wf(),
    {
        proof {
            use_type_invariant(&self);
            use_type_invariant(&self.reader);
            lemma_step_moves_forward(self@, raw@);
        }
        match self.phase {
            Phase::Selecting => match select_outcome(raw) {
                Ok(_) => ReadProgress::Continue(
                    CardRead { phase: Phase::Verifying, pin: self.pin, reader: self.reader },
                ),
                Err(e) => ReadProgress::Failed(e),
            },
            Phase::Verifying => match verify_outcome(raw) {
                Ok(_) => ReadProgress::Continue(
                    CardRead { phase: Phase::Reading, pin: self.pin, reader: self.reader },
                ),
                Err(e) => ReadProgress::Failed(e),
            },
            Phase::Reading => match self.reader.step(raw) {
                ReadStep::Continue(reader) => ReadProgress::Continue(
                    CardRead { phase: Phase::Reading, pin: self.pin, reader },
                ),
                ReadStep::Done(data) => ReadProgress::Complete(parse_basic_four(data.as_slice())),
                ReadStep::Failed(e) => ReadProgress::Failed(e),
            },
        }
    }
}

/// A step that goes on keeps the state well formed and never goes back to an
/// earlier phase: selecting leads to verifying, verifying to reading, and
/// reading stays reading.
pub proof fn lemma_step_moves_forward(state: CardReadView, raw: Seq<u8>)
    requires
        state.wf(),
    ensures
        state.step(raw) matches ProgressView::Continue(next) ==> {
            &&& next.wf()
            &&& next.pin == state.pin
            &&& state.phase is Selecting ==> next.phase is Verifying
            &&& state.phase is Verifying ==> next.phase is Reading
            &&& state.phase is Reading ==> next.phase is Reading
        },
{
    if state.phase is Reading {
        crate::reader::lemma_step_keeps_offset(state.reader, raw);
    }
}

/// VERIFY is the command of the verifying phase and of no other. As a step
/// never leads into that phase from itself or from the reading phase, a PIN
/// is presented to the card once per operation, whatever the card answers.
pub proof fn lemma_verify_sent_once(state: CardReadView, raw: Seq<u8>)
    requires
        state.wf(),
    ensures
        state.command_bytes()[1] == INS_VERIFY <==> state.phase is Verifying,
        !(state.phase is Selecting) ==> (state.step(raw) matches ProgressView::Continue(next)
            ==> next.command_bytes()[1] != INS_VERIFY),
{
    lemma_step_moves_forward(state, raw);
    match state.step(raw) {
        ProgressView::Continue(next) => {
            assert(next.wf());
        },
        _ => {},
    }
}

/// The operation ends on the first response that is not a success of the
/// phase it answers: no command follows a failed SELECT or a rejected PIN.
pub proof fn lemma_failure_is_final(state: CardReadView, raw: Seq<u8>)
    ensures
        state.phase is Selecting && select_result(raw) is Err ==> state.step(raw)
            == ProgressView::Failed(select_result(raw)->Err_0),
        state.phase is Verifying && verify_result(raw) is Err ==> state.step(raw)
            == ProgressView::Failed(verify_result(raw)->Err_0),
{
}

/// Every step that goes on uses up budget, so an operation ends after a
/// bounded number of commands however the card behaves.
pub proof fn lemma_operation_uses_budget(state: CardReadView, raw: Seq<u8>)
    ensures
        state.step(raw) matches ProgressView::Continue(next) ==> next.budget() < state.budget(),
{
    crate::reader::lemma_step_uses_budget(state.reader, raw);
}

} // verus!
