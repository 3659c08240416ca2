//! Command APDUs: their fields, their wire form and the three commands the
//! engine sends.

use vstd::prelude::*;
use vstd::string::*;
use vstd::utf8::{encode_scalar, encode_utf8, has_width_1_encoding, is_ascii_chars, is_ascii_chars_encode_utf8};
use crate::error::CardError;

verus! {

/// Class byte of every command the engine sends.
pub const CLA_ISO: u8 = 0x00;

/// Instruction byte of SELECT.
pub const INS_SELECT: u8 = 0xA4;

/// Instruction byte of VERIFY.
pub const INS_VERIFY: u8 = 0x20;

/// Instruction byte of READ BINARY.
pub const INS_READ_BINARY: u8 = 0xB0;

/// SELECT parameter: select by application name.
pub const SELECT_BY_NAME: u8 = 0x04;

/// SELECT parameter: first occurrence, no response data.
pub const SELECT_NO_RESPONSE: u8 = 0x0C;

/// Marks a parameter byte as carrying a short file identifier.
pub const SHORT_FILE_FLAG: u8 = 0x80;

/// Receive buffer size for commands that return a status word only.
pub const CONTROL_CAPACITY: usize = 258;

/// Receive buffer size for commands that return file data.
pub const DATA_CAPACITY: usize = 512;

/// Most bytes one READ BINARY may ask for.
pub const MAX_READ_LENGTH: usize = 256;

/// Short file identifier of the PIN.
pub const FILE_PIN: u8 = 0x01;

/// Short file identifier of the basic four fields.
pub const FILE_BASIC_FOUR: u8 = 0x02;

/// One command, built per call and not changed afterwards.
#[derive(Debug, PartialEq, Eq)]
pub struct ApduCommand {
    /// Class byte.
    pub cla: u8,
    /// Instruction byte.
    pub ins: u8,
    /// First parameter.
    pub p1: u8,
    /// Second parameter.
    pub p2: u8,
    /// Command data, sent behind a one-byte length.
    pub payload: Option<Vec<u8>>,
    /// Expected length byte; `0` asks for 256 bytes.
    pub le: Option<u8>,
    /// Size of the buffer that receives the response.
    pub capacity: usize,
}

/// Wire form of a command with the given fields.
pub open spec fn wire_bytes(
    cla: u8,
    ins: u8,
    p1: u8,
    p2: u8,
    payload: Option<Seq<u8>>,
    le: Option<u8>,
) -> Seq<u8> {
    let header = seq![cla, ins, p1, p2];
    let body = match payload {
        Some(data) => seq![data.len() as u8] + data,
        None => Seq::<u8>::empty(),
    };
    let tail = match le {
        Some(n) => seq![n],
        None => Seq::<u8>::empty(),
    };
    header + body + tail
}

impl ApduCommand {
    /// The payload as a sequence, if there is one.
    pub open spec fn payload_view(&self) -> Option<Seq<u8>> {
        match self.payload {
            Some(data) => Some(data@),
            None => None,
        }
    }

    /// A payload must fit behind its one-byte length.
    pub open spec fn wf(&self) -> bool {
        match self.payload {
            Some(data) => data@.len() <= 255,
            None => true,
        }
    }

    /// The bytes that go to the card.
    pub open spec fn bytes(&self) -> Seq<u8> {
        wire_bytes(self.cla, self.ins, self.p1, self.p2, self.payload_view(), self.le)
    }

    /// Serialises the command: header, then length and payload if any, then
    /// the expected length if any.
    pub fn to_bytes(&self) -> (out: Vec<u8>)
        requires
            self.wf(),
        ensures
            out@ == self.bytes(),
    {
        let mut out: Vec<u8> = Vec::new();
        out.push(self.cla);
        out.push(self.ins);
        out.push(self.p1);
        out.push(self.p2);
        assert(out@ == seq![self.cla, self.ins, self.p1, self.p2]);
        match &self.payload {
            Some(data) => {
                out.push(data.len() as u8);
                append_bytes(&mut out, data.as_slice());
            },
            None => {},
        }
        match self.le {
            Some(n) => {
                out.push(n);
            },
            None => {},
        }
        out
    }
}

/// The applet that holds the basic four fields.
pub open spec fn applet_id() -> Seq<u8> {
    seq![0xD3u8, 0x92u8, 0x10u8, 0x00u8, 0x00u8, 0x01u8, 0x00u8, 0x01u8, 0x04u8, 0x08u8]
}

/// Returns the identifier of the applet that holds the basic four fields.
pub fn applet_identifier() -> (aid: Vec<u8>)
    ensures
        aid@ == applet_id(),
{
    let mut aid: Vec<u8> = Vec::new();
    aid.push(0xD3);
    aid.push(0x92);
    aid.push(0x10);
    aid.push(0x00);
    aid.push(0x00);
    aid.push(0x01);
    aid.push(0x00);
    aid.push(0x01);
    aid.push(0x04);
    aid.push(0x08);
    assert(aid@ =~= applet_id());
    aid
}

/// Wire form of SELECT for the application named `aid`.
pub open spec fn select_bytes(aid: Seq<u8>) -> Seq<u8> {
    seq![CLA_ISO, INS_SELECT, SELECT_BY_NAME, SELECT_NO_RESPONSE, aid.len() as u8] + aid
}

/// Builds SELECT by name: `00 A4 04 0C <len> <aid>`.
pub fn select_command(aid: &[u8]) -> (cmd: ApduCommand)
    requires
        aid@.len() <= 255,
    ensures
        cmd.wf(),
        cmd.cla == CLA_ISO,
        cmd.ins == INS_SELECT,
        cmd.p1 == SELECT_BY_NAME,
        cmd.p2 == SELECT_NO_RESPONSE,
        cmd.payload_view() == Some(aid@),
        cmd.le is None,
        cmd.capacity == CONTROL_CAPACITY,
        cmd.bytes() == select_bytes(aid@),
{
    let mut payload: Vec<u8> = Vec::new();
    append_bytes(&mut payload, aid);
    assert(payload@ == aid@);
    let cmd = ApduCommand {
        cla: CLA_ISO,
        ins: INS_SELECT,
        p1: SELECT_BY_NAME,
        p2: SELECT_NO_RESPONSE,
        payload: Some(payload),
        le: None,
        capacity: CONTROL_CAPACITY,
    };
    assert(cmd.bytes() =~= select_bytes(aid@));
    cmd
}

/// A PIN is exactly four bytes, each an ASCII digit.
pub open spec fn valid_pin(pin: Seq<u8>) -> bool {
    &&& pin.len() == 4
    &&& forall|i: int| 0 <= i < pin.len() ==> 0x30 <= #[trigger] pin[i] <= 0x39
}

/// Wire form of VERIFY for a PIN given as its ASCII bytes.
pub open spec fn verify_bytes(pin: Seq<u8>) -> Seq<u8> {
    seq![CLA_ISO, INS_VERIFY, 0x00u8, 0x81u8, pin.len() as u8] + pin
}

/// A text of exactly four characters, each an ASCII digit.
pub open spec fn is_four_digits(text: Seq<char>) -> bool {
    &&& text.len() == 4
    &&& forall|i: int| 0 <= i < text.len() ==> '0' <= #[trigger] text[i] <= '9'
}

/// A character that is not ASCII is encoded with a first byte of 0x80 or more.
proof fn lemma_wide_encoding_starts_high(scalar: u32)
    requires
        !has_width_1_encoding(scalar),
    ensures
        encode_scalar(scalar).len() >= 1,
        encode_scalar(scalar)[0] >= 0x80,
{
    assert((0xC0u8 | ((scalar >> 6) & 0x1F) as u8) >= 0x80) by (bit_vector);
    assert((0xE0u8 | ((scalar >> 12) & 0x0F) as u8) >= 0x80) by (bit_vector);
    assert((0xF0u8 | ((scalar >> 18) & 0x7) as u8) >= 0x80) by (bit_vector);
}

/// A character whose code is at most 0x7F is an ASCII character.
proof fn lemma_narrow_char_is_ascii(c: char)
    ensures
        has_width_1_encoding(c as u32) ==> '\0' <= c <= '\u{7f}',
{
}

/// A text whose UTF-8 bytes are all below 0x80 holds ASCII characters only.
proof fn lemma_low_bytes_are_ascii_text(text: Seq<char>)
    requires
        forall|i: int| 0 <= i < encode_utf8(text).len() ==> #[trigger] encode_utf8(text)[i] < 0x80,
    ensures
        is_ascii_chars(text),
    decreases text.len(),
{
    if text.len() > 0 {
        let first = text[0] as u32;
        let head = encode_scalar(first);
        let rest = encode_utf8(text.drop_first());
        assert(encode_utf8(text) == head + rest);
        if !has_width_1_encoding(first) {
            lemma_wide_encoding_starts_high(first);
            assert(encode_utf8(text)[0] == head[0]);
        }
        assert(head.len() == 1);
        assert forall|i: int| 0 <= i < rest.len() implies #[trigger] rest[i] < 0x80 by {
            assert(encode_utf8(text)[i + 1] == rest[i]);
        }
        lemma_low_bytes_are_ascii_text(text.drop_first());
        assert forall|i: int| 0 <= i < text.len() implies '\0' <= #[trigger] text[i]
            <= '\u{7f}' by {
            if i > 0 {
                let tail = text.drop_first();
                assert(text[i] == tail[i - 1]);
                assert('\0' <= tail[i - 1] <= '\u{7f}');
            } else {
                lemma_narrow_char_is_ascii(text[0]);
            }
        }
    }
}

/// The PIN rule on bytes and the PIN rule on characters are one rule: a text
/// is encoded as four ASCII digit bytes exactly if it is four ASCII digits.
pub proof fn lemma_valid_pin_is_four_digits(text: Seq<char>)
    ensures
        valid_pin(encode_utf8(text)) <==> is_four_digits(text),
{
    let bytes = encode_utf8(text);
    if is_four_digits(text) {
        assert(is_ascii_chars(text));
        is_ascii_chars_encode_utf8(text);
        assert forall|i: int| 0 <= i < bytes.len() implies 0x30 <= #[trigger] bytes[i]
            <= 0x39 by {
            assert(text[i] as u8 == bytes[i]);
        }
    }
    if valid_pin(bytes) {
        lemma_low_bytes_are_ascii_text(text);
        is_ascii_chars_encode_utf8(text);
        assert forall|i: int| 0 <= i < text.len() implies '0' <= #[trigger] text[i] <= '9' by {
            assert(text[i] as u8 == bytes[i]);
        }
    }
}

/// Tells whether `pin` is four ASCII digits.
pub fn is_valid_pin(pin: &str) -> (ok: bool)
    ensures
        ok == valid_pin(pin.spec_bytes()),
        ok == is_four_digits(pin@),
{
    proof {
        lemma_valid_pin_is_four_digits(pin@);
    }
    let bytes = pin.as_bytes();
    if bytes.len() != 4 {
        return false;
    }
    let mut i: usize = 0;
    while i < 4
        invariant
            i <= 4,
            bytes@.len() == 4,
            bytes@ == pin.spec_bytes(),
            valid_pin(pin.spec_bytes()) <==> is_four_digits(pin@),
            forall|j: int| 0 <= j < i ==> 0x30 <= #[trigger] bytes@[j] <= 0x39,
        decreases 4 - i,
    {
        let b: u8 = bytes[i];
        if b < 0x30 || b > 0x39 {
            assert(!(0x30 <= bytes@[i as int] <= 0x39));
            return false;
        }
        i += 1;
    }
    true
}

/// Builds VERIFY from PIN digits that were validated before.
pub fn verify_command_for(digits: &[u8]) -> (cmd: ApduCommand)
    requires
        valid_pin(digits@),
    ensures
        cmd.wf(),
        cmd.cla == CLA_ISO,
        cmd.ins == INS_VERIFY,
        cmd.p1 == 0x00,
        cmd.p2 == 0x81,
        cmd.payload_view() == Some(digits@),
        cmd.le is None,
        cmd.capacity == CONTROL_CAPACITY,
        cmd.bytes() == verify_bytes(digits@),
{
    let mut payload: Vec<u8> = Vec::new();
    append_bytes(&mut payload, digits);
    assert(payload@ == digits@);
    let p2: u8 = SHORT_FILE_FLAG | FILE_PIN;
    assert(0x80u8 | 0x01u8 == 0x81u8) by (bit_vector);
    let cmd = ApduCommand {
        cla: CLA_ISO,
        ins: INS_VERIFY,
        p1: 0x00,
        p2,
        payload: Some(payload),
        le: None,
        capacity: CONTROL_CAPACITY,
    };
    assert(cmd.bytes() =~= verify_bytes(digits@));
    cmd
}

/// Builds VERIFY for the PIN file: `00 20 00 81 04 <digits>`. A PIN that is
/// not four ASCII digits is refused and no command is built.
pub fn verify_command(pin: &str) -> (result: Result<ApduCommand, CardError>)
    ensures
        is_four_digits(pin@) <==> result is Ok,
        valid_pin(pin.spec_bytes()) <==> result is Ok,
        result matches Err(e) ==> e == CardError::Validation,
        result matches Ok(cmd) ==> {
            &&& cmd.wf()
            &&& cmd.cla == CLA_ISO
            &&& cmd.ins == INS_VERIFY
            &&& cmd.p1 == 0x00
            &&& cmd.p2 == 0x81
            &&& cmd.payload_view() == Some(pin.spec_bytes())
            &&& cmd.le is None
            &&& cmd.capacity == CONTROL_CAPACITY
            &&& cmd.bytes() == verify_bytes(pin.spec_bytes())
        },
{
    if !is_valid_pin(pin) {
        return Err(CardError::Validation);
    }
    Ok(verify_command_for(pin.as_bytes()))
}

/// First parameter of READ BINARY: the short file identifier while the offset fits one
/// byte, the high byte of the offset after that.
pub open spec fn read_p1(file_id: u8, offset: u16) -> u8 {
    if offset <= 255 {
        SHORT_FILE_FLAG | file_id
    } else {
        (offset / 256) as u8
    }
}

/// Second parameter of READ BINARY: the low byte of the offset.
pub open spec fn read_p2(offset: u16) -> u8 {
    (offset % 256) as u8
}

/// Number of bytes that an expected-length byte asks for.
pub open spec fn expected_length(le: u8) -> int {
    if le == 0 {
        256
    } else {
        le as int
    }
}

/// Wire form of READ BINARY.
pub open spec fn read_binary_bytes(file_id: u8, offset: u16, le: u8) -> Seq<u8> {
    seq![CLA_ISO, INS_READ_BINARY, read_p1(file_id, offset), read_p2(offset), le]
}

/// Builds READ BINARY: `00 B0 <p1> <p2> <le>`. Up to offset 255 the command
/// names the file in `p1` and carries the offset in `p2`; past that `p1` and `p2`
/// together carry the 16-bit offset.
pub fn read_binary_command(file_id: u8, offset: u16, le: u8) -> (cmd: ApduCommand)
    ensures
        cmd.wf(),
        cmd.cla == CLA_ISO,
        cmd.ins == INS_READ_BINARY,
        cmd.p1 == read_p1(file_id, offset),
        cmd.p2 == read_p2(offset),
        cmd.payload is None,
        cmd.le == Some(le),
        cmd.capacity == DATA_CAPACITY,
        cmd.bytes() == read_binary_bytes(file_id, offset, le),
        offset <= 255 ==> cmd.p1 == SHORT_FILE_FLAG | file_id && cmd.p2 == offset,
        offset > 255 ==> cmd.p1 as int * 256 + cmd.p2 as int == offset,
        expected_length(le) <= MAX_READ_LENGTH,
{
    let p1: u8 = if offset <= 255 {
        SHORT_FILE_FLAG | file_id
    } else {
        (offset / 256) as u8
    };
    let p2: u8 = (offset % 256) as u8;
    let cmd = ApduCommand {
        cla: CLA_ISO,
        ins: INS_READ_BINARY,
        p1,
        p2,
        payload: None,
        le: Some(le),
        capacity: DATA_CAPACITY,
    };
    assert(cmd.bytes() =~= read_binary_bytes(file_id, offset, le));
    cmd
}

/// Appends `src` to `dst`.
pub fn append_bytes(dst: &mut Vec<u8>, src: &[u8])
    ensures
        final(dst)@ == old(dst)@ + src@,
{
    let mut i: usize = 0;
    while i < src.len()
        invariant
            i <= src@.len(),
            dst@ == old(dst)@ + src@.subrange(0, i as int),
        decreases src@.len() - i,
    {
        dst.push(src[i]);
        i += 1;
    }
    assert(src@.subrange(0, src@.len() as int) == src@);
}

} // verus!
