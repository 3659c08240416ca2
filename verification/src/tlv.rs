//! The tag-length-value decoder for the basic four fields.
//!
//! An entry is a two-byte big-endian tag, a one-byte length and that many
//! value bytes. Entries follow each other from the start of the buffer. The
//! walk ends at the first position where no complete entry fits, so a
//! truncated tail is dropped without an error.

use vstd::prelude::*;
use vstd::utf8::{decode_utf8, valid_utf8};
use crate::{BasicFourInfo, BasicFourView, TAG_ADDRESS, TAG_BIRTH, TAG_GENDER, TAG_NAME};

verus! {

/// One decoded entry.
pub struct TlvEntry {
    /// The tag.
    pub tag: u16,
    /// The value bytes.
    pub value: Seq<u8>,
}

/// A complete entry starts at `pos`: tag, length and the whole value lie
/// inside the buffer.
pub open spec fn entry_fits(data: Seq<u8>, pos: int) -> bool {
    &&& 0 <= pos
    &&& pos + 3 <= data.len()
    &&& pos + 3 + data[pos + 2] <= data.len()
}

/// Tag of the entry at `pos`.
pub open spec fn tag_at(data: Seq<u8>, pos: int) -> u16 {
    (data[pos] * 256 + data[pos + 1]) as u16
}

/// Position behind the entry at `pos`.
pub open spec fn entry_end(data: Seq<u8>, pos: int) -> int {
    pos + 3 + data[pos + 2]
}

/// The entry at `pos`.
pub open spec fn entry_at(data: Seq<u8>, pos: int) -> TlvEntry {
    TlvEntry { tag: tag_at(data, pos), value: data.subrange(pos + 3, entry_end(data, pos)) }
}

/// The complete entries found from `pos` on, in order.
pub open spec fn entries_from(data: Seq<u8>, pos: int) -> Seq<TlvEntry>
    decreases data.len() - pos,
{
    if entry_fits(data, pos) {
        seq![entry_at(data, pos)] + entries_from(data, entry_end(data, pos))
    } else {
        Seq::empty()
    }
}

/// The complete entries of a buffer.
pub open spec fn entries(data: Seq<u8>) -> Seq<TlvEntry> {
    entries_from(data, 0)
}

/// Text that a lossy UTF-8 conversion makes of `bytes`.
pub uninterp spec fn utf8_lossy(bytes: Seq<u8>) -> Seq<char>;

/// Text of the last entry that carries `tag`; empty if there is none.
pub open spec fn last_text(entries: Seq<TlvEntry>, tag: u16) -> Seq<char>
    decreases entries.len(),
{
    if entries.len() == 0 {
        Seq::empty()
    } else if entries.last().tag == tag {
        utf8_lossy(entries.last().value)
    } else {
        last_text(entries.drop_last(), tag)
    }
}

/// The record that a sequence of entries describes: each field holds the
/// text of the last entry with its tag, and entries with other tags count
/// for nothing.
pub open spec fn record_of(entries: Seq<TlvEntry>) -> BasicFourView {
    BasicFourView {
        name: last_text(entries, TAG_NAME),
        address: last_text(entries, TAG_ADDRESS),
        birth: last_text(entries, TAG_BIRTH),
        gender: last_text(entries, TAG_GENDER),
    }
}

/// The record that a buffer decodes to.
pub open spec fn decode(data: Seq<u8>) -> BasicFourView {
    record_of(entries(data))
}

/// Calls `String::from_utf8_lossy` and takes ownership of its result.
///
/// Trusted: the text returned depends on the bytes alone, and for bytes that
/// are valid UTF-8 it is the text they encode. For other input the standard
/// library replaces each invalid sequence by U+FFFD; that text is only named
/// here, not described.
#[verifier::external_body]
fn lossy_text(bytes: &[u8]) -> (text: String)
    ensures
        text@ == utf8_lossy(bytes@),
        valid_utf8(bytes@) ==> text@ == decode_utf8(bytes@),
{
    String::from_utf8_lossy(bytes).into_owned()
}

/// Adding an entry sets the field its tag names and keeps the others.
pub proof fn lemma_record_push(seen: Seq<TlvEntry>, entry: TlvEntry)
    ensures
        record_of(seen.push(entry)) == record_of(seen).with_field(
            entry.tag,
            utf8_lossy(entry.value),
        ),
{
    assert(seen.push(entry).drop_last() =~= seen);
    assert(seen.push(entry).last() == entry);
}

/// Decodes the basic four fields. Decoding never fails: unknown tags are
/// skipped, a later entry replaces an earlier one with the same tag, invalid
/// UTF-8 is replaced rather than refused, and the walk stops without an
/// error where the buffer ends inside an entry.
pub fn parse_basic_four(data: &[u8]) -> (info: BasicFourInfo)
    ensures
        info@ == decode(data@),
        data@.len() < 3 ==> info@ == BasicFourView::empty(),
{
    let mut info = BasicFourInfo::new();
    let len: usize = data.len();
    let mut i: usize = 0;
    let ghost mut seen: Seq<TlvEntry> = Seq::empty();
    while i < len
        invariant
            len == data@.len(),
            i <= len,
            entries(data@) == seen + entries_from(data@, i as int),
            info@ == record_of(seen),
        ensures
            !entry_fits(data@, i as int),
        decreases len - i,
    {
        if len - i < 3 {
            break;
        }
        let tag: u16 = data[i] as u16 * 256 + data[i + 1] as u16;
        let length: usize = data[i + 2] as usize;
        if length > len - i - 3 {
            break;
        }
        let start: usize = i + 3;
        let end: usize = start + length;
        let text = lossy_text(&data[start..end]);
        proof {
            let entry = entry_at(data@, i as int);
            lemma_record_push(seen, entry);
            assert(seen + entries_from(data@, i as int) =~= seen.push(entry) + entries_from(
                data@,
                end as int,
            ));
            seen = seen.push(entry);
        }
        info.assign(tag, text);
        i = end;
    }
    assert(seen + entries_from(data@, i as int) =~= seen);
    info
}

/// Position at which the walk that starts at `pos` stops.
pub open spec fn walk_end(data: Seq<u8>, pos: int) -> int
    decreases data.len() - pos,
{
    if entry_fits(data, pos) {
        walk_end(data, entry_end(data, pos))
    } else {
        pos
    }
}

/// The buffer is made of complete entries and nothing else.
pub open spec fn is_complete(data: Seq<u8>) -> bool {
    walk_end(data, 0) == data.len()
}

/// Wire form of one entry.
pub open spec fn encode_entry(tag: u16, value: Seq<u8>) -> Seq<u8> {
    seq![(tag / 256) as u8, (tag % 256) as u8, value.len() as u8] + value
}

/// The walk never runs past the end of the buffer.
pub proof fn lemma_walk_stays_inside(data: Seq<u8>, pos: int)
    requires
        0 <= pos <= data.len(),
    ensures
        pos <= walk_end(data, pos) <= data.len(),
        !entry_fits(data, walk_end(data, pos)),
    decreases data.len() - pos,
{
    if entry_fits(data, pos) {
        lemma_walk_stays_inside(data, entry_end(data, pos));
    }
}

/// What is found in a buffer from some position on does not depend on the
/// bytes in front of that position.
pub proof fn lemma_entries_shift(prefix: Seq<u8>, data: Seq<u8>, pos: int)
    requires
        0 <= pos,
    ensures
        entries_from(prefix + data, prefix.len() + pos) == entries_from(data, pos),
    decreases data.len() - pos,
{
    let whole = prefix + data;
    let at = prefix.len() + pos;
    if entry_fits(data, pos) {
        assert(whole[at] == data[pos]);
        assert(whole[at + 1] == data[pos + 1]);
        assert(whole[at + 2] == data[pos + 2]);
        assert(entry_fits(whole, at));
        assert(entry_at(whole, at).value =~= entry_at(data, pos).value);
        lemma_entries_shift(prefix, data, entry_end(data, pos));
    } else {
        if pos + 3 <= data.len() {
            assert(whole[at + 2] == data[pos + 2]);
        }
        assert(!entry_fits(whole, at));
    }
}

/// A buffer that starts with the wire form of an entry decodes to that entry
/// followed by what the rest decodes to.
pub proof fn lemma_entries_of_encoded(tag: u16, value: Seq<u8>, rest: Seq<u8>)
    requires
        value.len() <= 255,
    ensures
        entries(encode_entry(tag, value) + rest) == seq![TlvEntry { tag, value }] + entries(rest),
        decode(encode_entry(tag, value) + rest) == record_of(
            seq![TlvEntry { tag, value }] + entries(rest),
        ),
{
    let head = encode_entry(tag, value);
    let whole = head + rest;
    assert(whole[0] == (tag / 256) as u8);
    assert(whole[1] == (tag % 256) as u8);
    assert(whole[2] == value.len() as u8);
    assert(entry_fits(whole, 0));
    assert(tag_at(whole, 0) == tag);
    assert(entry_at(whole, 0).value =~= value);
    assert(entry_end(whole, 0) == head.len());
    lemma_entries_shift(head, rest, 0);
}

/// A tail in which no complete entry fits, such as one whose declared length
/// runs past the end of the buffer, is dropped: the buffer decodes to the
/// complete entries in front of it.
pub proof fn lemma_truncated_tail_ignored(complete: Seq<u8>, tail: Seq<u8>)
    requires
        is_complete(complete),
        !entry_fits(tail, 0),
    ensures
        entries(complete + tail) == entries(complete),
        decode(complete + tail) == decode(complete),
{
    lemma_tail_ignored_from(complete, tail, 0);
}

proof fn lemma_tail_ignored_from(complete: Seq<u8>, tail: Seq<u8>, pos: int)
    requires
        0 <= pos <= complete.len(),
        walk_end(complete, pos) == complete.len(),
        !entry_fits(tail, 0),
    ensures
        entries_from(complete + tail, pos) == entries_from(complete, pos),
    decreases complete.len() - pos,
{
    let whole = complete + tail;
    if entry_fits(complete, pos) {
        assert(whole[pos] == complete[pos]);
        assert(whole[pos + 1] == complete[pos + 1]);
        assert(whole[pos + 2] == complete[pos + 2]);
        assert(entry_fits(whole, pos));
        assert(entry_at(whole, pos).value =~= entry_at(complete, pos).value);
        lemma_tail_ignored_from(complete, tail, entry_end(complete, pos));
    } else {
        assert(pos == complete.len());
        lemma_entries_shift(complete, tail, 0);
    }
}

} // verus!
