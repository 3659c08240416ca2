//! Protocol engine for reading the four basic identity fields (name, address,
//! birth date, gender) from a contact smart card that carries the card-surface
//! entry-assist applet.
//!
//! The engine is a set of pure, verified building blocks: command construction,
//! status-word classification, the chained READ BINARY state machine and the
//! tag-length-value decoder. The byte exchange with the card itself is left to
//! the caller, which feeds every response it receives back into the engine.

use vstd::prelude::*;

pub mod status;
pub mod error;
pub mod command;
pub mod response;
pub mod reader;
pub mod tlv;
pub mod operation;
pub mod voicevox;

verus! {

/// Tag of the name field.
pub const TAG_NAME: u16 = 0xDF21;

/// Tag of the address field.
pub const TAG_ADDRESS: u16 = 0xDF22;

/// Tag of the birth date field.
pub const TAG_BIRTH: u16 = 0xDF23;

/// Tag of the gender field.
pub const TAG_GENDER: u16 = 0xDF24;

/// The four basic fields. A field that the card did not send is empty. The
/// birth date keeps the card's own textual form and the gender its numeric
/// character code.
#[derive(Debug, Clone)]
pub struct BasicFourInfo {
    /// Name of the holder.
    pub name: String,
    /// Address of the holder.
    pub address: String,
    /// Date of birth, as the card writes it.
    pub birth: String,
    /// Gender code, one character.
    pub gender: String,
}

/// The four basic fields as sequences of characters.
pub struct BasicFourView {
    /// Name of the holder.
    pub name: Seq<char>,
    /// Address of the holder.
    pub address: Seq<char>,
    /// Date of birth.
    pub birth: Seq<char>,
    /// Gender code.
    pub gender: Seq<char>,
}

impl BasicFourView {
    /// The record with four empty fields.
    pub open spec fn empty() -> BasicFourView {
        BasicFourView {
            name: Seq::empty(),
            address: Seq::empty(),
            birth: Seq::empty(),
            gender: Seq::empty(),
        }
    }

    /// The record after the field that `tag` names is set to `text`; a tag
    /// that names no field leaves the record as it is.
    pub open spec fn with_field(self, tag: u16, text: Seq<char>) -> BasicFourView {
        if tag == TAG_NAME {
            BasicFourView { name: text, ..self }
        } else if tag == TAG_ADDRESS {
            BasicFourView { address: text, ..self }
        } else if tag == TAG_BIRTH {
            BasicFourView { birth: text, ..self }
        } else if tag == TAG_GENDER {
            BasicFourView { gender: text, ..self }
        } else {
            self
        }
    }
}

impl View for BasicFourInfo {
    type V = BasicFourView;

    open spec fn view(&self) -> BasicFourView {
        BasicFourView {
            name: self.name@,
            address: self.address@,
            birth: self.birth@,
            gender: self.gender@,
        }
    }
}

impl BasicFourInfo {
    /// A record with four empty fields.
    pub fn new() -> (info: BasicFourInfo)
        ensures
            info@ == BasicFourView::empty(),
    {
        BasicFourInfo {
            name: String::new(),
            address: String::new(),
            birth: String::new(),
            gender: String::new(),
        }
    }

    /// Stores `text` in the field that `tag` names, replacing what was there.
    /// A tag that names no field changes nothing.
    pub fn assign(&mut self, tag: u16, text: String)
        ensures
            final(self)@ == old(self)@.with_field(tag, text@),
    {
        if tag == TAG_NAME {
            self.name = text;
        } else if tag == TAG_ADDRESS {
            self.address = text;
        } else if tag == TAG_BIRTH {
            self.birth = text;
        } else if tag == TAG_GENDER {
            self.gender = text;
        }
    }
}

} // verus!
