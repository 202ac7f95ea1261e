//! Visibility classes of a note.

use vstd::prelude::*;

verus! {

/// How much of a note is published when it is created.
///
/// Metadata is always public; the note's details (assets, script, inputs,
/// serial number) are published in full for `Public` notes, published in
/// encrypted form for `Encrypted` notes, and withheld for `Private` notes,
/// for which only the note's id is on chain.
#[derive(Clone, Copy, Debug, PartialEq, Eq, Structural)]
pub enum NoteType {
    /// All note details are published.
    Public,
    /// Only the note's id and metadata are published.
    Private,
    /// The note's details are published in encrypted form.
    Encrypted,
}

impl NoteType {
    /// The wire discriminant of this note type.
    pub open spec fn spec_to_wire(&self) -> u8 {
        match self {
            NoteType::Public => 1u8,
            NoteType::Private => 2u8,
            NoteType::Encrypted => 3u8,
        }
    }

    /// Returns the wire discriminant of this note type.
    pub fn to_wire(&self) -> (r: u8)
        ensures
            r == self.spec_to_wire(),
    {
        match self {
            NoteType::Public => 1u8,
            NoteType::Private => 2u8,
            NoteType::Encrypted => 3u8,
        }
    }

    /// The note type a wire discriminant stands for, if any.
    pub open spec fn spec_from_wire(v: u8) -> Option<NoteType> {
        if v == 1u8 {
            Some(NoteType::Public)
        } else if v == 2u8 {
            Some(NoteType::Private)
        } else if v == 3u8 {
            Some(NoteType::Encrypted)
        } else {
            None
        }
    }

    /// Returns the note type a wire discriminant stands for, if any.
    pub fn from_wire(v: u8) -> (r: Option<NoteType>)
        ensures
            r == NoteType::spec_from_wire(v),
    {
        if v == 1u8 {
            Some(NoteType::Public)
        } else if v == 2u8 {
            Some(NoteType::Private)
        } else if v == 3u8 {
            Some(NoteType::Encrypted)
        } else {
            None
        }
    }
}

} // verus!
