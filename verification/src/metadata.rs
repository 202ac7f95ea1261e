//! Note metadata: the always-public part of a note.

use vstd::prelude::*;
use crate::account::AccountId;
use crate::errors::NoteError;
use crate::is_felt;
use crate::note_tag::NoteTag;
use crate::note_type::NoteType;
use crate::word::Word;

verus! {

/// The public fields attached to every note: sender, visibility class,
/// routing tag and an auxiliary field element.
///
/// Construction cross-validates the tag against the note type (a tag in a
/// network execution class admits only public notes), so a well-formed
/// metadata value always carries a compatible pair.
#[derive(Clone, Copy, Debug, PartialEq, Eq, Structural)]
pub struct NoteMetadata {
    pub sender: AccountId,
    pub note_type: NoteType,
    pub tag: NoteTag,
    pub aux: u64,
}

impl NoteMetadata {
    /// Sender is a field element, the auxiliary value is a field element,
    /// and the tag is compatible with the note type.
    pub open spec fn wf(&self) -> bool {
        &&& self.sender.wf()
        &&& is_felt(self.aux)
        &&& self.tag.spec_is_compatible(self.note_type)
    }

    /// Returns new metadata, failing when a value is not a canonical field
    /// element or the tag's class is incompatible with the note type.
    pub fn new(sender: AccountId, note_type: NoteType, tag: NoteTag, aux: u64) -> (r: Result<
        NoteMetadata,
        NoteError,
    >)
        requires
            sender.wf(),
        ensures
            r is Ok <==> is_felt(aux) && tag.spec_is_compatible(note_type),
            r matches Ok(m) ==> m == (NoteMetadata { sender, note_type, tag, aux }) && m.wf(),
            !is_felt(aux) ==> r == Err::<NoteMetadata, NoteError>(NoteError::NotAFieldElement),
            is_felt(aux) && !tag.spec_is_compatible(note_type) ==> r == Err::<
                NoteMetadata,
                NoteError,
            >(NoteError::PublicOnlyTag),
    {
        if aux >= crate::FIELD_MODULUS {
            Err(NoteError::NotAFieldElement)
        } else if !tag.is_compatible(note_type) {
            Err(NoteError::PublicOnlyTag)
        } else {
            Ok(NoteMetadata { sender, note_type, tag, aux })
        }
    }

    /// Returns the sender's account identifier.
    pub fn sender(&self) -> (r: AccountId)
        ensures
            r == self.sender,
    {
        self.sender
    }

    /// Returns the note's visibility class.
    pub fn note_type(&self) -> (r: NoteType)
        ensures
            r == self.note_type,
    {
        self.note_type
    }

    /// Returns the note's routing tag.
    pub fn tag(&self) -> (r: NoteTag)
        ensures
            r == self.tag,
    {
        self.tag
    }

    /// Returns the auxiliary field element.
    pub fn aux(&self) -> (r: u64)
        ensures
            r == self.aux,
    {
        self.aux
    }

    /// The metadata packed into one word: sender, note type discriminant,
    /// tag, and the auxiliary element.
    pub open spec fn spec_to_word(&self) -> Word {
        Word(
            self.sender.0,
            self.note_type.spec_to_wire() as u64,
            self.tag.spec_as_felt(),
            self.aux,
        )
    }

    /// Packs the metadata into one word, the form in which it enters the
    /// note's authentication hash.
    pub fn to_word(&self) -> (r: Word)
        ensures
            r == self.spec_to_word(),
            self.wf() ==> r.wf(),
    {
        Word(self.sender.0, self.note_type.to_wire() as u64, self.tag.as_felt(), self.aux)
    }
}

} // verus!
