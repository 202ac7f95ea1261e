//! The note header: the minimal public commitment to a note.

use vstd::prelude::*;
use crate::details::NoteId;
use crate::metadata::NoteMetadata;

verus! {

/// A note's id together with its metadata: everything that is always
/// public about a note, and sufficient for tree inclusion proofs.
#[derive(Clone, Copy, Debug, PartialEq, Eq, Structural)]
pub struct NoteHeader {
    pub id: NoteId,
    pub metadata: NoteMetadata,
}

impl NoteHeader {
    /// Id and metadata are both well formed.
    pub open spec fn wf(&self) -> bool {
        &&& self.id.wf()
        &&& self.metadata.wf()
    }

    /// Returns a new header.
    pub fn new(id: NoteId, metadata: NoteMetadata) -> (r: NoteHeader)
        ensures
            r == (NoteHeader { id, metadata }),
    {
        NoteHeader { id, metadata }
    }

    /// Returns the note's identifier.
    pub fn id(&self) -> (r: NoteId)
        ensures
            r == self.id,
    {
        self.id
    }

    /// Returns the note's metadata.
    pub fn metadata(&self) -> (r: &NoteMetadata)
        ensures
            r == self.metadata,
    {
        &self.metadata
    }
}

} // verus!
