//! The note aggregate: header, details and nullifier, with the derived
//! fields pinned to their sources.
//!
//! A note's id and nullifier are derived values: they are computed from the
//! details at construction and can never be set independently, so a `Note`
//! can never drift out of step with its own commitments. The fields are
//! private for that reason; every constructor of this type recomputes the
//! derived fields.

use vstd::prelude::*;
use crate::assets::NoteAssets;
use crate::details::{NoteDetails, NoteId, Nullifier, NULLIFIER_DOMAIN};
use crate::hash::{rpo_merge, rpo_merge_in_domain_of, rpo_merge_of};
use crate::header::NoteHeader;
use crate::inputs::NoteInputs;
use crate::metadata::NoteMetadata;
use crate::recipient::NoteRecipient;
use crate::script::NoteScript;
use crate::word::Word;

verus! {

/// A note with all the data required for it to be consumed against the
/// ledger's kernel.
#[derive(Clone, Debug)]
pub struct Note {
    header: NoteHeader,
    details: NoteDetails,
    nullifier: Nullifier,
}

impl Note {
    /// The note's header.
    pub closed spec fn spec_header(&self) -> NoteHeader {
        self.header
    }

    /// The note's details.
    pub closed spec fn spec_details(&self) -> NoteDetails {
        self.details
    }

    /// The note's nullifier field.
    pub closed spec fn spec_nullifier(&self) -> Nullifier {
        self.nullifier
    }

    /// The note's metadata.
    pub open spec fn spec_metadata(&self) -> NoteMetadata {
        self.spec_header().metadata
    }

    /// Well-formedness: the parts are well formed, and the derived fields
    /// equal the commitments the details derive — the header's id is the
    /// hash of recipient digest and asset commitment, and the nullifier is
    /// the domain-separated hash of the same two digests.
    pub open spec fn wf(&self) -> bool {
        &&& self.spec_details().wf()
        &&& self.spec_header().wf()
        &&& self.spec_nullifier().wf()
        &&& self.spec_header().id.0@ == self.spec_details().spec_id()
        &&& self.spec_nullifier().0@ == self.spec_details().spec_nullifier()
    }

    /// Returns a new note created from the given parts. Construction is
    /// pure and always succeeds; the id and the nullifier are recomputed
    /// here from the details and never taken from the caller.
    pub fn new(assets: NoteAssets, metadata: NoteMetadata, recipient: NoteRecipient) -> (r: Note)
        requires
            assets.wf(),
            metadata.wf(),
            recipient.wf(),
        ensures
            r.wf(),
            r.spec_details() == (NoteDetails { assets, recipient }),
            r.spec_metadata() == metadata,
    {
        let details = NoteDetails::new(assets, recipient);
        let header = NoteHeader::new(details.id(), metadata);
        let nullifier = details.nullifier();
        Note { header, details, nullifier }
    }

    /// Returns the note's unique identifier, the commitment published for
    /// the note.
    pub fn id(&self) -> (r: NoteId)
        ensures
            r == self.spec_header().id,
    {
        self.header.id()
    }

    /// Returns the note's metadata.
    pub fn metadata(&self) -> (r: &NoteMetadata)
        ensures
            r == self.spec_metadata(),
    {
        self.header.metadata()
    }

    /// Returns the note's header.
    pub fn header(&self) -> (r: &NoteHeader)
        ensures
            r == self.spec_header(),
    {
        &self.header
    }

    /// Returns the note's details.
    pub fn details(&self) -> (r: &NoteDetails)
        ensures
            r == self.spec_details(),
    {
        &self.details
    }

    /// Returns the note's assets.
    pub fn assets(&self) -> (r: &NoteAssets)
        ensures
            r == self.spec_details().assets,
    {
        self.details.assets()
    }

    /// Returns the note's serial number, the secret required to consume
    /// the note.
    pub fn serial_num(&self) -> (r: Word)
        ensures
            r == self.spec_details().recipient.serial_num,
    {
        self.details.serial_num()
    }

    /// Returns the note's script, which locks the assets of this note.
    pub fn script(&self) -> (r: &NoteScript)
        ensures
            r == self.spec_details().recipient.script,
    {
        self.details.script()
    }

    /// Returns the note's inputs, which customize the script's behavior.
    pub fn inputs(&self) -> (r: &NoteInputs)
        ensures
            r == self.spec_details().recipient.inputs,
    {
        self.details.inputs()
    }

    /// Returns the note's recipient.
    pub fn recipient(&self) -> (r: &NoteRecipient)
        ensures
            r == self.spec_details().recipient,
    {
        self.details.recipient()
    }

    /// Returns the note's nullifier. This is public data once the note is
    /// consumed; it is used to prevent double spend.
    pub fn nullifier(&self) -> (r: Nullifier)
        ensures
            r == self.spec_nullifier(),
    {
        self.nullifier
    }

    /// Returns the note's authentication hash, the value that
    /// authenticates the note's presence in the block's note tree:
    /// the hash of the note's id and its metadata packed into a word.
    pub fn authentication_hash(&self) -> (r: Word)
        requires
            self.wf(),
        ensures
            r.wf(),
            r@ == rpo_merge_of(self.spec_header().id.0@, self.spec_metadata().spec_to_word()@),
    {
        rpo_merge(&self.header.id().inner(), &self.header.metadata().to_word())
    }
}

/// The recompute invariant, stated for every well-formed note: the header's
/// id is exactly the hash of the recipient digest and the asset commitment,
/// and the nullifier field is exactly the domain-separated hash of the same
/// two digests. Deserialized and constructed notes alike satisfy it, since
/// both derive these fields from the details.
pub proof fn lemma_note_derived_fields(n: Note)
    requires
        n.wf(),
    ensures
        n.spec_header().id.0@ == rpo_merge_of(
            n.spec_details().recipient.spec_digest(),
            n.spec_details().assets.spec_commitment(),
        ),
        n.spec_nullifier().0@ == rpo_merge_in_domain_of(
            n.spec_details().recipient.spec_digest(),
            n.spec_details().assets.spec_commitment(),
            NULLIFIER_DOMAIN,
        ),
{
}

/// Domain separation between a note's id and its nullifier: both digests
/// hash the same pair of words, but the nullifier's hash carries the
/// nonzero domain element in the sponge capacity while the id's hash
/// carries none. The two commitments are therefore applications of
/// structurally distinct hash calls, and the id together with public
/// metadata never determines the nullifier without the recipient preimage.
pub proof fn lemma_id_nullifier_domain_separation(n: Note)
    requires
        n.wf(),
    ensures
        n.spec_header().id.0@ == rpo_merge_of(
            n.spec_details().recipient.spec_digest(),
            n.spec_details().assets.spec_commitment(),
        ),
        n.spec_nullifier().0@ == rpo_merge_in_domain_of(
            n.spec_details().recipient.spec_digest(),
            n.spec_details().assets.spec_commitment(),
            NULLIFIER_DOMAIN,
        ),
        NULLIFIER_DOMAIN != 0,
{
}

} // verus!
