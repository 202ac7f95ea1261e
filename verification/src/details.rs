//! Note details, and the two commitments derived from them.
//!
//! A note's details reduce to two digests over overlapping inputs:
//!
//! - the `NoteId`, published whenever the note exists, is the plain hash of
//!   the recipient digest and the asset commitment;
//! - the `Nullifier`, published only when the note is consumed, hashes the
//!   same two digests under a distinct, nonzero domain-separation element.
//!
//! Because the two hashes are separated by domain, an observer holding the
//! id and all public metadata cannot derive the nullifier without the
//! recipient's secret preimage; publishing every note's id therefore leaks
//! nothing about which notes have been spent.

use vstd::prelude::*;
use crate::assets::NoteAssets;
use crate::hash::{rpo_merge, rpo_merge_in_domain, rpo_merge_in_domain_of, rpo_merge_of};
use crate::recipient::NoteRecipient;
use crate::word::Word;

verus! {

/// The domain-separation element under which nullifiers are hashed. It is
/// nonzero, and no other hash in this subsystem uses it.
pub const NULLIFIER_DOMAIN: u64 = 1;

/// A note's public identifier: a commitment to the note's existence, safe
/// to publish alongside it.
#[derive(Clone, Copy, Debug, PartialEq, Eq, Structural)]
pub struct NoteId(pub Word);

impl NoteId {
    /// The identifier is a digest of canonical field elements.
    pub open spec fn wf(&self) -> bool {
        self.0.wf()
    }

    /// Returns the digest underlying this identifier.
    pub fn inner(&self) -> (r: Word)
        ensures
            r == self.0,
    {
        self.0
    }
}

/// A note's spent marker: computable only by a party holding the full
/// recipient preimage, published when the note is consumed to prevent
/// double spending.
#[derive(Clone, Copy, Debug, PartialEq, Eq, Structural)]
pub struct Nullifier(pub Word);

impl Nullifier {
    /// The nullifier is a digest of canonical field elements.
    pub open spec fn wf(&self) -> bool {
        self.0.wf()
    }

    /// Returns the digest underlying this nullifier.
    pub fn inner(&self) -> (r: Word)
        ensures
            r == self.0,
    {
        self.0
    }
}

/// The `(assets, recipient)` pair from which a note's id and nullifier are
/// derived.
#[derive(Clone, Debug)]
pub struct NoteDetails {
    pub assets: NoteAssets,
    pub recipient: NoteRecipient,
}

impl NoteDetails {
    /// Assets and recipient are both well formed.
    pub open spec fn wf(&self) -> bool {
        &&& self.assets.wf()
        &&& self.recipient.wf()
    }

    /// The note id these details derive: the hash of the recipient digest
    /// and the asset commitment.
    pub open spec fn spec_id(&self) -> Seq<u64> {
        rpo_merge_of(self.recipient.spec_digest(), self.assets.spec_commitment())
    }

    /// The nullifier these details derive: the hash of the same two digests
    /// under the nullifier domain.
    pub open spec fn spec_nullifier(&self) -> Seq<u64> {
        rpo_merge_in_domain_of(
            self.recipient.spec_digest(),
            self.assets.spec_commitment(),
            NULLIFIER_DOMAIN,
        )
    }

    /// Returns new details. Construction is pure and always succeeds;
    /// validation happened when the parts were built.
    pub fn new(assets: NoteAssets, recipient: NoteRecipient) -> (r: NoteDetails)
        ensures
            r.assets == assets,
            r.recipient == recipient,
    {
        NoteDetails { assets, recipient }
    }

    /// Returns the note's assets.
    pub fn assets(&self) -> (r: &NoteAssets)
        ensures
            r == self.assets,
    {
        &self.assets
    }

    /// Returns the note's recipient.
    pub fn recipient(&self) -> (r: &NoteRecipient)
        ensures
            r == self.recipient,
    {
        &self.recipient
    }

    /// Returns the recipient's serial number.
    pub fn serial_num(&self) -> (r: Word)
        ensures
            r == self.recipient.serial_num,
    {
        self.recipient.serial_num
    }

    /// Returns the note's script.
    pub fn script(&self) -> (r: &crate::script::NoteScript)
        ensures
            r == self.recipient.script,
    {
        &self.recipient.script
    }

    /// Returns the note's inputs.
    pub fn inputs(&self) -> (r: &crate::inputs::NoteInputs)
        ensures
            r == self.recipient.inputs,
    {
        &self.recipient.inputs
    }

    /// Computes the note's identifier.
    pub fn id(&self) -> (r: NoteId)
        requires
            self.wf(),
        ensures
            r.wf(),
            r.0@ == self.spec_id(),
    {
        NoteId(rpo_merge(&self.recipient.digest(), &self.assets.commitment()))
    }

    /// Computes the note's nullifier.
    pub fn nullifier(&self) -> (r: Nullifier)
        requires
            self.wf(),
        ensures
            r.wf(),
            r.0@ == self.spec_nullifier(),
    {
        Nullifier(
            rpo_merge_in_domain(
                &self.recipient.digest(),
                &self.assets.commitment(),
                NULLIFIER_DOMAIN,
            ),
        )
    }

    /// Splits the details back into assets and recipient.
    pub fn into_parts(self) -> (r: (NoteAssets, NoteRecipient))
        ensures
            r.0 == self.assets,
            r.1 == self.recipient,
    {
        (self.assets, self.recipient)
    }
}

} // verus!
