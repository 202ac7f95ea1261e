//! Note tags: the routing value that lets a recipient scan for notes
//! addressed to them.
//!
//! A tag is 32 bits. Its two most significant bits encode the execution
//! class:
//!
//! - `0b00` and `0b01`: network execution. Such a note is routed to network
//!   executors, so its contents must be fully visible: only the `Public`
//!   note type is compatible with it.
//! - `0b10` and `0b11`: local execution. The targeted party discovers and
//!   executes the note itself, so any note type is compatible.
//!
//! `NoteMetadata::new` cross-validates the tag's class against the note type
//! and refuses incompatible pairs.

use vstd::prelude::*;
use crate::account::AccountId;
use crate::errors::NoteError;
use crate::note_type::NoteType;

verus! {

/// Who is expected to execute a note against the ledger's kernel.
#[derive(Clone, Copy, Debug, PartialEq, Eq, Structural)]
pub enum NoteExecutionHint {
    /// The targeted account's owner consumes the note locally.
    Local,
    /// A network executor consumes the note on the target's behalf; this
    /// requires the target account's state to be on chain.
    Network,
}

/// A note's routing and discovery tag.
#[derive(Clone, Copy, Debug, PartialEq, Eq, Structural)]
pub struct NoteTag(pub u32);

impl NoteTag {
    /// A tag in a network execution class admits only public notes.
    pub open spec fn spec_requires_public(&self) -> bool {
        self.0 >> 30 == 0u32 || self.0 >> 30 == 1u32
    }

    /// A tag and a note type are compatible when the tag's class places no
    /// restriction, or the note is public.
    pub open spec fn spec_is_compatible(&self, note_type: NoteType) -> bool {
        !self.spec_requires_public() || note_type == NoteType::Public
    }

    /// The tag derived for an account under the local execution hint: the
    /// local class marker `0b11` over the 30 most significant bits of the
    /// account identifier.
    pub open spec fn spec_local_tag(target: AccountId) -> NoteTag {
        NoteTag(0xc000_0000u32 | (target.0 >> 34) as u32)
    }

    /// The tag derived for an account under the network execution hint: the
    /// network class marker `0b00` over the same 30 bits.
    pub open spec fn spec_network_tag(target: AccountId) -> NoteTag {
        NoteTag((target.0 >> 34) as u32)
    }

    /// Whether this tag's class admits only public notes.
    pub fn requires_public(&self) -> (r: bool)
        ensures
            r == self.spec_requires_public(),
    {
        self.0 >> 30 <= 1
    }

    /// Whether this tag is compatible with the given note type.
    pub fn is_compatible(&self, note_type: NoteType) -> (r: bool)
        ensures
            r == self.spec_is_compatible(note_type),
    {
        !self.requires_public() || matches!(note_type, NoteType::Public)
    }

    /// Derives the tag under which an account can discover notes addressed
    /// to it.
    ///
    /// The tag is a deterministic function of the account identifier, so the
    /// target can scan for it without seeing a note's contents. Fails only
    /// for the network hint on an account whose state is not on chain.
    pub fn from_account_id(target: AccountId, execution: NoteExecutionHint) -> (r: Result<
        NoteTag,
        NoteError,
    >)
        ensures
            execution == NoteExecutionHint::Local ==> r == Ok::<NoteTag, NoteError>(
                NoteTag::spec_local_tag(target),
            ),
            execution == NoteExecutionHint::Network && target.spec_is_on_chain() ==> r
                == Ok::<NoteTag, NoteError>(NoteTag::spec_network_tag(target)),
            execution == NoteExecutionHint::Network && !target.spec_is_on_chain() ==> r
                == Err::<NoteTag, NoteError>(NoteError::NetworkAccountNotOnChain),
    {
        match execution {
            NoteExecutionHint::Local => {
                let high_bits: u32 = (target.0 >> 34) as u32;
                Ok(NoteTag(0xc000_0000u32 | high_bits))
            },
            NoteExecutionHint::Network => {
                if target.is_on_chain() {
                    Ok(NoteTag((target.0 >> 34) as u32))
                } else {
                    Err(NoteError::NetworkAccountNotOnChain)
                }
            },
        }
    }

    /// The tag as a field element, as note inputs and metadata words carry
    /// it.
    pub open spec fn spec_as_felt(&self) -> u64 {
        self.0 as u64
    }

    /// Returns the tag widened to a field element.
    pub fn as_felt(&self) -> (r: u64)
        ensures
            r == self.spec_as_felt(),
            crate::is_felt(r),
    {
        self.0 as u64
    }
}

/// A tag derived under the local execution hint always sits in the local
/// class `0b11`, so it restricts no note type.
pub proof fn lemma_local_tag_unrestricted(target: AccountId)
    ensures
        !NoteTag::spec_local_tag(target).spec_requires_public(),
{
    let hb = (target.0 >> 34) as u32;
    assert((0xc000_0000u32 | hb) >> 30 == 3u32) by (bit_vector);
}

/// The zero tag sits in a network execution class and so admits only
/// public notes.
pub proof fn lemma_zero_tag_requires_public()
    ensures
        NoteTag(0u32).spec_requires_public(),
{
    assert(0u32 >> 30 == 0u32) by (bit_vector);
}

} // verus!
