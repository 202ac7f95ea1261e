//! Note subsystem of a commitment-based ledger: notes that carry assets
//! between accounts, the commitment scheme that splits a note's identity
//! (`NoteId`) from its spendability secret (`Nullifier`), the standardized
//! note builders (pay-to-id, pay-to-id-with-recall, asset swap), and the
//! transaction authenticator that turns a Falcon512 signature into the
//! field-element advice sequence consumed by the verifying circuit.

use vstd::prelude::*;

mod account;
mod assets;
mod auth;
mod builders;
mod codec;
mod details;
mod errors;
mod falcon;
mod hash;
mod header;
mod inputs;
mod metadata;
mod note;
mod note_tag;
mod note_type;
mod recipient;
mod rng;
mod script;
mod word;

pub use account::AccountId;
pub use assets::{asset_elements, spec_assets_ok, Asset, NoteAssets, MAX_ASSETS_PER_NOTE};
pub use auth::{
    auth_key_from_bytes, auth_key_to_bytes, lemma_auth_key_round_trip, spec_parse_auth_key,
    spec_ser_auth_key, AccountDelta, AuthSecretKey, BasicAuthenticator, RejectingAuthenticator,
    TransactionAuthenticator,
};
pub use builders::{create_p2id_note, create_p2idr_note, create_swap_note};
pub use codec::{
    lemma_note_round_trip, lemma_parse_asset_seq_shape, lemma_parse_ser_asset_seq,
    lemma_parse_ser_assets, lemma_parse_ser_inputs, lemma_parse_ser_metadata,
    lemma_parse_ser_recipient, lemma_parse_ser_script, lemma_parse_ser_u32, lemma_parse_ser_u64,
    lemma_parse_ser_u64_seq, lemma_parse_ser_u8, lemma_parse_ser_word, lemma_parse_u64_seq_shape,
    lemma_ser_asset_seq_len, lemma_ser_u64_seq_len, lemma_subrange_split, note_from_bytes,
    note_to_bytes, read_assets, read_asset_seq, read_bytes, read_inputs, read_metadata,
    read_recipient, read_script, read_u32, read_u64, read_u64_seq, read_u8, read_word,
    spec_parse_assets, spec_parse_asset_seq, spec_parse_bytes, spec_parse_inputs,
    spec_parse_metadata, spec_parse_note, spec_parse_recipient, spec_parse_script, spec_parse_u32,
    spec_parse_u64, spec_parse_u64_seq, spec_parse_u8, spec_parse_word, spec_ser_assets,
    spec_ser_asset_seq, spec_ser_inputs, spec_ser_metadata, spec_ser_note_parts, spec_ser_of_note,
    spec_ser_recipient, spec_ser_script, spec_ser_u32, spec_ser_u64, spec_ser_u64_seq, spec_ser_u8,
    spec_ser_word, write_assets, write_asset_seq, write_bytes, write_inputs, write_metadata,
    write_recipient, write_script, write_u32, write_u64, write_u64_seq, write_u8, write_word,
};
pub use details::{NoteDetails, NoteId, Nullifier, NULLIFIER_DOMAIN};
pub use errors::{AuthenticationError, DeserializationError, NoteError};
pub use falcon::{
    assemble_falcon_advice, falcon_key_bytes_ok, falcon_key_signable, falcon_pub_poly_of,
    falcon_public_key_commitment, generate_signing_key, get_falcon_signature, sign_with_fresh_key, spec_conv_at,
    spec_conv_partial, spec_falcon_advice, spec_reduce_at, spec_rev, spec_ring_product, FalconKey,
    FALCON_KEY_LENGTH, FALCON_MODULUS,
};
pub use header::NoteHeader;
pub use hash::{rpo_hash_elements_of, rpo_merge_in_domain_of, rpo_merge_of};
pub use inputs::{NoteInputs, MAX_INPUTS_PER_NOTE};
pub use metadata::NoteMetadata;
pub use note::{lemma_id_nullifier_domain_separation, lemma_note_derived_fields, Note};
pub use note_tag::{NoteExecutionHint, NoteTag};
pub use note_type::NoteType;
pub use recipient::{spec_recipient_digest, NoteRecipient};
pub use rng::{draw_word, rng_from_entropy};
pub use script::NoteScript;
pub use word::Word;

verus! {

/// The prime modulus of the ledger's base field: 2^64 - 2^32 + 1.
pub const FIELD_MODULUS: u64 = 0xffff_ffff_0000_0001;

/// A value is a canonical field element when it is below the field modulus.
pub open spec fn is_felt(x: u64) -> bool {
    x < FIELD_MODULUS
}

} // verus!
