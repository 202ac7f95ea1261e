//! The standardized note builders: pay-to-id, pay-to-id-with-recall, and
//! asset swap.
//!
//! Each builder is pure apart from drawing serial numbers from the
//! caller-supplied randomness source. The compiled note scripts are
//! build-pipeline artifacts; callers obtain them from the assembler
//! collaborator and pass them in.

use vstd::prelude::*;
use rand::rngs::StdRng;
use crate::account::AccountId;
use crate::assets::{spec_assets_ok, Asset, NoteAssets, MAX_ASSETS_PER_NOTE};
use crate::errors::NoteError;
use crate::inputs::NoteInputs;
use crate::metadata::NoteMetadata;
use crate::note::Note;
use crate::note_tag::{NoteExecutionHint, NoteTag};
use crate::note_type::NoteType;
use crate::recipient::{spec_recipient_digest, NoteRecipient};
use crate::rng::draw_word;
use crate::script::NoteScript;
use crate::word::Word;

verus! {

/// Generates a P2ID note - pay to id note.
///
/// The note carries the target's account identifier as its single input,
/// so the target's script enforces that only the target may consume it,
/// and the tag is derived from the target under the local execution hint,
/// so the target can discover the note without seeing its contents. The
/// randomness source is drawn from exactly once, for the serial number.
pub fn create_p2id_note(
    sender: AccountId,
    target: AccountId,
    assets: Vec<Asset>,
    note_type: NoteType,
    script: NoteScript,
    rng: &mut StdRng,
) -> (r: Result<Note, NoteError>)
    requires
        sender.wf(),
        target.wf(),
        script.wf(),
    ensures
        r is Ok <==> spec_assets_ok(assets@),
        r matches Ok(n) ==> {
            &&& n.wf()
            &&& n.spec_details().recipient.inputs.values@ == seq![target.0]
            &&& n.spec_metadata().tag == NoteTag::spec_local_tag(target)
            &&& n.spec_metadata().sender == sender
            &&& n.spec_metadata().note_type == note_type
            &&& n.spec_metadata().aux == 0u64
            &&& n.spec_details().recipient.script == script
            &&& n.spec_details().assets.assets@ == assets@
        },
        assets@.len() > MAX_ASSETS_PER_NOTE ==> r == Err::<Note, NoteError>(
            NoteError::TooManyAssets,
        ),
        assets@.len() <= MAX_ASSETS_PER_NOTE && !(forall|i: int|
            0 <= i < assets@.len() ==> (#[trigger] assets@[i]).wf()) ==> r == Err::<
            Note,
            NoteError,
        >(NoteError::NotAFieldElement),
        assets@.len() <= MAX_ASSETS_PER_NOTE && (forall|i: int|
            0 <= i < assets@.len() ==> (#[trigger] assets@[i]).wf()) && !NoteAssets::spec_distinct(
            assets@,
        ) ==> r == Err::<Note, NoteError>(NoteError::DuplicateAsset),
{
    let mut input_values: Vec<u64> = Vec::new();
    input_values.push(target.0);
    assert(input_values@ =~= seq![target.0]);
    let inputs = match NoteInputs::new(input_values) {
        Ok(inputs) => inputs,
        Err(e) => {
            proof {
                assert(false);
            }
            return Err(e);
        },
    };
    let tag = match NoteTag::from_account_id(target, NoteExecutionHint::Local) {
        Ok(tag) => tag,
        Err(e) => {
            proof {
                assert(false);
            }
            return Err(e);
        },
    };
    let serial_num = draw_word(rng);
    let aux: u64 = 0;

    proof {
        crate::note_tag::lemma_local_tag_unrestricted(target);
    }
    let metadata = match NoteMetadata::new(sender, note_type, tag, aux) {
        Ok(m) => m,
        Err(e) => {
            proof {
                assert(false);
            }
            return Err(e);
        },
    };
    let vault = match NoteAssets::new(assets) {
        Ok(v) => v,
        Err(e) => {
            return Err(e);
        },
    };
    let recipient = NoteRecipient::new(serial_num, script, inputs);
    Ok(Note::new(vault, metadata, recipient))
}

/// Generates a P2IDR note - pay to id with recall after a certain block
/// height.
///
/// Identical to P2ID, except that the inputs carry the recall height as a
/// second element: once the ledger's block height reaches it, the script
/// also lets the sender reclaim the assets. The recall height is taken as
/// given; whether it has been reached is a kernel-time concern.
pub fn create_p2idr_note(
    sender: AccountId,
    target: AccountId,
    assets: Vec<Asset>,
    note_type: NoteType,
    recall_height: u32,
    script: NoteScript,
    rng: &mut StdRng,
) -> (r: Result<Note, NoteError>)
    requires
        sender.wf(),
        target.wf(),
        script.wf(),
    ensures
        r is Ok <==> spec_assets_ok(assets@),
        r matches Ok(n) ==> {
            &&& n.wf()
            &&& n.spec_details().recipient.inputs.values@ == seq![
                target.0,
                recall_height as u64,
            ]
            &&& n.spec_metadata().tag == NoteTag::spec_local_tag(target)
            &&& n.spec_metadata().sender == sender
            &&& n.spec_metadata().note_type == note_type
            &&& n.spec_metadata().aux == 0u64
            &&& n.spec_details().recipient.script == script
            &&& n.spec_details().assets.assets@ == assets@
        },
        assets@.len() > MAX_ASSETS_PER_NOTE ==> r == Err::<Note, NoteError>(
            NoteError::TooManyAssets,
        ),
        assets@.len() <= MAX_ASSETS_PER_NOTE && !(forall|i: int|
            0 <= i < assets@.len() ==> (#[trigger] assets@[i]).wf()) ==> r == Err::<
            Note,
            NoteError,
        >(NoteError::NotAFieldElement),
        assets@.len() <= MAX_ASSETS_PER_NOTE && (forall|i: int|
            0 <= i < assets@.len() ==> (#[trigger] assets@[i]).wf()) && !NoteAssets::spec_distinct(
            assets@,
        ) ==> r == Err::<Note, NoteError>(NoteError::DuplicateAsset),
{
    let mut input_values: Vec<u64> = Vec::new();
    input_values.push(target.0);
    input_values.push(recall_height as u64);
    assert(input_values@ =~= seq![target.0, recall_height as u64]);
    let inputs = match NoteInputs::new(input_values) {
        Ok(inputs) => inputs,
        Err(e) => {
            proof {
                assert(false);
            }
            return Err(e);
        },
    };
    let tag = match NoteTag::from_account_id(target, NoteExecutionHint::Local) {
        Ok(tag) => tag,
        Err(e) => {
            proof {
                assert(false);
            }
            return Err(e);
        },
    };
    let serial_num = draw_word(rng);
    let aux: u64 = 0;

    let vault = match NoteAssets::new(assets) {
        Ok(v) => v,
        Err(e) => {
            return Err(e);
        },
    };
    proof {
        crate::note_tag::lemma_local_tag_unrestricted(target);
    }
    let metadata = match NoteMetadata::new(sender, note_type, tag, aux) {
        Ok(m) => m,
        Err(e) => {
            proof {
                assert(false);
            }
            return Err(e);
        },
    };
    let recipient = NoteRecipient::new(serial_num, script, inputs);
    Ok(Note::new(vault, metadata, recipient))
}

/// Generates a SWAP note - swap of assets between two accounts.
///
/// The note offers `offered_asset` to any account willing to consume it;
/// the consumer must create a payback P2ID note paying `requested_asset`
/// back to `sender`. Two serial numbers are drawn: one for the SWAP note
/// itself and one for the future payback note, whose recipient (payback
/// serial number, the P2ID script, empty inputs) the SWAP note commits to
/// positionally in its own inputs: four elements of the payback recipient
/// digest, four elements of the requested asset's word encoding, then the
/// payback tag derived from the sender. The payback serial number is
/// returned so the caller can recognize the payback note later.
///
/// The SWAP note's own tag is the placeholder `0`: no tag-derivation
/// scheme for swap discoverability is defined yet, which is an open
/// protocol gap. The placeholder sits in a network execution class, so
/// only public SWAP notes can currently be built.
pub fn create_swap_note(
    sender: AccountId,
    offered_asset: Asset,
    requested_asset: Asset,
    note_type: NoteType,
    swap_script: NoteScript,
    p2id_script: &NoteScript,
    rng: &mut StdRng,
) -> (r: Result<(Note, Word), NoteError>)
    requires
        sender.wf(),
        swap_script.wf(),
        p2id_script.wf(),
    ensures
        r is Ok <==> requested_asset.wf() && offered_asset.wf() && note_type == NoteType::Public,
        r matches Ok((n, payback_serial_num)) ==> {
            &&& n.wf()
            &&& payback_serial_num.wf()
            &&& n.spec_details().recipient.inputs.values@ == spec_recipient_digest(
                payback_serial_num@,
                p2id_script.root@,
                Seq::<u64>::empty(),
            ) + requested_asset.0@ + seq![NoteTag::spec_local_tag(sender).spec_as_felt()]
            &&& n.spec_metadata() == (NoteMetadata {
                sender,
                note_type,
                tag: NoteTag(0u32),
                aux: 0u64,
            })
            &&& n.spec_details().recipient.script == swap_script
            &&& n.spec_details().assets.assets@ == seq![offered_asset]
        },
        !requested_asset.wf() ==> r == Err::<(Note, Word), NoteError>(NoteError::NotAFieldElement),
        requested_asset.wf() && note_type != NoteType::Public ==> r == Err::<
            (Note, Word),
            NoteError,
        >(NoteError::PublicOnlyTag),
        requested_asset.wf() && note_type == NoteType::Public && !offered_asset.wf() ==> r
            == Err::<(Note, Word), NoteError>(NoteError::NotAFieldElement),
{
    let payback_serial_num = draw_word(rng);
    // The digest of the future payback note's recipient: the payback serial
    // number, the P2ID script, and empty inputs, chained as in
    // `NoteRecipient::digest`.
    let serial_num_hash = crate::hash::rpo_merge(&payback_serial_num, &Word::empty());
    let merge_script = crate::hash::rpo_merge(&serial_num_hash, &p2id_script.root);
    let no_inputs: Vec<u64> = Vec::new();
    let empty_commitment = crate::hash::rpo_hash_elements(&no_inputs);
    let payback_digest = crate::hash::rpo_merge(&merge_script, &empty_commitment);
    assert(payback_digest@ == spec_recipient_digest(
        payback_serial_num@,
        p2id_script.root@,
        Seq::<u64>::empty(),
    ));
    let asset_word: Word = requested_asset.0;
    let payback_tag = match NoteTag::from_account_id(sender, NoteExecutionHint::Local) {
        Ok(tag) => tag,
        Err(e) => {
            proof {
                assert(false);
            }
            return Err(e);
        },
    };

    let mut input_values: Vec<u64> = Vec::new();
    input_values.push(payback_digest.0);
    input_values.push(payback_digest.1);
    input_values.push(payback_digest.2);
    input_values.push(payback_digest.3);
    input_values.push(asset_word.0);
    input_values.push(asset_word.1);
    input_values.push(asset_word.2);
    input_values.push(asset_word.3);
    input_values.push(payback_tag.as_felt());
    let ghost v: Seq<u64> = input_values@;
    proof {
        assert(v =~= payback_digest@ + asset_word@ + seq![
            NoteTag::spec_local_tag(sender).spec_as_felt(),
        ]);
        assert(v[0] == payback_digest.0 && v[1] == payback_digest.1 && v[2] == payback_digest.2
            && v[3] == payback_digest.3);
        assert(v[4] == asset_word.0 && v[5] == asset_word.1 && v[6] == asset_word.2 && v[7]
            == asset_word.3);
        assert(crate::is_felt(v[8]));
        if requested_asset.wf() {
            assert forall|i: int| 0 <= i < v.len() implies crate::is_felt(#[trigger] v[i]) by {
                assert(v.len() == 9);
            }
        }
    }
    let inputs = match NoteInputs::new(input_values) {
        Ok(inputs) => inputs,
        Err(e) => {
            proof {
                assert(!requested_asset.wf());
            }
            return Err(e);
        },
    };
    proof {
        assert(crate::is_felt(v[4]) && crate::is_felt(v[5]) && crate::is_felt(v[6])
            && crate::is_felt(v[7]));
        assert(requested_asset.wf());
    }

    // No tag-derivation scheme for swap discoverability is defined yet; the
    // placeholder stands until the protocol specifies one.
    let tag = NoteTag(0);
    let serial_num = draw_word(rng);
    let aux: u64 = 0;
    proof {
        crate::note_tag::lemma_zero_tag_requires_public();
    }
    let metadata = match NoteMetadata::new(sender, note_type, tag, aux) {
        Ok(m) => m,
        Err(e) => {
            return Err(e);
        },
    };
    let vault = match NoteAssets::new(vec![offered_asset]) {
        Ok(v) => v,
        Err(e) => {
            return Err(e);
        },
    };
    let recipient = NoteRecipient::new(serial_num, swap_script, inputs);
    let note = Note::new(vault, metadata, recipient);

    Ok((note, payback_serial_num))
}

} // verus!
