use miden_crypto::hash::rpo::{Rpo256, RpoDigest};
use miden_crypto::Felt;
use miden_notes::{
    create_p2id_note, create_p2idr_note, create_swap_note, note_from_bytes, note_to_bytes,
    AccountId, Asset, DeserializationError, NoteAssets, NoteError, NoteExecutionHint, NoteInputs,
    NoteMetadata, NoteRecipient, NoteScript, NoteTag, NoteType, Word,
};
use rand::rngs::StdRng;
use rand::SeedableRng;

fn digest_to_word(d: RpoDigest) -> Word {
    let e = d.as_elements();
    Word(e[0].as_int(), e[1].as_int(), e[2].as_int(), e[3].as_int())
}

fn word_to_digest(w: &Word) -> RpoDigest {
    RpoDigest::new([Felt::new(w.0), Felt::new(w.1), Felt::new(w.2), Felt::new(w.3)])
}

fn sample_script() -> NoteScript {
    NoteScript::new(Word(11, 22, 33, 44), vec![0xab, 0xcd, 0xef]).unwrap()
}

fn sample_note() -> miden_notes::Note {
    let assets = NoteAssets::new(vec![Asset(Word(1, 2, 3, 4)), Asset(Word(5, 6, 7, 8))]).unwrap();
    let tag = NoteTag::from_account_id(AccountId(77), NoteExecutionHint::Local).unwrap();
    let metadata = NoteMetadata::new(AccountId(42), NoteType::Private, tag, 9).unwrap();
    let inputs = NoteInputs::new(vec![10, 20, 30]).unwrap();
    let recipient = NoteRecipient::new(Word(100, 200, 300, 400), sample_script(), inputs);
    miden_notes::Note::new(assets, metadata, recipient)
}

#[test]
fn inputs_validation() {
    assert!(NoteInputs::new(vec![0; 128]).is_ok());
    assert_eq!(NoteInputs::new(vec![0; 129]).unwrap_err(), NoteError::TooManyInputs);
    assert_eq!(NoteInputs::new(vec![u64::MAX]).unwrap_err(), NoteError::NotAFieldElement);
    let inputs = NoteInputs::new(vec![1, 2]).unwrap();
    assert_eq!(inputs.num_values(), 2);
}

#[test]
fn assets_validation() {
    let a = Asset(Word(1, 2, 3, 4));
    let b = Asset(Word(5, 6, 7, 8));
    assert!(NoteAssets::new(vec![a, b]).is_ok());
    assert_eq!(NoteAssets::new(vec![a, b, a]).unwrap_err(), NoteError::DuplicateAsset);
    assert_eq!(
        NoteAssets::new(vec![Asset(Word(u64::MAX, 0, 0, 0))]).unwrap_err(),
        NoteError::NotAFieldElement
    );
    assert_eq!(NoteAssets::new(vec![a; 257]).unwrap_err(), NoteError::TooManyAssets);
}

#[test]
fn asset_commitment_matches_hash() {
    let assets = NoteAssets::new(vec![Asset(Word(1, 2, 3, 4))]).unwrap();
    let expected = Rpo256::hash_elements(&[Felt::new(1), Felt::new(2), Felt::new(3), Felt::new(4)]);
    assert_eq!(assets.commitment(), digest_to_word(expected));
}

#[test]
fn recipient_digest_matches_hash_chain() {
    let inputs = NoteInputs::new(vec![10, 20, 30]).unwrap();
    let script = sample_script();
    let serial = Word(100, 200, 300, 400);
    let recipient = NoteRecipient::new(serial, script.clone(), inputs);

    let serial_hash =
        Rpo256::merge(&[word_to_digest(&serial), RpoDigest::new([Felt::new(0); 4])]);
    let with_script = Rpo256::merge(&[serial_hash, word_to_digest(&script.hash())]);
    let input_commitment =
        Rpo256::hash_elements(&[Felt::new(10), Felt::new(20), Felt::new(30)]);
    let expected = Rpo256::merge(&[with_script, input_commitment]);
    assert_eq!(recipient.digest(), digest_to_word(expected));
}

#[test]
fn note_id_and_nullifier_recomputed() {
    let note = sample_note();
    let recipient_digest = word_to_digest(&note.recipient().digest());
    let asset_commitment = word_to_digest(&note.assets().commitment());
    let expected_id = Rpo256::merge(&[recipient_digest, asset_commitment]);
    let expected_nullifier =
        Rpo256::merge_in_domain(&[recipient_digest, asset_commitment], Felt::new(1));
    assert_eq!(note.id().inner(), digest_to_word(expected_id));
    assert_eq!(note.nullifier().inner(), digest_to_word(expected_nullifier));
    let expected_auth = Rpo256::merge(&[
        word_to_digest(&note.id().inner()),
        word_to_digest(&note.metadata().to_word()),
    ]);
    assert_eq!(note.authentication_hash(), digest_to_word(expected_auth));
}

#[test]
fn note_round_trip() {
    let note = sample_note();
    let bytes = note_to_bytes(&note);
    let loaded = note_from_bytes(&bytes).unwrap();
    assert_eq!(loaded.id(), note.id());
    assert_eq!(loaded.nullifier(), note.nullifier());
    assert_eq!(loaded.serial_num(), note.serial_num());
    assert_eq!(loaded.metadata(), note.metadata());
    assert_eq!(loaded.inputs().values(), note.inputs().values());
    assert_eq!(loaded.script().hash(), note.script().hash());
    assert_eq!(loaded.script().code(), note.script().code());
    assert_eq!(loaded.assets().assets(), note.assets().assets());
    assert_eq!(note_to_bytes(&loaded), bytes);
}

#[test]
fn id_and_nullifier_are_domain_separated() {
    let note = sample_note();
    // Same two digests enter both hashes; the nullifier's domain element
    // must separate them.
    assert_ne!(note.id().inner(), note.nullifier().inner());
    let recipient_digest = word_to_digest(&note.recipient().digest());
    let asset_commitment = word_to_digest(&note.assets().commitment());
    let zero_domain =
        Rpo256::merge_in_domain(&[recipient_digest, asset_commitment], Felt::new(0));
    assert_ne!(note.nullifier().inner(), digest_to_word(zero_domain));
}

#[test]
fn note_type_wire_values() {
    assert_eq!(NoteType::Public.to_wire(), 1);
    assert_eq!(NoteType::Private.to_wire(), 2);
    assert_eq!(NoteType::Encrypted.to_wire(), 3);
    assert_eq!(NoteType::from_wire(2), Some(NoteType::Private));
    assert_eq!(NoteType::from_wire(0), None);
    assert_eq!(NoteType::from_wire(9), None);
}

#[test]
fn note_round_trip_empty_parts() {
    let assets = NoteAssets::new(Vec::new()).unwrap();
    let metadata =
        NoteMetadata::new(AccountId(1), NoteType::Public, NoteTag(0), 0).unwrap();
    let inputs = NoteInputs::new(Vec::new()).unwrap();
    let script = NoteScript::new(Word(0, 0, 0, 0), Vec::new()).unwrap();
    let recipient = NoteRecipient::new(Word(0, 0, 0, 0), script, inputs);
    let note = miden_notes::Note::new(assets, metadata, recipient);
    let bytes = note_to_bytes(&note);
    // metadata (21) + asset count (4) + serial (32) + root (32) + code len (4) + input count (4)
    assert_eq!(bytes.len(), 97);
    let loaded = note_from_bytes(&bytes).unwrap();
    assert_eq!(loaded.id(), note.id());
    assert_eq!(loaded.nullifier(), note.nullifier());
    assert_eq!(note_to_bytes(&loaded), bytes);
}

#[test]
fn note_wire_format_golden_bytes() {
    // A note written out by hand: metadata (sender 1, public, tag 0, aux 0),
    // no assets, all-zero serial number, all-zero script root with no code,
    // no inputs. Every number is little endian.
    let mut golden: Vec<u8> = Vec::new();
    golden.extend_from_slice(&1u64.to_le_bytes());
    golden.push(1);
    golden.extend_from_slice(&0u32.to_le_bytes());
    golden.extend_from_slice(&0u64.to_le_bytes());
    golden.extend_from_slice(&0u32.to_le_bytes());
    golden.extend_from_slice(&[0u8; 32]);
    golden.extend_from_slice(&[0u8; 32]);
    golden.extend_from_slice(&0u32.to_le_bytes());
    golden.extend_from_slice(&0u32.to_le_bytes());

    let loaded = note_from_bytes(&golden).unwrap();
    assert_eq!(loaded.metadata().sender(), AccountId(1));
    assert_eq!(loaded.metadata().note_type(), NoteType::Public);
    assert_eq!(loaded.metadata().tag(), NoteTag(0));
    assert_eq!(loaded.serial_num(), Word(0, 0, 0, 0));
    assert_eq!(loaded.inputs().num_values(), 0);
    assert_eq!(loaded.assets().num_assets(), 0);
    assert_eq!(note_to_bytes(&loaded), golden);

    // A sample note's sender occupies the first eight bytes.
    let bytes = note_to_bytes(&sample_note());
    assert_eq!(bytes[0..8], 42u64.to_le_bytes());
}

#[test]
fn note_deserialization_errors() {
    let note = sample_note();
    let bytes = note_to_bytes(&note);

    let truncated: Vec<u8> = bytes[..bytes.len() - 1].to_vec();
    assert!(note_from_bytes(&truncated).is_err());

    let mut trailing = bytes.clone();
    trailing.push(0);
    assert_eq!(
        note_from_bytes(&trailing).unwrap_err(),
        DeserializationError::TrailingBytes
    );

    let mut bad_type = bytes.clone();
    bad_type[8] = 9;
    assert!(note_from_bytes(&bad_type).is_err());

    assert!(note_from_bytes(&Vec::new()).is_err());
}

#[test]
fn metadata_tag_type_validation() {
    let sender = AccountId(42);
    let public_only_tag = NoteTag(0);
    assert!(public_only_tag.requires_public());
    assert_eq!(
        NoteMetadata::new(sender, NoteType::Private, public_only_tag, 0).unwrap_err(),
        NoteError::PublicOnlyTag
    );
    assert!(NoteMetadata::new(sender, NoteType::Public, public_only_tag, 0).is_ok());

    let local_tag = NoteTag::from_account_id(sender, NoteExecutionHint::Local).unwrap();
    assert!(!local_tag.requires_public());
    assert!(NoteMetadata::new(sender, NoteType::Private, local_tag, 0).is_ok());
    assert_eq!(
        NoteMetadata::new(sender, NoteType::Public, local_tag, u64::MAX).unwrap_err(),
        NoteError::NotAFieldElement
    );
}

#[test]
fn tag_derivation() {
    let target = AccountId(0xfedc_ba98_7654_3210);
    let local = NoteTag::from_account_id(target, NoteExecutionHint::Local).unwrap();
    assert_eq!(local.0, 0xc000_0000 | ((0xfedc_ba98_7654_3210u64 >> 34) as u32));

    let off_chain = AccountId(0x8000_0000_0000_0001);
    assert_eq!(
        NoteTag::from_account_id(off_chain, NoteExecutionHint::Network).unwrap_err(),
        NoteError::NetworkAccountNotOnChain
    );
    let on_chain = AccountId(0x2000_0000_0000_0001);
    let network = NoteTag::from_account_id(on_chain, NoteExecutionHint::Network).unwrap();
    assert!(network.requires_public());
}

#[test]
fn p2id_note_layout() {
    let sender = AccountId(42);
    let target = AccountId(0x2000_0000_0000_0123);
    let assets = vec![Asset(Word(1, 2, 3, 4))];
    let mut rng = StdRng::from_seed([1u8; 32]);
    let note =
        create_p2id_note(sender, target, assets, NoteType::Public, sample_script(), &mut rng)
            .unwrap();
    assert_eq!(note.inputs().values(), &vec![target.0]);
    assert_eq!(
        note.metadata().tag(),
        NoteTag::from_account_id(target, NoteExecutionHint::Local).unwrap()
    );
    assert_eq!(note.metadata().sender(), sender);
    assert_eq!(note.metadata().note_type(), NoteType::Public);
    assert_eq!(note.metadata().aux(), 0);
    assert_eq!(note.assets().assets(), &vec![Asset(Word(1, 2, 3, 4))]);

    let dup = vec![Asset(Word(1, 2, 3, 4)), Asset(Word(1, 2, 3, 4))];
    let mut rng = StdRng::from_seed([1u8; 32]);
    assert_eq!(
        create_p2id_note(sender, target, dup, NoteType::Public, sample_script(), &mut rng)
            .unwrap_err(),
        NoteError::DuplicateAsset
    );
}

#[test]
fn p2idr_note_adds_recall_height() {
    let sender = AccountId(42);
    let target = AccountId(7);
    let mut rng = StdRng::from_seed([2u8; 32]);
    let note = create_p2idr_note(
        sender,
        target,
        vec![Asset(Word(1, 2, 3, 4))],
        NoteType::Private,
        5000,
        sample_script(),
        &mut rng,
    )
    .unwrap();
    assert_eq!(note.inputs().values(), &vec![target.0, 5000u64]);
    assert_eq!(
        note.metadata().tag(),
        NoteTag::from_account_id(target, NoteExecutionHint::Local).unwrap()
    );
}

#[test]
fn swap_note_input_layout() {
    let sender = AccountId(42);
    let offered = Asset(Word(1, 2, 3, 4));
    let requested = Asset(Word(5, 6, 7, 8));
    let swap_script = sample_script();
    let p2id_script = NoteScript::new(Word(9, 9, 9, 9), vec![0x01]).unwrap();
    let mut rng = StdRng::from_seed([3u8; 32]);
    let (note, payback_serial) = create_swap_note(
        sender,
        offered,
        requested,
        NoteType::Public,
        swap_script,
        &p2id_script,
        &mut rng,
    )
    .unwrap();

    let values = note.inputs().values();
    assert_eq!(values.len(), 9);
    let payback_recipient = NoteRecipient::new(
        payback_serial,
        p2id_script.clone(),
        NoteInputs::new(Vec::new()).unwrap(),
    );
    let digest = payback_recipient.digest();
    assert_eq!(values[0..4], [digest.0, digest.1, digest.2, digest.3]);
    assert_eq!(values[4..8], [5, 6, 7, 8]);
    let payback_tag = NoteTag::from_account_id(sender, NoteExecutionHint::Local).unwrap();
    assert_eq!(values[8], payback_tag.0 as u64);

    assert_eq!(note.metadata().tag(), NoteTag(0));
    assert_eq!(note.assets().assets(), &vec![offered]);

    let mut rng = StdRng::from_seed([3u8; 32]);
    assert_eq!(
        create_swap_note(
            sender,
            offered,
            requested,
            NoteType::Private,
            sample_script(),
            &p2id_script,
            &mut rng,
        )
        .unwrap_err(),
        NoteError::PublicOnlyTag
    );
}

#[test]
fn builder_serial_numbers_follow_randomness() {
    let sender = AccountId(1);
    let target = AccountId(2);
    let mut rng_a = StdRng::from_seed([5u8; 32]);
    let mut rng_b = StdRng::from_seed([5u8; 32]);
    let mut rng_c = StdRng::from_seed([6u8; 32]);
    let note_a =
        create_p2id_note(sender, target, Vec::new(), NoteType::Public, sample_script(), &mut rng_a)
            .unwrap();
    let note_b =
        create_p2id_note(sender, target, Vec::new(), NoteType::Public, sample_script(), &mut rng_b)
            .unwrap();
    let note_c =
        create_p2id_note(sender, target, Vec::new(), NoteType::Public, sample_script(), &mut rng_c)
            .unwrap();
    assert_eq!(note_to_bytes(&note_a), note_to_bytes(&note_b));
    assert_ne!(note_a.serial_num(), note_c.serial_num());
    assert_ne!(note_a.id(), note_c.id());
}

#[test]
fn account_and_script_validation() {
    assert!(AccountId::new(5).is_ok());
    assert_eq!(AccountId::new(u64::MAX).unwrap_err(), NoteError::NotAFieldElement);
    assert_eq!(
        NoteScript::new(Word(u64::MAX, 0, 0, 0), Vec::new()).unwrap_err(),
        NoteError::NotAFieldElement
    );
}
