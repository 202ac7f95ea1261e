//! The ledger's hash function, reached through trusted wrappers.
//!
//! Every commitment in this subsystem (note id, nullifier, recipient digest,
//! input and asset commitments) is a digest of the RPO permutation offered by
//! the `miden-crypto` crate. What a digest's elements are on given inputs
//! takes pages to state, so each hashing entry point gets an uninterpreted
//! name; the contracts of this library speak of those names exactly.

use vstd::prelude::*;
use miden_crypto::hash::rpo::Rpo256;
use miden_crypto::hash::rpo::RpoDigest;
use miden_crypto::Felt;
use crate::is_felt;
use crate::word::Word;

verus! {

/// The digest that `Rpo256::merge` computes over two words.
pub uninterp spec fn rpo_merge_of(a: Seq<u64>, b: Seq<u64>) -> Seq<u64>;

/// The digest that `Rpo256::merge_in_domain` computes over two words and a
/// domain-separation element.
pub uninterp spec fn rpo_merge_in_domain_of(a: Seq<u64>, b: Seq<u64>, domain: u64) -> Seq<u64>;

/// The digest that `Rpo256::hash_elements` computes over a sequence of field
/// elements.
pub uninterp spec fn rpo_hash_elements_of(elems: Seq<u64>) -> Seq<u64>;

/// Relies on `miden_crypto::hash::rpo::Rpo256::merge`: a hash of two digests,
/// a pure function of the eight input elements; the result is a digest of
/// four field elements.
#[verifier::external_body]
pub(crate) fn rpo_merge(a: &Word, b: &Word) -> (r: Word)
    requires
        a.wf(),
        b.wf(),
    ensures
        r.wf(),
        r@ == rpo_merge_of(a@, b@),
{
    let da = RpoDigest::new([Felt::new(a.0), Felt::new(a.1), Felt::new(a.2), Felt::new(a.3)]);
    let db = RpoDigest::new([Felt::new(b.0), Felt::new(b.1), Felt::new(b.2), Felt::new(b.3)]);
    let d = Rpo256::merge(&[da, db]);
    let e = d.as_elements();
    Word(e[0].as_int(), e[1].as_int(), e[2].as_int(), e[3].as_int())
}

/// Relies on `miden_crypto::hash::rpo::Rpo256::merge_in_domain`: a hash of
/// two digests separated by a domain element placed in the sponge capacity,
/// a pure function of its nine input elements.
#[verifier::external_body]
pub(crate) fn rpo_merge_in_domain(a: &Word, b: &Word, domain: u64) -> (r: Word)
    requires
        a.wf(),
        b.wf(),
        is_felt(domain),
    ensures
        r.wf(),
        r@ == rpo_merge_in_domain_of(a@, b@, domain),
{
    let da = RpoDigest::new([Felt::new(a.0), Felt::new(a.1), Felt::new(a.2), Felt::new(a.3)]);
    let db = RpoDigest::new([Felt::new(b.0), Felt::new(b.1), Felt::new(b.2), Felt::new(b.3)]);
    let d = Rpo256::merge_in_domain(&[da, db], Felt::new(domain));
    let e = d.as_elements();
    Word(e[0].as_int(), e[1].as_int(), e[2].as_int(), e[3].as_int())
}

/// Relies on `miden_crypto::hash::rpo::Rpo256::hash_elements`: a hash of a
/// sequence of field elements, a pure function of that sequence.
#[verifier::external_body]
pub(crate) fn rpo_hash_elements(elems: &Vec<u64>) -> (r: Word)
    requires
        forall|i: int| 0 <= i < elems@.len() ==> is_felt(#[trigger] elems@[i]),
    ensures
        r.wf(),
        r@ == rpo_hash_elements_of(elems@),
{
    let felts: std::vec::Vec<Felt> = elems.iter().map(|x| Felt::new(*x)).collect();
    let d = Rpo256::hash_elements(&felts);
    let e = d.as_elements();
    Word(e[0].as_int(), e[1].as_int(), e[2].as_int(), e[3].as_int())
}

} // verus!
