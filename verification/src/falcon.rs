//! The Falcon512 signing scheme, as the transaction authenticator uses it.
//!
//! Key generation and the lattice signing algorithm live in the
//! `miden-crypto` crate behind trusted wrappers; everything that shapes the
//! advice sequence handed to the verifying circuit — the polynomial product
//! over Z_12289\[x\]/(x^512 + 1), the layout of the four segments, and the
//! reversal that matches the order in which the circuit pops advice values
//! — is verified here.
//!
//! A secret key is held as its canonical 1281-byte encoding; the signing
//! path decodes it on use. Decodability is checkable and checked; whether
//! the decoded lattice basis lies inside the signing sampler's working
//! domain is a second, stronger condition that only the scheme's own key
//! generator enforces, so it is carried as a named predicate
//! (`falcon_key_signable`) established by key generation and required by
//! the signing path.

use vstd::prelude::*;
use rand::rngs::StdRng;
use miden_crypto::dsa::rpo_falcon512::Polynomial;
use miden_crypto::dsa::rpo_falcon512::SecretKey;
use miden_crypto::utils::Deserializable;
use miden_crypto::utils::Serializable;
use miden_crypto::Felt;
use crate::errors::AuthenticationError;
use crate::hash::rpo_hash_elements;
use crate::is_felt;
use crate::word::Word;

verus! {

/// The Falcon prime: coefficients of the scheme's polynomials live in
/// Z_12289.
pub const FALCON_MODULUS: u64 = 12289;

/// The byte length of a secret key's canonical encoding.
pub const FALCON_KEY_LENGTH: usize = 1281;

/// Whether a byte sequence decodes as a Falcon512 secret key: the bytes
/// decode under `SecretKey::read_from_bytes` and the decoded short lattice
/// basis is not plainly degenerate (its `f` polynomial is nonzero). A pure
/// function of the bytes. This is the checkable well-formedness of a key
/// encoding; it does not by itself place the key inside the signing
/// sampler's working domain — that is `falcon_key_signable`.
pub uninterp spec fn falcon_key_bytes_ok(bytes: Seq<u8>) -> bool;

/// Whether a byte sequence decodes to a secret key inside the signing
/// sampler's working domain: the acceptance conditions of the scheme's key
/// generator — every number-theoretic-transform coordinate of `f` nonzero,
/// and the basis's Gram-Schmidt norm within the scheme's bound. A pure
/// function of the bytes. The outside crate offers no entry point that
/// tests these conditions on a decoded key, so no executable function
/// realizes this name; it is established only by the key generator, whose
/// generation loop accepts exactly such keys, and required wherever the
/// signing sampler runs.
pub uninterp spec fn falcon_key_signable(bytes: Seq<u8>) -> bool;

/// The expanded public key h = g/f over Z_12289\[x\]/(x^512 + 1) of the
/// secret key a byte sequence decodes to: what
/// `SecretKey::compute_pub_key_poly` returns, a pure function of the
/// bytes.
pub uninterp spec fn falcon_pub_poly_of(bytes: Seq<u8>) -> Seq<u64>;

/// Relies on `SecretKey::read_from_bytes` and
/// `SecretKey::short_lattice_basis` (`miden-crypto`): whether the bytes
/// decode as a key whose `f` basis polynomial (held negated at index 1 of
/// the short lattice basis) is nonzero — deterministic in the bytes.
#[verifier::external_body]
fn falcon_key_check(bytes: &Vec<u8>) -> (r: bool)
    ensures
        r == falcon_key_bytes_ok(bytes@),
{
    match SecretKey::read_from_bytes(bytes) {
        Ok(sk) => !sk.short_lattice_basis()[1].coefficients.iter().all(|&c| c == 0),
        Err(_) => false,
    }
}

/// Relies on `SecretKey::read_from_bytes` and `SecretKey::sign_with_rng`
/// (`miden-crypto`), together with `SecretKey::compute_pub_key_poly`,
/// `Polynomial::mul_modulo_p`, `Nonce::to_elements` and the signature's
/// accessors: decodes the key and signs the message, drawing from the
/// randomness source, and returns the signature's parts as plain
/// coefficient vectors — the nonce (8 elements, each read from 5 bytes and
/// so below 2^40), the expanded public key (the named pure function of the
/// key bytes) and the signature polynomial (512 coefficients each, below
/// the Falcon modulus), and the plain product of the latter two (1024
/// values, value `k` being the convolution sum at `k`, which with such
/// coefficients stays far below 2^64). Beyond these shapes nothing is
/// known of the nonce and the signature: they depend on the randomness
/// drawn.
///
/// The `falcon_key_signable` precondition keeps the call inside the
/// Gaussian sampler's working domain: on a decodable key outside it (a
/// linearly dependent basis, or Gram-Schmidt norms beyond the scheme's
/// bound) the sampler's floating-point tree degenerates and its rejection
/// arithmetic can fail, so such keys are excluded rather than promised
/// about.
#[verifier::external_body]
fn falcon_sign_full(key_bytes: &Vec<u8>, message: &Word, rng: &mut StdRng) -> (r: (
    Vec<u64>,
    Vec<u64>,
    Vec<u64>,
    Vec<u64>,
))
    requires
        falcon_key_bytes_ok(key_bytes@),
        falcon_key_signable(key_bytes@),
    ensures
        r.0@.len() == 8,
        forall|i: int| 0 <= i < 8 ==> #[trigger] r.0@[i] < 0x100_0000_0000u64,
        r.1@ == falcon_pub_poly_of(key_bytes@),
        r.1@.len() == 512,
        forall|i: int| 0 <= i < 512 ==> #[trigger] r.1@[i] < FALCON_MODULUS,
        r.2@.len() == 512,
        forall|i: int| 0 <= i < 512 ==> #[trigger] r.2@[i] < FALCON_MODULUS,
        r.3@.len() == 1024,
        forall|k: int| 0 <= k < 1024 ==> #[trigger] r.3@[k] == spec_conv_at(r.1@, r.2@, k),
{
    let sk = SecretKey::read_from_bytes(key_bytes).unwrap();
    let m = [message.0, message.1, message.2, message.3].map(Felt::new);
    let sig = sk.sign_with_rng(m, rng);
    let nonce = sig.nonce().to_elements().iter().map(|f| f.as_int()).collect();
    let h_poly = sk.compute_pub_key_poly().0;
    let conv = Polynomial::mul_modulo_p(&h_poly, sig.sig_poly()).to_vec();
    let h = h_poly.coefficients.iter().map(|c| c.value() as u64).collect();
    let s2 = sig.sig_poly().coefficients.iter().map(|c| c.value() as u64).collect();
    (nonce, h, s2, conv)
}

/// Relies on `SecretKey::read_from_bytes` and
/// `SecretKey::compute_pub_key_poly` (`miden-crypto`): the expanded public
/// key h = g/f over Z_12289\[x\]/(x^512 + 1) of the key the bytes decode
/// to — the named pure function of the bytes, with 512 coefficients below
/// the Falcon modulus.
#[verifier::external_body]
fn falcon_pub_key_poly(key_bytes: &Vec<u8>) -> (r: Vec<u64>)
    requires
        falcon_key_bytes_ok(key_bytes@),
    ensures
        r@ == falcon_pub_poly_of(key_bytes@),
        r@.len() == 512,
        forall|i: int| 0 <= i < 512 ==> #[trigger] r@[i] < FALCON_MODULUS,
{
    let sk = SecretKey::read_from_bytes(key_bytes).unwrap();
    sk.compute_pub_key_poly().0.coefficients.iter().map(|c| c.value() as u64).collect()
}

/// Relies on `SecretKey::with_rng` (`miden-crypto`) and the key's
/// `Serializable` encoding: generates a fresh key pair from the randomness
/// source and returns its canonical 1281-byte encoding. The generation
/// loop accepts only `f`, `g` whose number-theoretic-transform coordinates
/// are nonzero and whose Gram-Schmidt norm is within the scheme's bound —
/// exactly the signing sampler's working domain — so the result is both
/// well formed and signable.
#[verifier::external_body]
fn falcon_generate_key(rng: &mut StdRng) -> (r: FalconKey)
    ensures
        r.wf(),
        falcon_key_signable(r.bytes@),
{
    let sk = SecretKey::with_rng(rng);
    FalconKey { bytes: sk.to_bytes() }
}

/// One convolution coefficient, partially summed: the sum over the first
/// `j` indices of the products contributing to coefficient `k`.
pub open spec fn spec_conv_partial(a: Seq<u64>, b: Seq<u64>, k: int, j: nat) -> int
    decreases j,
{
    if j == 0 {
        0
    } else {
        spec_conv_partial(a, b, k, (j - 1) as nat) + (if j - 1 < a.len() && 0 <= k - (j - 1)
            < b.len() {
            a[j - 1] * b[k - (j - 1)]
        } else {
            0
        })
    }
}

/// Coefficient `k` of the plain product of two polynomials given by their
/// coefficient sequences: the full convolution sum.
pub open spec fn spec_conv_at(a: Seq<u64>, b: Seq<u64>, k: int) -> int {
    spec_conv_partial(a, b, k, a.len())
}

/// Coefficient `i` of the product reduced into Z_12289\[x\]/(x^512 + 1):
/// the convolution at `i` minus the convolution at `512 + i`, both taken
/// modulo the Falcon prime.
pub open spec fn spec_reduce_at(h: Seq<u64>, s2: Seq<u64>, i: int) -> u64 {
    ((((FALCON_MODULUS - (spec_conv_at(h, s2, 512 + i) % (FALCON_MODULUS as int))) % (
    FALCON_MODULUS as int)) + (spec_conv_at(h, s2, i) % (FALCON_MODULUS as int))) % (
    FALCON_MODULUS as int)) as u64
}

/// The product of the expanded public key and the signature polynomial in
/// the ring Z_12289\[x\]/(x^512 + 1): 512 coefficients.
pub open spec fn spec_ring_product(h: Seq<u64>, s2: Seq<u64>) -> Seq<u64> {
    Seq::new(512, |i: int| spec_reduce_at(h, s2, i))
}

/// A sequence reversed: the order in which the verifying circuit pops
/// advice values is opposite to the order in which they are pushed.
pub open spec fn spec_rev(s: Seq<u64>) -> Seq<u64> {
    Seq::new(s.len(), |i: int| s[s.len() - 1 - i])
}

/// The advice sequence of a Falcon512 signature, as the verifying circuit
/// consumes it: the nonce (8 elements), the expanded public key (512), the
/// signature polynomial (512) and their ring product (512), pushed in that
/// order and therefore reversed — 1544 field elements in all.
pub open spec fn spec_falcon_advice(nonce: Seq<u64>, h: Seq<u64>, s2: Seq<u64>) -> Seq<u64> {
    spec_rev(nonce + h + s2 + spec_ring_product(h, s2))
}

/// Reduces a 1024-coefficient plain product into the 512-coefficient ring
/// product, coefficient by coefficient.
fn reduce_negacyclic(c: &Vec<u64>) -> (r: Vec<u64>)
    requires
        c@.len() == 1024,
    ensures
        r@.len() == 512,
        forall|i: int| 0 <= i < 512 ==> #[trigger] r@[i] == ((((FALCON_MODULUS - ((c@[512 + i]
            as int) % (FALCON_MODULUS as int))) % (FALCON_MODULUS as int)) + ((c@[i] as int) % (
        FALCON_MODULUS as int))) % (FALCON_MODULUS as int)),
{
    let mut r: Vec<u64> = Vec::new();
    let mut i: usize = 0;
    while i < 512
        invariant
            c@.len() == 1024,
            i <= 512,
            r@.len() == i,
            forall|j: int| 0 <= j < i ==> #[trigger] r@[j] == ((((FALCON_MODULUS - ((c@[512 + j]
                as int) % (FALCON_MODULUS as int))) % (FALCON_MODULUS as int)) + ((c@[j] as int)
                % (FALCON_MODULUS as int))) % (FALCON_MODULUS as int)),
        decreases 512 - i,
    {
        let ai = c[512 + i] % FALCON_MODULUS;
        let neg_ai = (FALCON_MODULUS - ai) % FALCON_MODULUS;
        let bi = c[i] % FALCON_MODULUS;
        r.push((neg_ai + bi) % FALCON_MODULUS);
        i += 1;
    }
    r
}

/// Appends the values of one sequence to another.
fn append_u64s(dst: &mut Vec<u64>, src: &Vec<u64>)
    ensures
        final(dst)@ == old(dst)@ + src@,
{
    let n = src.len();
    let mut i: usize = 0;
    while i < n
        invariant
            n == src@.len(),
            i <= n,
            dst@ == old(dst)@ + src@.take(i as int),
        decreases n - i,
    {
        dst.push(src[i]);
        proof {
            assert(dst@ =~= old(dst)@ + src@.take(i + 1));
        }
        i += 1;
    }
    proof {
        assert(src@.take(n as int) =~= src@);
    }
}

/// Reverses a sequence of values.
fn reverse_u64s(v: &Vec<u64>) -> (r: Vec<u64>)
    ensures
        r@ == spec_rev(v@),
{
    let n = v.len();
    let mut r: Vec<u64> = Vec::new();
    let mut i: usize = 0;
    while i < n
        invariant
            n == v@.len(),
            i <= n,
            r@.len() == i,
            forall|j: int| 0 <= j < i ==> #[trigger] r@[j] == v@[n - 1 - j],
        decreases n - i,
    {
        r.push(v[n - 1 - i]);
        i += 1;
    }
    proof {
        assert(r@ =~= spec_rev(v@));
    }
    r
}

/// Assembles the advice sequence of a Falcon512 signature from its parts:
/// reduces the plain product of the expanded public key and the signature
/// polynomial into their ring product, lays out nonce, key, signature and
/// product in order, and reverses the whole, as the verifying circuit
/// expects. Every element of the result is a canonical field element.
pub fn assemble_falcon_advice(nonce: &Vec<u64>, h: &Vec<u64>, s2: &Vec<u64>, conv: &Vec<u64>) -> (r:
    Vec<u64>)
    requires
        nonce@.len() == 8,
        forall|i: int| 0 <= i < 8 ==> is_felt(#[trigger] nonce@[i]),
        h@.len() == 512,
        forall|i: int| 0 <= i < 512 ==> #[trigger] h@[i] < FALCON_MODULUS,
        s2@.len() == 512,
        forall|i: int| 0 <= i < 512 ==> #[trigger] s2@[i] < FALCON_MODULUS,
        conv@.len() == 1024,
        forall|k: int| 0 <= k < 1024 ==> #[trigger] conv@[k] == spec_conv_at(h@, s2@, k),
    ensures
        r@ == spec_falcon_advice(nonce@, h@, s2@),
        r@.len() == 1544,
        forall|i: int| 0 <= i < r@.len() ==> is_felt(#[trigger] r@[i]),
{
    let pi = reduce_negacyclic(conv);
    proof {
        assert(pi@ =~= spec_ring_product(h@, s2@));
    }
    let mut all: Vec<u64> = Vec::new();
    append_u64s(&mut all, nonce);
    append_u64s(&mut all, h);
    append_u64s(&mut all, s2);
    append_u64s(&mut all, &pi);
    proof {
        assert(all@ =~= nonce@ + h@ + s2@ + spec_ring_product(h@, s2@));
    }
    let r = reverse_u64s(&all);
    proof {
        assert forall|i: int| 0 <= i < r@.len() implies is_felt(#[trigger] r@[i]) by {
            assert(r@[i] == all@[all@.len() - 1 - i]);
        }
    }
    r
}

/// A Falcon512 secret key held as its canonical byte encoding.
#[derive(Clone, Debug)]
pub struct FalconKey {
    pub bytes: Vec<u8>,
}

impl FalconKey {
    /// The encoding has the canonical length and decodes as a key.
    pub open spec fn wf(&self) -> bool {
        &&& self.bytes@.len() == FALCON_KEY_LENGTH
        &&& falcon_key_bytes_ok(self.bytes@)
    }

    /// The key lies inside the signing sampler's working domain. Holds of
    /// every generated key; a deserialized key's encoding cannot be tested
    /// for it, so signing with one is outside this library's verified
    /// guarantees.
    pub open spec fn signable(&self) -> bool {
        falcon_key_signable(self.bytes@)
    }

    /// Returns a key from its canonical byte encoding, or nothing when the
    /// bytes do not decode as one, or decode to a degenerate key that
    /// could never sign.
    pub fn from_bytes(bytes: Vec<u8>) -> (r: Option<FalconKey>)
        ensures
            r matches Some(k) ==> k.wf() && k.bytes@ == bytes@,
            r is Some <==> bytes@.len() == FALCON_KEY_LENGTH && falcon_key_bytes_ok(bytes@),
    {
        if bytes.len() != FALCON_KEY_LENGTH {
            return None;
        }
        if falcon_key_check(&bytes) {
            Some(FalconKey { bytes })
        } else {
            None
        }
    }

    /// Returns the key's canonical byte encoding.
    pub fn to_bytes(&self) -> (r: &Vec<u8>)
        ensures
            r@ == self.bytes@,
    {
        &self.bytes
    }
}

/// Computes the commitment under which this key's public half is known:
/// the hash of the expanded public key's coefficients.
pub fn falcon_public_key_commitment(key: &FalconKey) -> (r: Word)
    requires
        key.wf(),
    ensures
        r.wf(),
        r@ == crate::hash::rpo_hash_elements_of(falcon_pub_poly_of(key.bytes@)),
{
    let h = falcon_pub_key_poly(&key.bytes);
    proof {
        assert forall|i: int| 0 <= i < h@.len() implies is_felt(#[trigger] h@[i]) by {}
    }
    rpo_hash_elements(&h)
}

/// Generates a fresh Falcon512 signing key from the randomness source.
/// This is the one way verified code obtains a key that is known to lie
/// inside the signing sampler's working domain; keys deserialized from
/// bytes are checkably well formed but carry no such knowledge.
pub fn generate_signing_key(rng: &mut StdRng) -> (r: FalconKey)
    ensures
        r.wf(),
        r.signable(),
{
    falcon_generate_key(rng)
}

/// Generates a fresh signing key and immediately signs the message with
/// it, returning both. This is the verified end-to-end path from nothing
/// to a signature: generation establishes that the key is inside the
/// signing sampler's working domain, which signing requires; a caller
/// holding only deserialized key bytes cannot establish that and signs at
/// its own risk outside verified code.
pub fn sign_with_fresh_key(message: &Word, rng: &mut StdRng) -> (r: (FalconKey, Vec<u64>))
    ensures
        r.0.wf(),
        r.0.signable(),
        r.1@.len() == 1544,
        forall|i: int| 0 <= i < r.1@.len() ==> is_felt(#[trigger] r.1@[i]),
        exists|nonce: Seq<u64>, s2: Seq<u64>|
            {
                &&& nonce.len() == 8
                &&& s2.len() == 512
                &&& r.1@ == spec_falcon_advice(nonce, falcon_pub_poly_of(r.0.bytes@), s2)
            },
{
    let key = generate_signing_key(rng);
    let advice = match get_falcon_signature(&key, message, rng) {
        Ok(advice) => advice,
        Err(_) => {
            proof {
                assert(false);
            }
            Vec::new()
        },
    };
    (key, advice)
}

/// Produces the advice sequence for a Falcon512 signature over the message
/// under the given key: signs with the scheme's own randomness use, then
/// assembles nonce, expanded public key, signature polynomial and ring
/// product in reverse order. The key must be well formed and inside the
/// signing sampler's working domain (`signable`, which every generated key
/// is); such a key always signs. The result is 1544 canonical field
/// elements shaped as the verifying circuit expects, with the key segment
/// equal to the expanded public key of exactly the key handed in.
pub fn get_falcon_signature(key: &FalconKey, message: &Word, rng: &mut StdRng) -> (r: Result<
    Vec<u64>,
    AuthenticationError,
>)
    requires
        key.wf(),
        key.signable(),
    ensures
        r is Ok,
        r matches Ok(advice) ==> {
            &&& advice@.len() == 1544
            &&& (forall|i: int| 0 <= i < advice@.len() ==> is_felt(#[trigger] advice@[i]))
            &&& falcon_pub_poly_of(key.bytes@).len() == 512
            &&& (forall|i: int|
                0 <= i < 512 ==> #[trigger] falcon_pub_poly_of(key.bytes@)[i] < FALCON_MODULUS)
            &&& exists|nonce: Seq<u64>, s2: Seq<u64>|
                {
                    &&& nonce.len() == 8
                    &&& s2.len() == 512
                    &&& (forall|i: int| 0 <= i < 512 ==> #[trigger] s2[i] < FALCON_MODULUS)
                    &&& advice@ == spec_falcon_advice(nonce, falcon_pub_poly_of(key.bytes@), s2)
                }
        },
{
    let (nonce, h, s2, conv) = falcon_sign_full(&key.bytes, message, rng);
    proof {
        assert forall|i: int| 0 <= i < nonce@.len() implies is_felt(#[trigger] nonce@[i]) by {}
    }
    let advice = assemble_falcon_advice(&nonce, &h, &s2, &conv);
    proof {
        assert(advice@ == spec_falcon_advice(nonce@, h@, s2@));
    }
    Ok(advice)
}

} // verus!
