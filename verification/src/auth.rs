//! The transaction authenticator: the abstraction that turns a signature
//! request from the ledger's virtual machine into a VM-consumable advice
//! sequence, and its map-backed default implementation.

use vstd::prelude::*;
use rand::rngs::StdRng;
use crate::codec::{read_bytes, read_u8, spec_parse_bytes, spec_parse_u8, spec_ser_u8, write_u8,
    write_bytes};
use crate::errors::{AuthenticationError, DeserializationError};
use crate::falcon::{falcon_key_bytes_ok, get_falcon_signature, FalconKey, FALCON_KEY_LENGTH};
use crate::rng::rng_from_entropy;
use crate::word::Word;

verus! {

/// A summary of the changes a transaction makes to an account, handed to
/// an authenticator with every signature request so that it can review
/// pending alterations before signing. It is informational only: no
/// authenticator folds it into the cryptographic computation, and no
/// contract in this module mentions it.
pub struct AccountDelta {}

impl AccountDelta {
    /// Returns an empty delta summary.
    pub fn new() -> AccountDelta {
        AccountDelta {  }
    }
}

/// A secret key under one of the supported signature schemes: a closed,
/// versioned union. Each variant owns its key material exclusively; a new
/// scheme is added as a new variant with a new wire discriminant, never by
/// changing an existing one.
#[derive(Clone, Debug)]
pub enum AuthSecretKey {
    /// A Falcon512 key over the RPO hash.
    RpoFalcon512(FalconKey),
}

impl AuthSecretKey {
    /// The key material is well formed.
    pub open spec fn wf(&self) -> bool {
        match self {
            AuthSecretKey::RpoFalcon512(key) => key.wf(),
        }
    }

    /// The wire discriminant of this key's scheme.
    pub open spec fn spec_key_id(&self) -> u8 {
        match self {
            AuthSecretKey::RpoFalcon512(_) => 0u8,
        }
    }

    /// Identifier for the type of authentication key.
    pub fn key_id(&self) -> (r: u8)
        ensures
            r == self.spec_key_id(),
    {
        match self {
            AuthSecretKey::RpoFalcon512(_) => 0u8,
        }
    }

    /// The key's byte encoding, without the scheme discriminant.
    pub open spec fn spec_key_bytes(&self) -> Seq<u8> {
        match self {
            AuthSecretKey::RpoFalcon512(key) => key.bytes@,
        }
    }

    /// The key lies inside its scheme's signing working domain. Holds of
    /// every generated key; deserialization cannot test it.
    pub open spec fn signable(&self) -> bool {
        match self {
            AuthSecretKey::RpoFalcon512(key) => key.signable(),
        }
    }
}

/// A serialized secret key: the scheme discriminant, then the scheme's own
/// key encoding.
pub open spec fn spec_ser_auth_key(k: AuthSecretKey) -> Seq<u8> {
    spec_ser_u8(k.spec_key_id()) + k.spec_key_bytes()
}

/// The secret key a whole byte string holds, if any: a known scheme
/// discriminant, a decodable key of that scheme, and nothing left over.
pub open spec fn spec_parse_auth_key(s: Seq<u8>) -> Option<Seq<u8>> {
    match spec_parse_u8(s, 0) {
        None => None,
        Some((id, i)) => if id != 0u8 {
            None
        } else {
            match spec_parse_bytes(s, i, FALCON_KEY_LENGTH as nat) {
                None => None,
                Some((kb, j)) => if falcon_key_bytes_ok(kb) && j == s.len() {
                    Some(kb)
                } else {
                    None
                },
            }
        },
    }
}

/// Serializes a secret key: one discriminant byte, then the key's own
/// encoding.
pub fn auth_key_to_bytes(k: &AuthSecretKey) -> (r: Vec<u8>)
    ensures
        r@ == spec_ser_auth_key(*k),
{
    let mut out: Vec<u8> = Vec::new();
    write_u8(&mut out, k.key_id());
    match k {
        AuthSecretKey::RpoFalcon512(key) => {
            write_bytes(&mut out, &key.bytes);
        },
    }
    assert(out@ =~= spec_ser_auth_key(*k));
    out
}

/// Deserializes a secret key. Fails exactly when the discriminant is
/// unknown, the key bytes do not decode under the named scheme, or bytes
/// are missing or left over — with the variant pinned to the cause: an
/// unknown discriminant is surfaced in `InvalidValue`, a short buffer is
/// `UnexpectedEnd`, leftover bytes are `TrailingBytes`, and key bytes that
/// do not decode surface the scheme discriminant they failed under.
pub fn auth_key_from_bytes(bytes: &Vec<u8>) -> (r: Result<AuthSecretKey, DeserializationError>)
    ensures
        r matches Ok(k) ==> k.wf() && spec_parse_auth_key(bytes@) == Some(k.spec_key_bytes())
            && k is RpoFalcon512,
        r is Err <==> spec_parse_auth_key(bytes@) is None,
        bytes@.len() == 0 ==> r == Err::<AuthSecretKey, DeserializationError>(
            DeserializationError::UnexpectedEnd,
        ),
        bytes@.len() >= 1 && bytes@[0] != 0 ==> r == Err::<AuthSecretKey, DeserializationError>(
            DeserializationError::InvalidValue(bytes@[0] as u64),
        ),
        bytes@.len() >= 1 && bytes@[0] == 0 && bytes@.len() < 1 + FALCON_KEY_LENGTH ==> r
            == Err::<AuthSecretKey, DeserializationError>(DeserializationError::UnexpectedEnd),
        bytes@.len() > 1 + FALCON_KEY_LENGTH && bytes@[0] == 0 ==> r == Err::<
            AuthSecretKey,
            DeserializationError,
        >(DeserializationError::TrailingBytes),
        bytes@.len() == 1 + FALCON_KEY_LENGTH && bytes@[0] == 0 && !falcon_key_bytes_ok(
            bytes@.subrange(1, 1 + FALCON_KEY_LENGTH as int),
        ) ==> r == Err::<AuthSecretKey, DeserializationError>(DeserializationError::InvalidValue(
            0,
        )),
{
    let (id, p1) = match read_u8(bytes, 0) {
        Some(v) => v,
        None => {
            return Err(DeserializationError::UnexpectedEnd);
        },
    };
    if id != 0 {
        return Err(DeserializationError::InvalidValue(id as u64));
    }
    let (kb, p2) = match read_bytes(bytes, p1, FALCON_KEY_LENGTH) {
        Some(v) => v,
        None => {
            return Err(DeserializationError::UnexpectedEnd);
        },
    };
    if p2 != bytes.len() {
        return Err(DeserializationError::TrailingBytes);
    }
    match FalconKey::from_bytes(kb) {
        Some(key) => Ok(AuthSecretKey::RpoFalcon512(key)),
        None => Err(DeserializationError::InvalidValue(id as u64)),
    }
}

/// The round trip of the key format, for every supported scheme variant:
/// parsing the serialization of a well-formed secret key recovers exactly
/// the key's bytes.
pub proof fn lemma_auth_key_round_trip(k: AuthSecretKey)
    requires
        k.wf(),
    ensures
        spec_parse_auth_key(spec_ser_auth_key(k)) == Some(k.spec_key_bytes()),
{
    let s = spec_ser_auth_key(k);
    assert(s[0] == k.spec_key_id());
    assert(s.subrange(1, 1 + FALCON_KEY_LENGTH) =~= k.spec_key_bytes());
}

/// An authenticator for transactions: asked for a signature over a message
/// under one of the public keys it manages, it answers with the advice
/// sequence the verifying circuit consumes, or refuses. The account delta
/// is handed along for policy review only.
///
/// The request mutates the authenticator because signing draws from its
/// randomness source; an implementation without one may ignore that.
pub trait TransactionAuthenticator {
    /// The authenticator is in a state fit to answer requests. What that
    /// takes is the implementation's own affair: the map-backed
    /// authenticator asks that its held keys be well formed and inside
    /// their scheme's signing domain; the rejecting authenticator asks
    /// nothing.
    spec fn ready(&self) -> bool;

    /// Retrieves a signature over the message as a sequence of field
    /// elements, or refuses.
    fn get_signature(
        &mut self,
        pub_key: Word,
        message: Word,
        account_delta: &AccountDelta,
    ) -> Result<Vec<u64>, AuthenticationError>
        requires
            old(self).ready(),
    ;
}

/// The map-backed authenticator: a fixed set of keys, looked up by the
/// digest of the public key, and one exclusively owned randomness source
/// drawn from at signing time. The key set never changes after
/// construction; only the randomness source's state does. Exclusive
/// ownership of the source enforces the single-writer discipline a
/// randomness source demands: two signing operations can never be in
/// flight against the same source, so drawing can never corrupt state.
pub struct BasicAuthenticator {
    keys: Vec<(Word, AuthSecretKey)>,
    rng: StdRng,
}

impl BasicAuthenticator {
    /// The key pairs held.
    pub closed spec fn spec_keys(&self) -> Seq<(Word, AuthSecretKey)> {
        self.keys@
    }

    /// Every held key is well formed.
    pub open spec fn wf(&self) -> bool {
        forall|i: int| 0 <= i < self.spec_keys().len() ==> (#[trigger] self.spec_keys()[i]).1.wf()
    }

    /// Every held key lies inside its scheme's signing working domain.
    /// Generated keys carry this by construction; for deserialized keys it
    /// cannot be established, and signing with them is outside this
    /// library's verified guarantees.
    pub open spec fn spec_keys_signable(&self) -> bool {
        forall|i: int|
            0 <= i < self.spec_keys().len() ==> (#[trigger] self.spec_keys()[i]).1.signable()
    }

    /// Whether a public key is among the held keys.
    pub open spec fn spec_has_key(&self, pub_key: Word) -> bool {
        exists|i: int| 0 <= i < self.spec_keys().len() && (#[trigger] self.spec_keys()[i]).0
            == pub_key
    }

    /// Returns an authenticator over the given key pairs, with a
    /// randomness source seeded from operating-system entropy.
    pub fn new(keys: Vec<(Word, AuthSecretKey)>) -> (r: BasicAuthenticator)
        ensures
            r.spec_keys() == keys@,
    {
        BasicAuthenticator::new_with_rng(keys, rng_from_entropy())
    }

    /// Returns an authenticator over the given key pairs and the given
    /// randomness source. The pairs are held as given; when a public key
    /// occurs more than once, lookups use the later entry.
    pub fn new_with_rng(keys: Vec<(Word, AuthSecretKey)>, rng: StdRng) -> (r: BasicAuthenticator)
        ensures
            r.spec_keys() == keys@,
    {
        BasicAuthenticator { keys, rng }
    }

    /// Returns the position of a public key among the held pairs, if any:
    /// the last matching entry.
    fn find_index(held: &Vec<(Word, AuthSecretKey)>, pub_key: &Word) -> (r: Option<usize>)
        ensures
            r matches Some(at) ==> at < held@.len() && held@[at as int].0 == pub_key && (forall|
                q: int,
            | at < q < held@.len() ==> (#[trigger] held@[q]).0 != pub_key),
            r is None ==> forall|q: int| 0 <= q < held@.len() ==> (#[trigger] held@[q]).0
                != pub_key,
    {
        let n = held.len();
        let mut i: usize = n;
        while i > 0
            invariant
                n == held@.len(),
                i <= n,
                forall|q: int| i <= q < n ==> (#[trigger] held@[q]).0 != pub_key,
            decreases i,
        {
            i -= 1;
            if held[i].0 == *pub_key {
                return Some(i);
            }
        }
        None
    }

    /// The number of keys held.
    pub fn num_keys(&self) -> (r: usize)
        ensures
            r == self.spec_keys().len(),
    {
        self.keys.len()
    }

    /// Gets a signature over a message, given a public key.
    ///
    /// Fails with `UnknownKey` exactly when the public key is not among
    /// the held keys; every request for a held key succeeds. On success
    /// the answer is a 1544-element Falcon512 advice sequence of canonical
    /// field elements, shaped as `spec_falcon_advice` describes, whose key
    /// segment is the expanded public key of the last held entry under the
    /// requested public key. The account delta takes no part in the
    /// computation: no clause below depends on it. The held keys never
    /// change; only the randomness source's state does.
    pub fn get_signature(
        &mut self,
        pub_key: Word,
        message: Word,
        account_delta: &AccountDelta,
    ) -> (r: Result<Vec<u64>, AuthenticationError>)
        requires
            old(self).wf(),
            old(self).spec_keys_signable(),
        ensures
            final(self).spec_keys() == old(self).spec_keys(),
            r is Ok <==> old(self).spec_has_key(pub_key),
            r is Err ==> r == Err::<Vec<u64>, AuthenticationError>(AuthenticationError::UnknownKey),
            r matches Ok(advice) ==> {
                &&& advice@.len() == 1544
                &&& (forall|i: int| 0 <= i < advice@.len() ==> crate::is_felt(
                    #[trigger] advice@[i],
                ))
                &&& exists|at: int|
                    {
                        &&& 0 <= at < old(self).spec_keys().len()
                        &&& (#[trigger] old(self).spec_keys()[at]).0 == pub_key
                        &&& (forall|q: int|
                            at < q < old(self).spec_keys().len() ==> (#[trigger] old(
                                self,
                            ).spec_keys()[q]).0 != pub_key)
                        &&& exists|nonce: Seq<u64>, s2: Seq<u64>|
                            {
                                &&& nonce.len() == 8
                                &&& s2.len() == 512
                                &&& advice@ == crate::falcon::spec_falcon_advice(
                                    nonce,
                                    crate::falcon::falcon_pub_poly_of(
                                        old(self).spec_keys()[at].1.spec_key_bytes(),
                                    ),
                                    s2,
                                )
                            }
                    }
            },
    {
        let at = match Self::find_index(&self.keys, &pub_key) {
            Some(at) => at,
            None => {
                return Err(AuthenticationError::UnknownKey);
            },
        };
        let ghost ks = old(self).spec_keys();
        let result = match &self.keys[at].1 {
            AuthSecretKey::RpoFalcon512(falcon_key) => {
                let r0 = get_falcon_signature(falcon_key, &message, &mut self.rng);
                proof {
                    assert(ks[at as int].1.spec_key_bytes() == falcon_key.bytes@);
                    if r0 is Ok {
                        let advice_view = r0->Ok_0@;
                        let (n0, s20) = choose|nonce: Seq<u64>, s2: Seq<u64>|
                            {
                                &&& nonce.len() == 8
                                &&& s2.len() == 512
                                &&& (forall|i: int|
                                    0 <= i < 512 ==> #[trigger] s2[i]
                                        < crate::falcon::FALCON_MODULUS)
                                &&& advice_view == crate::falcon::spec_falcon_advice(
                                    nonce,
                                    crate::falcon::falcon_pub_poly_of(falcon_key.bytes@),
                                    s2,
                                )
                            };
                        assert(advice_view == crate::falcon::spec_falcon_advice(
                            n0,
                            crate::falcon::falcon_pub_poly_of(ks[at as int].1.spec_key_bytes()),
                            s20,
                        ));
                    }
                }
                r0
            },
        };
        match result {
            Ok(advice) => Ok(advice),
            Err(_) => {
                proof {
                    assert(false);
                }
                Err(AuthenticationError::UnknownKey)
            },
        }
    }
}

impl TransactionAuthenticator for BasicAuthenticator {
    /// Fit to answer when every held key is well formed and signable.
    open spec fn ready(&self) -> bool {
        self.wf() && self.spec_keys_signable()
    }

    /// Answers through the authenticator's own signing routine.
    fn get_signature(
        &mut self,
        pub_key: Word,
        message: Word,
        account_delta: &AccountDelta,
    ) -> Result<Vec<u64>, AuthenticationError> {
        self.get_signature(pub_key, message, account_delta)
    }
}

/// The rejecting authenticator: systems that never need interactive
/// signing opt out with it instead of a null check at every call site.
/// Every request fails with `RejectedSignature`.
pub struct RejectingAuthenticator {}

impl RejectingAuthenticator {
    /// Declines every request: the answer is always `RejectedSignature`,
    /// whatever the key, the message or the delta.
    pub fn get_signature(
        &mut self,
        pub_key: Word,
        message: Word,
        account_delta: &AccountDelta,
    ) -> (r: Result<Vec<u64>, AuthenticationError>)
        ensures
            r == Err::<Vec<u64>, AuthenticationError>(AuthenticationError::RejectedSignature),
    {
        Err(AuthenticationError::RejectedSignature)
    }
}

impl TransactionAuthenticator for RejectingAuthenticator {
    /// Fit to answer in any state: it refuses regardless.
    open spec fn ready(&self) -> bool {
        true
    }

    /// Answers through the authenticator's own contracted refusal.
    fn get_signature(
        &mut self,
        pub_key: Word,
        message: Word,
        account_delta: &AccountDelta,
    ) -> Result<Vec<u64>, AuthenticationError> {
        self.get_signature(pub_key, message, account_delta)
    }
}

} // verus!
