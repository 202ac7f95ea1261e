//! The asset container attached to a note.

use vstd::prelude::*;
use crate::errors::NoteError;
use crate::hash::{rpo_hash_elements, rpo_hash_elements_of};
use crate::word::Word;

verus! {

/// The protocol bound on the number of assets a note may carry.
pub const MAX_ASSETS_PER_NOTE: usize = 256;

/// An asset moved by a note: a fungible amount tied to a faucet account, or
/// a non-fungible unit. Protocol-level asset validity is enforced by the
/// asset collaborator; this subsystem reads an asset only through its
/// one-word encoding.
#[derive(Clone, Copy, Debug, PartialEq, Eq, Structural)]
pub struct Asset(pub Word);

impl Asset {
    /// The asset's word encoding consists of canonical field elements.
    pub open spec fn wf(&self) -> bool {
        self.0.wf()
    }
}

/// The field elements of an asset list laid end to end, the sequence over
/// which the asset commitment hashes.
pub open spec fn asset_elements(s: Seq<Asset>) -> Seq<u64>
    decreases s.len(),
{
    if s.len() == 0 {
        Seq::<u64>::empty()
    } else {
        asset_elements(s.drop_last()) + s.last().0@
    }
}

/// The validity condition of an asset list: within the protocol bound,
/// every encoding canonical, and no duplicates.
pub open spec fn spec_assets_ok(s: Seq<Asset>) -> bool {
    &&& s.len() <= MAX_ASSETS_PER_NOTE
    &&& forall|i: int| 0 <= i < s.len() ==> (#[trigger] s[i]).wf()
    &&& NoteAssets::spec_distinct(s)
}

/// An order-insensitive collection of distinct assets. Two notes that carry
/// the same assets in a different order commit to different sequences; the
/// kernel treats them as the same holdings.
#[derive(Clone, Debug)]
pub struct NoteAssets {
    pub assets: Vec<Asset>,
}

impl NoteAssets {
    /// No two equal asset words.
    pub open spec fn spec_distinct(s: Seq<Asset>) -> bool {
        forall|i: int, j: int| 0 <= i < j < s.len() ==> s[i] != s[j]
    }

    /// At most the protocol bound, every encoding canonical, and no
    /// duplicates.
    pub open spec fn wf(&self) -> bool {
        &&& self.assets@.len() <= MAX_ASSETS_PER_NOTE
        &&& forall|i: int| 0 <= i < self.assets@.len() ==> (#[trigger] self.assets@[i]).wf()
        &&& NoteAssets::spec_distinct(self.assets@)
    }

    /// Returns a new asset container, failing when the list is over the
    /// protocol bound, an encoding is not canonical, or an asset occurs
    /// twice.
    pub fn new(assets: Vec<Asset>) -> (r: Result<NoteAssets, NoteError>)
        ensures
            r matches Ok(a) ==> a.wf() && a.assets@ == assets@,
            r is Ok <==> spec_assets_ok(assets@),
            assets@.len() > MAX_ASSETS_PER_NOTE ==> r == Err::<NoteAssets, NoteError>(
                NoteError::TooManyAssets,
            ),
            assets@.len() <= MAX_ASSETS_PER_NOTE && !(forall|i: int|
                0 <= i < assets@.len() ==> (#[trigger] assets@[i]).wf()) ==> r == Err::<
                NoteAssets,
                NoteError,
            >(NoteError::NotAFieldElement),
            assets@.len() <= MAX_ASSETS_PER_NOTE && (forall|i: int|
                0 <= i < assets@.len() ==> (#[trigger] assets@[i]).wf())
                && !NoteAssets::spec_distinct(assets@) ==> r == Err::<NoteAssets, NoteError>(
                NoteError::DuplicateAsset,
            ),
    {
        if assets.len() > MAX_ASSETS_PER_NOTE {
            return Err(NoteError::TooManyAssets);
        }
        let n = assets.len();
        let mut i: usize = 0;
        while i < n
            invariant
                n == assets@.len(),
                n <= MAX_ASSETS_PER_NOTE,
                i <= n,
                forall|j: int| 0 <= j < i ==> (#[trigger] assets@[j]).wf(),
            decreases n - i,
        {
            let a = assets[i];
            if a.0.0 >= crate::FIELD_MODULUS || a.0.1 >= crate::FIELD_MODULUS || a.0.2
                >= crate::FIELD_MODULUS || a.0.3 >= crate::FIELD_MODULUS {
                return Err(NoteError::NotAFieldElement);
            }
            i += 1;
        }
        let mut i: usize = 0;
        while i < n
            invariant
                n == assets@.len(),
                n <= MAX_ASSETS_PER_NOTE,
                i <= n,
                forall|j: int| 0 <= j < n ==> (#[trigger] assets@[j]).wf(),
                forall|p: int, q: int| 0 <= p < q < assets@.len() && p < i ==> assets@[p]
                    != assets@[q],
            decreases n - i,
        {
            let mut j: usize = i + 1;
            while j < n
                invariant
                    n == assets@.len(),
                    n <= MAX_ASSETS_PER_NOTE,
                    i < n,
                    i + 1 <= j <= n,
                    forall|k: int| 0 <= k < n ==> (#[trigger] assets@[k]).wf(),
                    forall|q: int| i < q < j ==> assets@[i as int] != assets@[q],
                decreases n - j,
            {
                if assets[i] == assets[j] {
                    return Err(NoteError::DuplicateAsset);
                }
                j += 1;
            }
            i += 1;
        }
        Ok(NoteAssets { assets })
    }

    /// Returns the number of assets.
    pub fn num_assets(&self) -> (r: usize)
        ensures
            r == self.assets@.len(),
    {
        self.assets.len()
    }

    /// Returns the assets.
    pub fn assets(&self) -> (r: &Vec<Asset>)
        ensures
            r@ == self.assets@,
    {
        &self.assets
    }

    /// The commitment to the asset container: the hash over the assets'
    /// word encodings laid end to end.
    pub open spec fn spec_commitment(&self) -> Seq<u64> {
        rpo_hash_elements_of(asset_elements(self.assets@))
    }

    /// Returns the commitment to the asset container.
    pub fn commitment(&self) -> (r: Word)
        requires
            self.wf(),
        ensures
            r.wf(),
            r@ == self.spec_commitment(),
    {
        let n = self.assets.len();
        let mut elems: Vec<u64> = Vec::new();
        let mut i: usize = 0;
        while i < n
            invariant
                n == self.assets@.len(),
                i <= n,
                self.wf(),
                elems@ == asset_elements(self.assets@.take(i as int)),
                forall|k: int| 0 <= k < elems@.len() ==> crate::is_felt(#[trigger] elems@[k]),
            decreases n - i,
        {
            let a = self.assets[i];
            elems.push(a.0.0);
            elems.push(a.0.1);
            elems.push(a.0.2);
            elems.push(a.0.3);
            proof {
                assert(self.assets@.take(i + 1).drop_last() =~= self.assets@.take(i as int));
                assert(self.assets@.take(i + 1).last() == self.assets@[i as int]);
                assert(elems@ =~= asset_elements(self.assets@.take(i + 1)));
            }
            i += 1;
        }
        proof {
            assert(self.assets@.take(n as int) =~= self.assets@);
        }
        rpo_hash_elements(&elems)
    }
}

} // verus!
