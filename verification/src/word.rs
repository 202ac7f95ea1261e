//! Words: groups of four field elements, the unit in which the ledger's
//! hash function produces digests and in which assets are encoded.

use vstd::prelude::*;
use crate::is_felt;

verus! {

/// A word: four field elements. Digests, serial numbers, asset encodings and
/// public-key commitments are all words.
#[derive(Clone, Copy, Debug, PartialEq, Eq, Structural)]
pub struct Word(pub u64, pub u64, pub u64, pub u64);

impl View for Word {
    type V = Seq<u64>;

    open spec fn view(&self) -> Seq<u64> {
        seq![self.0, self.1, self.2, self.3]
    }
}

impl Word {
    /// All four elements are canonical field elements.
    pub open spec fn wf(&self) -> bool {
        is_felt(self.0) && is_felt(self.1) && is_felt(self.2) && is_felt(self.3)
    }

    /// The all-zero word, used to pad the first level of the recipient's
    /// hash chain.
    pub fn empty() -> (r: Word)
        ensures
            r.wf(),
            r == (Word(0u64, 0u64, 0u64, 0u64)),
    {
        Word(0, 0, 0, 0)
    }
}

} // verus!
