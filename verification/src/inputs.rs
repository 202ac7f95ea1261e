//! Note inputs: the field elements that customize a note script's
//! behavior.

use vstd::prelude::*;
use crate::errors::NoteError;
use crate::hash::{rpo_hash_elements, rpo_hash_elements_of};
use crate::is_felt;
use crate::word::Word;

verus! {

/// The protocol bound on the number of input elements a note may carry.
pub const MAX_INPUTS_PER_NOTE: usize = 128;

/// An ordered sequence of field elements handed to the note's script when
/// the note is consumed.
#[derive(Clone, Debug)]
pub struct NoteInputs {
    pub values: Vec<u64>,
}

impl NoteInputs {
    /// At most the protocol bound, and every value a canonical field
    /// element.
    pub open spec fn wf(&self) -> bool {
        &&& self.values@.len() <= MAX_INPUTS_PER_NOTE
        &&& forall|i: int| 0 <= i < self.values@.len() ==> is_felt(#[trigger] self.values@[i])
    }

    /// Returns new note inputs, failing when the list is over the protocol
    /// bound or a value is not a canonical field element.
    pub fn new(values: Vec<u64>) -> (r: Result<NoteInputs, NoteError>)
        ensures
            r matches Ok(inputs) ==> inputs.wf() && inputs.values@ == values@,
            r is Ok <==> values@.len() <= MAX_INPUTS_PER_NOTE && (forall|i: int|
                0 <= i < values@.len() ==> is_felt(#[trigger] values@[i])),
            values@.len() > MAX_INPUTS_PER_NOTE ==> r == Err::<NoteInputs, NoteError>(
                NoteError::TooManyInputs,
            ),
            values@.len() <= MAX_INPUTS_PER_NOTE && r is Err ==> r == Err::<NoteInputs, NoteError>(
                NoteError::NotAFieldElement,
            ),
    {
        if values.len() > MAX_INPUTS_PER_NOTE {
            return Err(NoteError::TooManyInputs);
        }
        let mut i: usize = 0;
        while i < values.len()
            invariant
                i <= values@.len(),
                values@.len() <= MAX_INPUTS_PER_NOTE,
                forall|j: int| 0 <= j < i ==> is_felt(#[trigger] values@[j]),
            decreases values@.len() - i,
        {
            if values[i] >= crate::FIELD_MODULUS {
                return Err(NoteError::NotAFieldElement);
            }
            i += 1;
        }
        Ok(NoteInputs { values })
    }

    /// Returns the number of input elements.
    pub fn num_values(&self) -> (r: usize)
        ensures
            r == self.values@.len(),
    {
        self.values.len()
    }

    /// Returns the input elements.
    pub fn values(&self) -> (r: &Vec<u64>)
        ensures
            r@ == self.values@,
    {
        &self.values
    }

    /// The commitment to these inputs: the hash of the value sequence.
    pub open spec fn spec_commitment(&self) -> Seq<u64> {
        rpo_hash_elements_of(self.values@)
    }

    /// Returns the commitment to these inputs.
    pub fn commitment(&self) -> (r: Word)
        requires
            self.wf(),
        ensures
            r.wf(),
            r@ == self.spec_commitment(),
    {
        rpo_hash_elements(&self.values)
    }
}

} // verus!
