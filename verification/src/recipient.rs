//! The note recipient: the secret preimage that unlocks a note.

use vstd::prelude::*;
use crate::hash::{rpo_merge, rpo_merge_of, rpo_hash_elements_of};
use crate::inputs::NoteInputs;
use crate::script::NoteScript;
use crate::word::Word;

verus! {

/// The digest of a recipient: a three-level hash chain binding the serial
/// number, the script hash and the input commitment without revealing any
/// of them individually. Whoever can reconstruct this digest can compute
/// the note's nullifier, so the digest is exactly the secret required to
/// consume the note.
pub open spec fn spec_recipient_digest(
    serial_num: Seq<u64>,
    script_root: Seq<u64>,
    input_values: Seq<u64>,
) -> Seq<u64> {
    rpo_merge_of(
        rpo_merge_of(rpo_merge_of(serial_num, (Word(0u64, 0u64, 0u64, 0u64))@), script_root),
        rpo_hash_elements_of(input_values),
    )
}

/// The triple `(serial_number, script, inputs)`: everything a consumer must
/// know to execute a note, bound into one digest.
#[derive(Clone, Debug)]
pub struct NoteRecipient {
    pub serial_num: Word,
    pub script: NoteScript,
    pub inputs: NoteInputs,
}

impl NoteRecipient {
    /// Serial number, script and inputs are all well formed.
    pub open spec fn wf(&self) -> bool {
        &&& self.serial_num.wf()
        &&& self.script.wf()
        &&& self.inputs.wf()
    }

    /// The digest of this recipient.
    pub open spec fn spec_digest(&self) -> Seq<u64> {
        spec_recipient_digest(self.serial_num@, self.script.root@, self.inputs.values@)
    }

    /// Returns a new recipient. Construction is pure and always succeeds;
    /// validation happened when the parts were built.
    pub fn new(serial_num: Word, script: NoteScript, inputs: NoteInputs) -> (r: NoteRecipient)
        ensures
            r.serial_num == serial_num,
            r.script == script,
            r.inputs == inputs,
    {
        NoteRecipient { serial_num, script, inputs }
    }

    /// Returns the serial number, the blinding secret of the recipient.
    pub fn serial_num(&self) -> (r: Word)
        ensures
            r == self.serial_num,
    {
        self.serial_num
    }

    /// Returns the script.
    pub fn script(&self) -> (r: &NoteScript)
        ensures
            r == self.script,
    {
        &self.script
    }

    /// Returns the inputs.
    pub fn inputs(&self) -> (r: &NoteInputs)
        ensures
            r == self.inputs,
    {
        &self.inputs
    }

    /// Computes the recipient's digest: the serial number hashed with the
    /// empty word, then with the script hash, then with the input
    /// commitment.
    pub fn digest(&self) -> (r: Word)
        requires
            self.wf(),
        ensures
            r.wf(),
            r@ == self.spec_digest(),
    {
        let serial_num_hash = rpo_merge(&self.serial_num, &Word::empty());
        let merge_script = rpo_merge(&serial_num_hash, &self.script.root);
        rpo_merge(&merge_script, &self.inputs.commitment())
    }
}

} // verus!
