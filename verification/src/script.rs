//! Note scripts: the content-addressed executable fragment that states the
//! conditions under which a note may be consumed.
//!
//! Compiling script source into an executable code block is the assembler
//! collaborator's work and happens outside this library; a `NoteScript`
//! value carries the compiled code together with its content hash, which is
//! the script's identity in every commitment.

use vstd::prelude::*;
use crate::errors::NoteError;
use crate::word::Word;

verus! {

/// A compiled note script: its content hash (the identity that enters the
/// recipient digest) and the compiled code bytes.
#[derive(Clone, Debug)]
pub struct NoteScript {
    pub root: Word,
    pub code: Vec<u8>,
}

impl NoteScript {
    /// The root is a digest of canonical field elements and the code's
    /// length fits the wire format's 32-bit length prefix.
    pub open spec fn wf(&self) -> bool {
        &&& self.root.wf()
        &&& self.code@.len() < 0x1_0000_0000
    }

    /// Returns a new script from its content hash and compiled code,
    /// failing when the hash is not made of canonical field elements or the
    /// code is too long for the wire format.
    pub fn new(root: Word, code: Vec<u8>) -> (r: Result<NoteScript, NoteError>)
        ensures
            r matches Ok(s) ==> s.wf() && s.root == root && s.code@ == code@,
            r is Ok <==> root.wf() && code@.len() < 0x1_0000_0000,
            !root.wf() ==> r == Err::<NoteScript, NoteError>(NoteError::NotAFieldElement),
            root.wf() && code@.len() >= 0x1_0000_0000 ==> r == Err::<NoteScript, NoteError>(
                NoteError::ScriptTooLong,
            ),
    {
        if root.0 >= crate::FIELD_MODULUS || root.1 >= crate::FIELD_MODULUS || root.2
            >= crate::FIELD_MODULUS || root.3 >= crate::FIELD_MODULUS {
            return Err(NoteError::NotAFieldElement);
        }
        if code.len() as u64 >= 0x1_0000_0000u64 {
            return Err(NoteError::ScriptTooLong);
        }
        Ok(NoteScript { root, code })
    }

    /// Returns the script's content hash.
    pub fn hash(&self) -> (r: Word)
        ensures
            r == self.root,
    {
        self.root
    }

    /// Returns the compiled code bytes.
    pub fn code(&self) -> (r: &Vec<u8>)
        ensures
            r@ == self.code@,
    {
        &self.code
    }
}

} // verus!
