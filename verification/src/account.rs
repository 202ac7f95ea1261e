//! Account identities as this subsystem reads them.

use vstd::prelude::*;
use crate::is_felt;

verus! {

/// An account's identity: a single field element.
///
/// The two most significant bits encode the account's type and are not
/// interpreted here; bit 61 records the account's storage mode: when it is
/// set, the account's state is tracked on chain and network executors can
/// operate on notes addressed to it.
#[derive(Clone, Copy, Debug, PartialEq, Eq, Structural)]
pub struct AccountId(pub u64);

impl AccountId {
    /// The identifier is a canonical field element.
    pub open spec fn wf(&self) -> bool {
        is_felt(self.0)
    }

    /// The account's state is tracked on chain (bit 61 of the identifier).
    pub open spec fn spec_is_on_chain(&self) -> bool {
        self.0 & 0x2000_0000_0000_0000 != 0
    }

    /// Returns a new identifier, failing when the value is not a canonical
    /// field element.
    pub fn new(id: u64) -> (r: Result<AccountId, crate::NoteError>)
        ensures
            r matches Ok(a) ==> a == (AccountId(id)) && a.wf(),
            r is Err <==> !is_felt(id),
            r matches Err(e) ==> e == crate::NoteError::NotAFieldElement,
    {
        if id < crate::FIELD_MODULUS {
            Ok(AccountId(id))
        } else {
            Err(crate::NoteError::NotAFieldElement)
        }
    }

    /// Whether the account's state is tracked on chain.
    pub fn is_on_chain(&self) -> (r: bool)
        ensures
            r == self.spec_is_on_chain(),
    {
        self.0 & 0x2000_0000_0000_0000 != 0
    }
}

} // verus!
