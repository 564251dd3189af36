//! Identities of the participants, as the hosting runtime names accounts.

use vstd::prelude::*;

verus! {

/// An account name. The pool only ever compares identities for equality,
/// so the name's characters are the whole of its meaning; the view of an
/// `AccountId` is that character sequence.
#[derive(Debug)]
pub struct AccountId {
    id: String,
}

impl View for AccountId {
    type V = Seq<char>;

    closed spec fn view(&self) -> Seq<char> {
        self.id@
    }
}

impl AccountId {
    pub fn new(id: String) -> (r: AccountId)
        ensures
            r@ == id@,
    {
        AccountId { id }
    }

    /// The account's name, for display and for the runtime's own account type.
    pub fn name(&self) -> (r: &String)
        ensures
            r@ == self@,
    {
        &self.id
    }
}

impl Clone for AccountId {
    fn clone(&self) -> (r: AccountId)
        ensures
            r@ == self@,
    {
        AccountId { id: self.id.clone() }
    }
}

impl PartialEq for AccountId {
    fn eq(&self, other: &AccountId) -> bool {
        self.id == other.id
    }
}

impl vstd::std_specs::cmp::PartialEqSpecImpl for AccountId {
    open spec fn obeys_eq_spec() -> bool {
        true
    }

    open spec fn eq_spec(&self, other: &AccountId) -> bool {
        self@ == other@
    }
}

} // verus!
