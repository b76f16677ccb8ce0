//! Access paths: the keys of the state store.

use crate::account_address::AccountAddress;
use vstd::prelude::*;

verus! {

/// What an access path is, as a value: whose entry it names, and which entry
/// of theirs.
pub struct AccessPathView {
    pub address: AccountAddress,
    pub path: Seq<u8>,
}

/// The key of one entry of the state store.
#[derive(Debug)]
pub struct AccessPath {
    pub address: AccountAddress,
    pub path: Vec<u8>,
}

impl View for AccessPath {
    type V = AccessPathView;

    open spec fn view(&self) -> AccessPathView {
        AccessPathView { address: self.address, path: self.path@ }
    }
}

/// The path component under which every account keeps its account resource:
/// the tag of a resource entry, then the name of the resource.
pub open spec fn account_resource_path() -> Seq<u8> {
    seq![1u8, 0x41u8, 0x63u8, 0x63u8, 0x6fu8, 0x75u8, 0x6eu8, 0x74u8]
}

/// The key of the account resource of `address`.
pub open spec fn account_path(address: AccountAddress) -> AccessPathView {
    AccessPathView { address, path: account_resource_path() }
}

impl Clone for AccessPath {
    fn clone(&self) -> (copy: Self)
        ensures
            copy@ == self@,
    {
        AccessPath { address: self.address, path: self.path.clone() }
    }
}

impl PartialEq for AccessPath {
    fn eq(&self, other: &Self) -> (equal: bool) {
        proof {
            self.address.lemma_view(other.address);
        }
        if self.address != other.address {
            return false;
        }
        if self.path.len() != other.path.len() {
            return false;
        }
        let mut i: usize = 0;
        while i < self.path.len()
            invariant
                i <= self.path.len(),
                self.path.len() == other.path.len(),
                forall|j: int| 0 <= j < i ==> self.path@[j] == other.path@[j],
            decreases self.path.len() - i,
        {
            if self.path[i] != other.path[i] {
                return false;
            }
            i += 1;
        }
        assert(self.path@ =~= other.path@);
        true
    }
}

impl Eq for AccessPath {

}

impl vstd::std_specs::cmp::PartialEqSpecImpl for AccessPath {
    open spec fn obeys_eq_spec() -> bool {
        true
    }

    open spec fn eq_spec(&self, other: &Self) -> bool {
        self@ == other@
    }
}

impl AccessPath {
    /// The key of the entry `path` of `address`.
    pub fn new(address: AccountAddress, path: Vec<u8>) -> (access_path: Self)
        ensures
            access_path@ == (AccessPathView { address, path: path@ }),
    {
        AccessPath { address, path }
    }

    /// The key of the account resource of `address`.
    pub fn new_for_account(address: AccountAddress) -> (access_path: Self)
        ensures
            access_path@ == account_path(address),
    {
        let path: Vec<u8> = vec![1u8, 0x41u8, 0x63u8, 0x63u8, 0x6fu8, 0x75u8, 0x6eu8, 0x74u8];
        AccessPath { address, path }
    }

    /// Whether this is the key of an account resource.
    pub fn is_account_path(&self) -> (yes: bool)
        ensures
            yes == (self@ == account_path(self.address)),
    {
        let account = AccessPath::new_for_account(self.address);
        *self == account
    }
}

/// The account resources of two accounts lie under two keys, and one
/// account's key is the same whenever it is made.
pub proof fn lemma_account_paths_apart(a: AccountAddress, b: AccountAddress)
    ensures
        account_path(a) == account_path(b) <==> a == b,
{
}

} // verus!
