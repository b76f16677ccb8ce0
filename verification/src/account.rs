//! The account resource, the record that the ledger keeps of each account, and
//! its encoding as the blob that the state store holds.

use crate::access_path::{account_path, AccessPath};
use crate::account_address::{AccountAddress, AuthenticationKey};
use vstd::bytes::{
    lemma_auto_spec_u64_to_from_le_bytes, spec_u64_from_le_bytes, spec_u64_to_le_bytes,
    u64_from_le_bytes, u64_to_le_bytes,
};
use vstd::prelude::*;
use vstd::slice::slice_subrange;

verus! {

/// The tag that every encoded account resource starts with.
pub const RESOURCE_VERSION: u8 = 1;

/// The length of every encoded account resource.
pub const ENCODED_RESOURCE_LENGTH: usize = 49;

/// What an account resource is, as a value.
pub struct AccountResourceView {
    pub balance: u64,
    pub sequence_number: u64,
    pub authentication_key: Seq<u8>,
}

/// The record of one account.
#[derive(Clone, Copy, Debug)]
pub struct AccountResource {
    pub balance: u64,
    pub sequence_number: u64,
    pub authentication_key: AuthenticationKey,
}

impl View for AccountResource {
    type V = AccountResourceView;

    open spec fn view(&self) -> AccountResourceView {
        AccountResourceView {
            balance: self.balance,
            sequence_number: self.sequence_number,
            authentication_key: self.authentication_key@,
        }
    }
}

/// Why a blob is not an account resource.
#[derive(Clone, Copy, Debug, PartialEq, Eq, Structural)]
pub enum DecodeError {
    /// The blob has not the length of an encoded resource.
    WrongLength,
    /// The blob does not start with the tag of this version.
    InvalidTag,
}

/// The blob of a resource: the version tag, the balance and the sequence
/// number in eight bytes each, least significant byte first, and the
/// authentication key.
pub open spec fn encoded(resource: AccountResourceView) -> Seq<u8> {
    seq![RESOURCE_VERSION] + spec_u64_to_le_bytes(resource.balance) + spec_u64_to_le_bytes(
        resource.sequence_number,
    ) + resource.authentication_key
}

/// The resource that a blob holds, or why it holds none.
pub open spec fn decoded(blob: Seq<u8>) -> Result<AccountResourceView, DecodeError> {
    if blob.len() != ENCODED_RESOURCE_LENGTH {
        Err(DecodeError::WrongLength)
    } else if blob[0] != RESOURCE_VERSION {
        Err(DecodeError::InvalidTag)
    } else {
        Ok(
            AccountResourceView {
                balance: spec_u64_from_le_bytes(blob.subrange(1, 9)),
                sequence_number: spec_u64_from_le_bytes(blob.subrange(9, 17)),
                authentication_key: blob.subrange(17, 49),
            },
        )
    }
}

impl PartialEq for AccountResource {
    fn eq(&self, other: &Self) -> (equal: bool) {
        self.balance == other.balance && self.sequence_number == other.sequence_number
            && self.authentication_key == other.authentication_key
    }
}

impl Eq for AccountResource {

}

impl vstd::std_specs::cmp::PartialEqSpecImpl for AccountResource {
    open spec fn obeys_eq_spec() -> bool {
        true
    }

    open spec fn eq_spec(&self, other: &Self) -> bool {
        self@ == other@
    }
}

impl AccountResource {
    /// The resource with the given fields.
    pub fn new(balance: u64, sequence_number: u64, authentication_key: AuthenticationKey) -> (resource: Self)
        ensures
            resource == (AccountResource { balance, sequence_number, authentication_key }),
    {
        AccountResource { balance, sequence_number, authentication_key }
    }

    pub fn balance(&self) -> (balance: u64)
        ensures
            balance == self.balance,
    {
        self.balance
    }

    pub fn sequence_number(&self) -> (sequence_number: u64)
        ensures
            sequence_number == self.sequence_number,
    {
        self.sequence_number
    }

    pub fn authentication_key(&self) -> (key: &AuthenticationKey)
        ensures
            *key == self.authentication_key,
    {
        &self.authentication_key
    }

    /// The blob that stands for this resource in the store.
    pub fn encode(&self) -> (blob: Vec<u8>)
        ensures
            blob@ == encoded(self@),
    {
        let mut blob: Vec<u8> = Vec::new();
        blob.push(RESOURCE_VERSION);
        let mut balance = u64_to_le_bytes(self.balance);
        blob.append(&mut balance);
        let mut sequence_number = u64_to_le_bytes(self.sequence_number);
        blob.append(&mut sequence_number);
        let mut key = self.authentication_key.to_vec();
        blob.append(&mut key);
        blob
    }

    /// Reads a resource from a blob. Nothing is guessed: a blob of another
    /// length or with another tag is refused.
    pub fn decode(blob: &[u8]) -> (result: Result<AccountResource, DecodeError>)
        ensures
            match decoded(blob@) {
                Ok(resource) => result is Ok && result->Ok_0@ == resource,
                Err(error) => result == Err::<AccountResource, DecodeError>(error),
            },
    {
        if blob.len() != ENCODED_RESOURCE_LENGTH {
            return Err(DecodeError::WrongLength);
        }
        if blob[0] != RESOURCE_VERSION {
            return Err(DecodeError::InvalidTag);
        }
        let balance = u64_from_le_bytes(slice_subrange(blob, 1, 9));
        let sequence_number = u64_from_le_bytes(slice_subrange(blob, 9, 17));
        let authentication_key = match AuthenticationKey::from_slice(slice_subrange(blob, 17, 49)) {
            Some(key) => key,
            None => {
                return Err(DecodeError::WrongLength);
            },
        };
        Ok(AccountResource { balance, sequence_number, authentication_key })
    }
}

/// A resource as a value is well formed if its key has the length of a key.
/// The view of every resource is.
pub open spec fn well_formed(resource: AccountResourceView) -> bool {
    resource.authentication_key.len() == 32
}

/// Decoding undoes encoding, on values: the blob of a well-formed resource
/// holds that resource.
pub proof fn lemma_decode_encode_view(resource: AccountResourceView)
    requires
        well_formed(resource),
    ensures
        decoded(encoded(resource)) == Ok::<AccountResourceView, DecodeError>(resource),
{
    lemma_auto_spec_u64_to_from_le_bytes();
    let blob = encoded(resource);
    assert(blob.subrange(1, 9) =~= spec_u64_to_le_bytes(resource.balance));
    assert(blob.subrange(9, 17) =~= spec_u64_to_le_bytes(resource.sequence_number));
    assert(blob.subrange(17, 49) =~= resource.authentication_key);
}

/// Decoding undoes encoding: the blob of a resource holds that resource.
pub proof fn lemma_decode_encode(resource: AccountResource)
    ensures
        well_formed(resource@),
        decoded(encoded(resource@)) == Ok::<AccountResourceView, DecodeError>(resource@),
{
    resource.authentication_key.lemma_view(resource.authentication_key);
    lemma_decode_encode_view(resource@);
}

/// Encoding undoes decoding: a blob that holds a resource is the blob of that
/// resource, so no two blobs hold the same one.
pub proof fn lemma_encode_decode(blob: Seq<u8>)
    requires
        decoded(blob) is Ok,
    ensures
        well_formed(decoded(blob)->Ok_0),
        encoded(decoded(blob)->Ok_0) == blob,
{
    lemma_auto_spec_u64_to_from_le_bytes();
}

/// An account and what the ledger holds of it, for seeding a store.
#[derive(Clone, Copy, Debug)]
pub struct AccountData {
    pub address: AccountAddress,
    pub balance: u64,
    pub sequence_number: u64,
    pub authentication_key: AuthenticationKey,
}

impl AccountData {
    /// The account at `address` with the given balance and sequence number,
    /// under the key of an account that nobody claimed yet.
    pub fn new(address: AccountAddress, balance: u64, sequence_number: u64) -> (data: Self)
        ensures
            data.address == address,
            data.balance == balance,
            data.sequence_number == sequence_number,
            data.authentication_key@ == crate::account_address::unclaimed_key_bytes(address@),
    {
        let authentication_key = AuthenticationKey::for_address(&address);
        AccountData { address, balance, sequence_number, authentication_key }
    }

    pub fn address(&self) -> (address: &AccountAddress)
        ensures
            *address == self.address,
    {
        &self.address
    }

    /// The account resource of this account, as a value.
    pub open spec fn resource(&self) -> AccountResourceView {
        AccountResourceView {
            balance: self.balance,
            sequence_number: self.sequence_number,
            authentication_key: self.authentication_key@,
        }
    }

    /// The account resource of this account.
    pub fn to_resource(&self) -> (resource: AccountResource)
        ensures
            resource@ == self.resource(),
    {
        AccountResource::new(self.balance, self.sequence_number, self.authentication_key)
    }

    /// The key under which the store keeps this account's resource.
    pub fn make_access_path(&self) -> (access_path: AccessPath)
        ensures
            access_path@ == account_path(self.address),
    {
        AccessPath::new_for_account(self.address)
    }
}

} // verus!
