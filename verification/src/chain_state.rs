//! The backend that holds the ledger's state, as the engine needs it, and the
//! adapter through which the engine reads and writes it.

use crate::access_path::{account_path, AccessPath, AccessPathView};
use crate::account::{decoded, encoded, AccountData, AccountResource, AccountResourceView, DecodeError};
use crate::account_address::{AccountAddress, AuthenticationKey};
use crate::write_set::{apply_ops, lemma_apply_ops_push, StateMap, WriteOp, WriteSet};
use vstd::prelude::*;

verus! {

/// A failure of the backend. The engine hands it on as it came.
#[derive(Clone, Debug, PartialEq, Eq)]
pub struct BackendError {
    pub message: String,
}

/// A whole state, to replace what a backend holds: entries in order, a later
/// one for the same key taking the place of an earlier one.
#[derive(Debug)]
pub struct ChainStateSet {
    pub entries: Vec<(AccessPath, Vec<u8>)>,
}

/// One entry of a state, as a value.
pub type EntryView = (AccessPathView, Seq<u8>);

/// The state that a list of entries describes.
pub open spec fn state_of(entries: Seq<EntryView>) -> StateMap
    decreases entries.len(),
{
    if entries.len() == 0 {
        Map::empty()
    } else {
        state_of(entries.drop_last()).insert(entries.last().0, entries.last().1)
    }
}

/// The entries of a list of keys and blobs, as values.
pub open spec fn entry_views(entries: Seq<(AccessPath, Vec<u8>)>) -> Seq<EntryView> {
    entries.map_values(|entry: (AccessPath, Vec<u8>)| (entry.0@, entry.1@))
}

impl View for ChainStateSet {
    type V = Seq<EntryView>;

    open spec fn view(&self) -> Seq<EntryView> {
        entry_views(self.entries@)
    }
}

impl ChainStateSet {
    /// The state with the given entries.
    pub fn new(entries: Vec<(AccessPath, Vec<u8>)>) -> (state_set: Self)
        ensures
            state_set.entries == entries,
    {
        ChainStateSet { entries }
    }

    /// The state that this set describes.
    pub open spec fn state(&self) -> StateMap {
        state_of(self@)
    }
}

/// The blob under a key, if there is one.
pub open spec fn lookup(state: StateMap, path: AccessPathView) -> Option<Seq<u8>> {
    if state.contains_key(path) {
        Some(state[path])
    } else {
        None
    }
}

/// What was found under a key, as a value.
pub open spec fn found_view(found: Option<Vec<u8>>) -> Option<Seq<u8>> {
    match found {
        Some(blob) => Some(blob@),
        None => None,
    }
}

/// What a store of the ledger's state can do. Each call either takes effect
/// as a whole or fails and leaves the content as it was; a call may fail at
/// any time.
pub trait ChainState {
    /// The content of the store.
    spec fn state(&self) -> StateMap;

    /// The blob under `access_path`.
    fn get(&self, access_path: &AccessPath) -> (result: Result<Option<Vec<u8>>, BackendError>)
        ensures
            result matches Ok(found) ==> found_view(found) == lookup(self.state(), access_path@),
    ;

    /// Puts `value` under `access_path`, in place of what was there.
    fn set(&mut self, access_path: &AccessPath, value: Vec<u8>) -> (result: Result<(), BackendError>)
        ensures
            result is Ok ==> final(self).state() == old(self).state().insert(access_path@, value@),
            result is Err ==> final(self).state() == old(self).state(),
    ;

    /// Removes the entry under `access_path`.
    fn delete(&mut self, access_path: &AccessPath) -> (result: Result<(), BackendError>)
        ensures
            result is Ok ==> final(self).state() == old(self).state().remove(access_path@),
            result is Err ==> final(self).state() == old(self).state(),
    ;

    /// Replaces the whole content by `state_set`.
    fn apply(&mut self, state_set: ChainStateSet) -> (result: Result<(), BackendError>)
        ensures
            result is Ok ==> final(self).state() == state_set.state(),
            result is Err ==> final(self).state() == old(self).state(),
    ;
}

/// Why a resource could not be read.
#[derive(Clone, Debug, PartialEq, Eq)]
pub enum StoreError {
    /// The backend failed.
    Backend(BackendError),
    /// The blob under the key is no resource.
    Decode(DecodeError),
}

/// The resource under a key: none where the key has no blob, an error where
/// its blob is no resource.
pub open spec fn resource_at(state: StateMap, path: AccessPathView) -> Result<
    Option<AccountResourceView>,
    DecodeError,
> {
    if !state.contains_key(path) {
        Ok(None)
    } else {
        match decoded(state[path]) {
            Ok(resource) => Ok(Some(resource)),
            Err(error) => Err(error),
        }
    }
}

/// What a read of a resource gave, as a value.
pub open spec fn read_view(read: Result<Option<AccountResource>, DecodeError>) -> Result<
    Option<AccountResourceView>,
    DecodeError,
> {
    match read {
        Ok(Some(resource)) => Ok(Some(resource@)),
        Ok(None) => Ok(None),
        Err(error) => Err(error),
    }
}

/// The resource in what a lookup found: none where nothing was found, an
/// error where the blob found is no resource.
pub fn decode_found(found: &Option<Vec<u8>>) -> (read: Result<Option<AccountResource>, DecodeError>)
    ensures
        read_view(read) == match found_view(*found) {
            Some(blob) => match decoded(blob) {
                Ok(resource) => Ok(Some(resource)),
                Err(error) => Err(error),
            },
            None => Ok(None),
        },
{
    match found {
        Some(blob) => match AccountResource::decode(blob.as_slice()) {
            Ok(resource) => Ok(Some(resource)),
            Err(error) => Err(error),
        },
        None => Ok(None),
    }
}

/// The adapter between the engine and a backend: every read and write of
/// the engine goes through it, and it adds nothing of its own to the
/// backend's content.
pub struct StateStore<'txn, S: ChainState> {
    pub chain_state: &'txn mut S,
}

impl<'txn, S: ChainState> StateStore<'txn, S> {
    /// The backend, as it is now.
    pub open spec fn backend(&self) -> S {
        *self.chain_state
    }

    /// The content of the backend, as it is now.
    pub open spec fn state(&self) -> StateMap {
        self.backend().state()
    }

    /// The adapter for `chain_state`. What is written through the adapter is
    /// written to `chain_state`.
    pub fn new(chain_state: &'txn mut S) -> (store: Self)
        ensures
            store.backend() == *old(chain_state),
            store.state() == old(chain_state).state(),
            *final(store.chain_state) == *final(chain_state),
    {
        StateStore { chain_state }
    }

    /// The blob under `access_path`. Reading changes nothing, and the
    /// adapter adds no failure of its own: the result is what the backend's
    /// `get` gives for this key.
    pub fn get(&self, access_path: &AccessPath) -> (result: Result<Option<Vec<u8>>, BackendError>)
        ensures
            call_ensures(S::get, (&self.backend(), access_path), result),
            result matches Ok(found) ==> found_view(found) == lookup(self.state(), access_path@),
    {
        self.chain_state.get(access_path)
    }

    /// The resource under `access_path`. A blob that is no resource is an
    /// error, never a default.
    pub fn get_resource(&self, access_path: &AccessPath) -> (result: Result<
        Option<AccountResource>,
        StoreError,
    >)
        ensures
            match result {
                Ok(found) => resource_at(self.state(), access_path@) == read_view(Ok(found)),
                Err(StoreError::Decode(error)) => resource_at(self.state(), access_path@) == Err::<
                    Option<AccountResourceView>,
                    DecodeError,
                >(error),
                Err(StoreError::Backend(_)) => true,
            },
    {
        match self.chain_state.get(access_path) {
            Ok(found) => match decode_found(&found) {
                Ok(resource) => Ok(resource),
                Err(error) => Err(StoreError::Decode(error)),
            },
            Err(error) => Err(StoreError::Backend(error)),
        }
    }

    /// Puts `data_blob` under `access_path`: the result, and the backend
    /// afterwards, are those of one call of the backend's `set` with this
    /// key and blob.
    pub fn set(&mut self, access_path: AccessPath, data_blob: Vec<u8>) -> (result: Result<
        (),
        BackendError,
    >)
        ensures
            exists|call: &mut S|
                mut_ref_current(call) == old(self).backend()
                    && mut_ref_future(call) == final(self).backend()
                    && #[trigger] call_ensures(S::set, (call, &access_path, data_blob), result),
            result is Ok ==> final(self).state() == old(self).state().insert(
                access_path@,
                data_blob@,
            ),
            result is Err ==> final(self).state() == old(self).state(),
            *final(final(self).chain_state) == *final(old(self).chain_state),
    {
        self.chain_state.set(&access_path, data_blob)
    }

    /// Removes the entry under `access_path`: the result, and the backend
    /// afterwards, are those of one call of the backend's `delete` with this
    /// key.
    pub fn remove(&mut self, access_path: &AccessPath) -> (result: Result<(), BackendError>)
        ensures
            exists|call: &mut S|
                mut_ref_current(call) == old(self).backend()
                    && mut_ref_future(call) == final(self).backend()
                    && #[trigger] call_ensures(S::delete, (call, access_path), result),
            result is Ok ==> final(self).state() == old(self).state().remove(access_path@),
            result is Err ==> final(self).state() == old(self).state(),
            *final(final(self).chain_state) == *final(old(self).chain_state),
    {
        self.chain_state.delete(access_path)
    }

    /// Applies the operations of `write_set` in order: a write sets, a
    /// deletion removes. The first failure of the backend ends the run and is
    /// returned; the operations before it have taken effect, no other has.
    pub fn add_write_set(&mut self, write_set: &WriteSet) -> (result: Result<(), BackendError>)
        ensures
            result is Ok ==> final(self).state() == apply_ops(old(self).state(), write_set@),
            result is Err ==> exists|done: int|
                0 <= done < write_set@.len() && final(self).state() == apply_ops(
                    old(self).state(),
                    #[trigger] write_set@.take(done),
                ),
            *final(final(self).chain_state) == *final(old(self).chain_state),
    {
        let mut i: usize = 0;
        while i < write_set.len()
            invariant
                i <= write_set@.len(),
                self.state() == apply_ops(old(self).state(), write_set@.take(i as int)),
                *final(self.chain_state) == *final(old(self).chain_state),
            decreases write_set@.len() - i,
        {
            let (access_path, write_op) = write_set.get(i);
            let outcome = match write_op {
                WriteOp::Value(blob) => self.set(access_path.clone(), blob.clone()),
                WriteOp::Deletion => self.remove(access_path),
            };
            match outcome {
                Ok(()) => {},
                Err(error) => {
                    return Err(error);
                },
            }
            proof {
                assert(write_set@.take(i + 1) =~= write_set@.take(i as int).push(write_set@[i as int]));
                lemma_apply_ops_push(
                    old(self).state(),
                    write_set@.take(i as int),
                    write_set@[i as int].0,
                    write_set@[i as int].1,
                );
            }
            i += 1;
        }
        assert(write_set@.take(i as int) =~= write_set@);
        Ok(())
    }

    /// Puts the resource of `account_data` under that account's key: the
    /// result, and the backend afterwards, are those of one call of the
    /// backend's `set` with that key and the blob of the resource.
    pub fn add_account_data(&mut self, account_data: &AccountData) -> (result: Result<
        (),
        BackendError,
    >)
        ensures
            exists|call: &mut S, access_path: AccessPath, blob: Vec<u8>|
                access_path@ == account_path(account_data.address)
                    && blob@ == encoded(account_data.resource())
                    && mut_ref_current(call) == old(self).backend()
                    && mut_ref_future(call) == final(self).backend()
                    && #[trigger] call_ensures(S::set, (call, &access_path, blob), result),
            result is Ok ==> final(self).state() == old(self).state().insert(
                account_path(account_data.address),
                encoded(account_data.resource()),
            ),
            result is Err ==> final(self).state() == old(self).state(),
            *final(final(self).chain_state) == *final(old(self).chain_state),
    {
        let blob = account_data.to_resource().encode();
        self.set(account_data.make_access_path(), blob)
    }
}

/// The resource of an account that was just opened: nothing on it, nothing
/// sent from it.
pub open spec fn fresh_resource(authentication_key: Seq<u8>) -> AccountResourceView {
    AccountResourceView { balance: 0, sequence_number: 0, authentication_key }
}

/// The store after an account was opened at `address`: as before where the
/// account has an entry, else with a fresh resource under its key.
pub open spec fn with_account(state: StateMap, address: AccountAddress, authentication_key: Seq<u8>) -> StateMap {
    if state.contains_key(account_path(address)) {
        state
    } else {
        state.insert(account_path(address), encoded(fresh_resource(authentication_key)))
    }
}

impl<'txn, S: ChainState> StateStore<'txn, S> {
    /// Opens the account at `address` under `authentication_key`. Where the
    /// account has an entry already, nothing is written: an account is never
    /// reset by being opened twice.
    ///
    /// The backend is asked once for the entry under the account's key. If
    /// that fails, the failure is the result. If there is an entry, the
    /// account is open and nothing is done. If there is none, the result, and
    /// the backend afterwards, are those of one call of the backend's `set`
    /// with the key and the blob of a fresh resource.
    pub fn create_account(&mut self, address: AccountAddress, authentication_key: AuthenticationKey) -> (result: Result<(), BackendError>)
        ensures
            exists|found: Result<Option<Vec<u8>>, BackendError>, access_path: AccessPath|
                access_path@ == account_path(address)
                    && #[trigger] call_ensures(S::get, (&old(self).backend(), &access_path), found)
                    && match found {
                    Err(error) => result == Err::<(), BackendError>(error)
                        && final(self).backend() == old(self).backend(),
                    Ok(Some(_)) => result is Ok && final(self).backend() == old(self).backend(),
                    Ok(None) => exists|call: &mut S, blob: Vec<u8>|
                        blob@ == encoded(fresh_resource(authentication_key@))
                            && mut_ref_current(call) == old(self).backend()
                            && mut_ref_future(call) == final(self).backend()
                            && #[trigger] call_ensures(S::set, (call, &access_path, blob), result),
                },
            result is Ok ==> final(self).state() == with_account(
                old(self).state(),
                address,
                authentication_key@,
            ),
            result is Err ==> final(self).state() == old(self).state(),
            *final(final(self).chain_state) == *final(old(self).chain_state),
    {
        let access_path = AccessPath::new_for_account(address);
        match self.get(&access_path) {
            Ok(Some(_)) => Ok(()),
            Ok(None) => {
                let resource = AccountResource::new(0, 0, authentication_key);
                self.set(access_path, resource.encode())
            },
            Err(error) => Err(error),
        }
    }
}

} // verus!
