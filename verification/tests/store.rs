use vm_runtime::access_path::AccessPath;
use vm_runtime::account::{AccountData, AccountResource, DecodeError};
use vm_runtime::account_address::{AccountAddress, AuthenticationKey};
use vm_runtime::chain_state::{decode_found, ChainState, ChainStateSet, StateStore, StoreError};
use vm_runtime::memory_state::MemoryState;
use vm_runtime::write_set::{WriteOp, WriteSet};

fn address(seed: u8) -> AccountAddress {
    AccountAddress::new([seed; 16])
}

fn path(seed: u8) -> AccessPath {
    AccessPath::new(address(seed), vec![seed, 1, 2])
}

#[test]
fn memory_state_starts_empty() {
    let state = MemoryState::new();
    assert_eq!(state.len(), 0);
    assert_eq!(state.get(&path(1)), Ok(None));
}

#[test]
fn memory_state_set_then_get() {
    let mut state = MemoryState::new();
    assert_eq!(state.set(&path(1), vec![10, 11]), Ok(()));
    assert_eq!(state.set(&path(2), vec![20]), Ok(()));
    assert_eq!(state.get(&path(1)), Ok(Some(vec![10, 11])));
    assert_eq!(state.get(&path(2)), Ok(Some(vec![20])));
    assert_eq!(state.get(&path(3)), Ok(None));
    assert_eq!(state.len(), 2);
}

#[test]
fn memory_state_set_replaces() {
    let mut state = MemoryState::new();
    state.set(&path(1), vec![1]).unwrap();
    state.set(&path(2), vec![2]).unwrap();
    state.set(&path(1), vec![3, 4]).unwrap();
    assert_eq!(state.get(&path(1)), Ok(Some(vec![3, 4])));
    assert_eq!(state.get(&path(2)), Ok(Some(vec![2])));
    assert_eq!(state.len(), 2);
}

#[test]
fn memory_state_delete() {
    let mut state = MemoryState::new();
    state.set(&path(1), vec![1]).unwrap();
    state.set(&path(2), vec![2]).unwrap();
    assert_eq!(state.delete(&path(1)), Ok(()));
    assert_eq!(state.get(&path(1)), Ok(None));
    assert_eq!(state.get(&path(2)), Ok(Some(vec![2])));
    // Deleting what is not there changes nothing.
    assert_eq!(state.delete(&path(9)), Ok(()));
    assert_eq!(state.len(), 1);
}

#[test]
fn memory_state_is_full_at_its_limit() {
    let mut state = MemoryState::with_limit(2);
    state.set(&path(1), vec![1]).unwrap();
    state.set(&path(2), vec![2]).unwrap();
    assert!(state.set(&path(3), vec![3]).is_err());
    assert_eq!(state.get(&path(3)), Ok(None));
    assert_eq!(state.len(), 2);
    // A key that has an entry can still be written.
    assert_eq!(state.set(&path(2), vec![22]), Ok(()));
    assert_eq!(state.get(&path(2)), Ok(Some(vec![22])));
    // And a deletion makes room.
    state.delete(&path(1)).unwrap();
    assert_eq!(state.set(&path(3), vec![3]), Ok(()));
}

#[test]
fn memory_state_apply_replaces_everything() {
    let mut state = MemoryState::new();
    state.set(&path(1), vec![1]).unwrap();
    state.set(&path(2), vec![2]).unwrap();
    let state_set = ChainStateSet::new(vec![
        (path(2), vec![20]),
        (path(3), vec![30]),
        (path(2), vec![21]),
    ]);
    assert_eq!(state.apply(state_set), Ok(()));
    assert_eq!(state.get(&path(1)), Ok(None));
    assert_eq!(state.get(&path(2)), Ok(Some(vec![21])));
    assert_eq!(state.get(&path(3)), Ok(Some(vec![30])));
    assert_eq!(state.len(), 2);
}

#[test]
fn memory_state_apply_fails_as_a_whole() {
    let mut state = MemoryState::with_limit(2);
    state.set(&path(1), vec![1]).unwrap();
    let state_set = ChainStateSet::new(vec![
        (path(2), vec![20]),
        (path(3), vec![30]),
        (path(4), vec![40]),
    ]);
    assert!(state.apply(state_set).is_err());
    assert_eq!(state.get(&path(1)), Ok(Some(vec![1])));
    assert_eq!(state.get(&path(2)), Ok(None));
    assert_eq!(state.get(&path(3)), Ok(None));
    assert_eq!(state.len(), 1);
}

#[test]
fn store_set_get_remove() {
    let mut state = MemoryState::new();
    {
        let mut store = StateStore::new(&mut state);
        assert_eq!(store.get(&path(1)), Ok(None));
        assert_eq!(store.set(path(1), vec![5, 6]), Ok(()));
        assert_eq!(store.get(&path(1)), Ok(Some(vec![5, 6])));
        assert_eq!(store.set(path(1), vec![7]), Ok(()));
        assert_eq!(store.get(&path(1)), Ok(Some(vec![7])));
        assert_eq!(store.remove(&path(1)), Ok(()));
        assert_eq!(store.get(&path(1)), Ok(None));
        store.set(path(2), vec![8]).unwrap();
    }
    // What went through the adapter is in the backend.
    assert_eq!(state.get(&path(2)), Ok(Some(vec![8])));
    assert_eq!(state.get(&path(1)), Ok(None));
}

#[test]
fn store_applies_a_write_set_in_order() {
    let mut state = MemoryState::new();
    state.set(&path(1), vec![1]).unwrap();
    state.set(&path(4), vec![4]).unwrap();
    let mut write_set = WriteSet::new();
    assert!(write_set.is_empty());
    write_set.push(path(1), WriteOp::Value(vec![10]));
    write_set.push(path(2), WriteOp::Value(vec![20]));
    write_set.push(path(1), WriteOp::Deletion);
    write_set.push(path(3), WriteOp::Deletion);
    write_set.push(path(3), WriteOp::Value(vec![30]));
    write_set.push(path(2), WriteOp::Value(vec![21]));
    assert_eq!(write_set.len(), 6);
    assert!(!write_set.is_empty());
    let (first_path, first_op) = write_set.get(0);
    assert_eq!(*first_path, path(1));
    assert!(matches!(first_op, WriteOp::Value(blob) if *blob == vec![10]));
    assert!(matches!(write_set.get(2).1, WriteOp::Deletion));

    let mut store = StateStore::new(&mut state);
    assert_eq!(store.add_write_set(&write_set), Ok(()));
    assert_eq!(store.get(&path(1)), Ok(None));
    assert_eq!(store.get(&path(2)), Ok(Some(vec![21])));
    assert_eq!(store.get(&path(3)), Ok(Some(vec![30])));
    assert_eq!(store.get(&path(4)), Ok(Some(vec![4])));
}

#[test]
fn store_stops_a_write_set_at_the_first_failure() {
    let mut state = MemoryState::with_limit(2);
    let mut write_set = WriteSet::new();
    write_set.push(path(1), WriteOp::Value(vec![1]));
    write_set.push(path(2), WriteOp::Value(vec![2]));
    write_set.push(path(3), WriteOp::Value(vec![3]));
    write_set.push(path(1), WriteOp::Deletion);
    let mut store = StateStore::new(&mut state);
    assert!(store.add_write_set(&write_set).is_err());
    // The two writes before the failure took effect, nothing after it did.
    assert_eq!(store.get(&path(1)), Ok(Some(vec![1])));
    assert_eq!(store.get(&path(2)), Ok(Some(vec![2])));
    assert_eq!(store.get(&path(3)), Ok(None));
}

#[test]
fn store_reads_resources() {
    let mut state = MemoryState::new();
    let owner = address(1);
    let account = AccessPath::new_for_account(owner);
    let resource = AccountResource::new(77, 3, AuthenticationKey::for_address(&owner));
    let mut store = StateStore::new(&mut state);
    assert_eq!(store.get_resource(&account), Ok(None));
    store.set(account.clone(), resource.encode()).unwrap();
    assert_eq!(store.get_resource(&account), Ok(Some(resource)));
    // A blob that is no resource is an error of the resource read only.
    store.set(account.clone(), vec![1, 2, 3]).unwrap();
    assert_eq!(store.get(&account), Ok(Some(vec![1, 2, 3])));
    assert_eq!(
        store.get_resource(&account),
        Err(StoreError::Decode(DecodeError::WrongLength))
    );
    let mut blob = resource.encode();
    blob[0] = 2;
    store.set(account.clone(), blob).unwrap();
    assert_eq!(
        store.get_resource(&account),
        Err(StoreError::Decode(DecodeError::InvalidTag))
    );
}

#[test]
fn decode_found_blob() {
    let resource = AccountResource::new(9, 8, AuthenticationKey::new([7u8; 32]));
    assert_eq!(decode_found(&None), Ok(None));
    assert_eq!(decode_found(&Some(resource.encode())), Ok(Some(resource)));
    assert_eq!(decode_found(&Some(vec![])), Err(DecodeError::WrongLength));
    assert_eq!(decode_found(&Some(vec![0u8; 49])), Err(DecodeError::InvalidTag));
}

#[test]
fn store_adds_account_data() {
    let mut state = MemoryState::new();
    let owner = address(5);
    let data = AccountData::new(owner, 1234, 2);
    let mut store = StateStore::new(&mut state);
    assert_eq!(store.add_account_data(&data), Ok(()));
    assert_eq!(
        store.get(&AccessPath::new_for_account(owner)),
        Ok(Some(data.to_resource().encode()))
    );
    assert_eq!(
        store.get_resource(&data.make_access_path()),
        Ok(Some(AccountResource::new(1234, 2, AuthenticationKey::for_address(&owner))))
    );
}

#[test]
fn store_add_account_data_on_a_full_backend() {
    let mut state = MemoryState::with_limit(0);
    let mut store = StateStore::new(&mut state);
    assert!(store.add_account_data(&AccountData::new(address(5), 1, 1)).is_err());
    assert_eq!(store.get(&AccessPath::new_for_account(address(5))), Ok(None));
}

#[test]
fn create_account_writes_a_fresh_resource() {
    let mut state = MemoryState::new();
    let owner = address(3);
    let key = AuthenticationKey::new([9u8; 32]);
    let mut store = StateStore::new(&mut state);
    assert_eq!(store.create_account(owner, key), Ok(()));
    assert_eq!(
        store.get_resource(&AccessPath::new_for_account(owner)),
        Ok(Some(AccountResource::new(0, 0, key)))
    );
}

#[test]
fn create_account_never_resets_an_account() {
    let mut state = MemoryState::new();
    let owner = address(3);
    let key = AuthenticationKey::new([9u8; 32]);
    let funded = AccountResource::new(500, 4, key);
    let mut store = StateStore::new(&mut state);
    store.set(AccessPath::new_for_account(owner), funded.encode()).unwrap();
    assert_eq!(store.create_account(owner, AuthenticationKey::new([1u8; 32])), Ok(()));
    assert_eq!(
        store.get_resource(&AccessPath::new_for_account(owner)),
        Ok(Some(funded))
    );
    // Not even where what is there is no resource.
    store.set(AccessPath::new_for_account(address(4)), vec![0xff]).unwrap();
    assert_eq!(store.create_account(address(4), key), Ok(()));
    assert_eq!(store.get(&AccessPath::new_for_account(address(4))), Ok(Some(vec![0xff])));
}

#[test]
fn create_account_on_a_full_backend() {
    let mut state = MemoryState::with_limit(0);
    let mut store = StateStore::new(&mut state);
    assert!(store.create_account(address(3), AuthenticationKey::new([9u8; 32])).is_err());
    assert_eq!(store.get(&AccessPath::new_for_account(address(3))), Ok(None));
}
