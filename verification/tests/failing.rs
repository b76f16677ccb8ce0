use vm_runtime::access_path::AccessPath;
use vm_runtime::account::AccountResource;
use vm_runtime::account_address::{AccountAddress, AuthenticationKey};
use vm_runtime::chain_state::{BackendError, ChainState, ChainStateSet, StateStore, StoreError};
use vm_runtime::memory_state::MemoryState;
use vm_runtime::mock_vm::{encode_mint_transaction, encode_transfer_transaction, ExecutionError, MockVM, VMConfig};
use vm_runtime::transaction::{BlockMetadata, Transaction};

/// A backend that works for a number of calls and fails every call after
/// them.
struct Flaky {
    inner: MemoryState,
    calls_left: std::cell::Cell<usize>,
}

impl Flaky {
    fn new(inner: MemoryState, calls_left: usize) -> Self {
        Flaky { inner, calls_left: std::cell::Cell::new(calls_left) }
    }

    fn spend(&self) -> Result<(), BackendError> {
        if self.calls_left.get() == 0 {
            return Err(BackendError { message: "the backend is down".to_string() });
        }
        self.calls_left.set(self.calls_left.get() - 1);
        Ok(())
    }
}

impl ChainState for Flaky {
    // The content is a notion of proofs; nothing that runs asks for it.
    fn state(&self) -> vm_runtime::write_set::StateMap {
        unreachable!()
    }

    fn get(&self, access_path: &AccessPath) -> Result<Option<Vec<u8>>, BackendError> {
        self.spend()?;
        self.inner.get(access_path)
    }

    fn set(&mut self, access_path: &AccessPath, value: Vec<u8>) -> Result<(), BackendError> {
        self.spend()?;
        self.inner.set(access_path, value)
    }

    fn delete(&mut self, access_path: &AccessPath) -> Result<(), BackendError> {
        self.spend()?;
        self.inner.delete(access_path)
    }

    fn apply(&mut self, state_set: ChainStateSet) -> Result<(), BackendError> {
        self.spend()?;
        self.inner.apply(state_set)
    }
}

fn address(seed: u8) -> AccountAddress {
    AccountAddress::new([seed; 16])
}

fn key(seed: u8) -> AuthenticationKey {
    AuthenticationKey::new([seed; 32])
}

fn funded(owner: AccountAddress, resource: AccountResource) -> MemoryState {
    let mut state = MemoryState::new();
    state.set(&AccessPath::new_for_account(owner), resource.encode()).unwrap();
    state
}

fn read(state: &MemoryState, owner: AccountAddress) -> Option<AccountResource> {
    state
        .get(&AccessPath::new_for_account(owner))
        .unwrap()
        .map(|blob| AccountResource::decode(&blob).unwrap())
}

fn down() -> ExecutionError {
    ExecutionError::Backend(BackendError { message: "the backend is down".to_string() })
}

#[test]
fn a_failed_read_is_handed_on() {
    let mut state = Flaky::new(funded(address(1), AccountResource::new(5, 5, key(1))), 0);
    let store = StateStore::new(&mut state);
    let failure = BackendError { message: "the backend is down".to_string() };
    assert_eq!(store.get(&AccessPath::new_for_account(address(1))), Err(failure.clone()));
    assert_eq!(
        store.get_resource(&AccessPath::new_for_account(address(1))),
        Err(StoreError::Backend(failure))
    );
}

#[test]
fn mint_with_a_backend_that_fails() {
    let sender = address(1);
    let prior = AccountResource::new(10, 5, key(1));
    for calls in 0..2 {
        let mut state = Flaky::new(funded(sender, prior), calls);
        let txn = encode_mint_transaction(sender, 500, vec![], vec![]);
        let result = MockVM::new(&VMConfig {}).execute_transaction(&mut state, txn);
        assert_eq!(result.unwrap_err(), down());
        assert_eq!(read(&state.inner, sender), Some(prior));
    }
    let mut state = Flaky::new(funded(sender, prior), 2);
    let txn = encode_mint_transaction(sender, 500, vec![], vec![]);
    assert!(MockVM::new(&VMConfig {}).execute_transaction(&mut state, txn).is_ok());
    assert_eq!(read(&state.inner, sender), Some(AccountResource::new(500, 1, key(1))));
}

#[test]
fn payment_with_a_backend_that_fails() {
    let (sender, recipient) = (address(1), address(2));
    let prior = AccountResource::new(100, 0, key(1));
    // Two reads, then two writes: a failure before the first write leaves
    // everything as it was.
    for calls in 0..3 {
        let mut state = Flaky::new(funded(sender, prior), calls);
        let txn = encode_transfer_transaction(sender, recipient, 150, vec![], vec![]);
        let result = MockVM::new(&VMConfig {}).execute_transaction(&mut state, txn);
        assert_eq!(result.unwrap_err(), down());
        assert_eq!(read(&state.inner, sender), Some(prior));
        assert_eq!(read(&state.inner, recipient), None);
        assert_eq!(state.inner.len(), 1);
    }
    // A failure at the second write leaves the first.
    let mut state = Flaky::new(funded(sender, prior), 3);
    let txn = encode_transfer_transaction(sender, recipient, 150, vec![], vec![]);
    let result = MockVM::new(&VMConfig {}).execute_transaction(&mut state, txn);
    assert_eq!(result.unwrap_err(), down());
    assert_eq!(read(&state.inner, sender), Some(AccountResource::new(0, 1, key(1))));
    assert_eq!(read(&state.inner, recipient), None);
}

#[test]
fn block_reward_with_a_backend_that_fails() {
    let author = address(3);
    for calls in 0..2 {
        let mut state = Flaky::new(MemoryState::new(), calls);
        let txn = Transaction::BlockMetadata(BlockMetadata::new([0u8; 32], 0, author));
        let result = MockVM::new(&VMConfig {}).execute_transaction(&mut state, txn);
        assert_eq!(result.unwrap_err(), down());
        assert_eq!(state.inner.len(), 0);
    }
}

#[test]
fn state_set_with_a_backend_that_fails() {
    let owner = address(1);
    let prior = AccountResource::new(10, 5, key(1));
    let mut state = Flaky::new(funded(owner, prior), 0);
    let entries = vec![(AccessPath::new_for_account(address(2)), vec![1, 2, 3])];
    let output = MockVM::new(&VMConfig {})
        .execute_transaction(&mut state, Transaction::StateSet(ChainStateSet::new(entries)))
        .unwrap();
    assert_eq!(*output.status(), vm_runtime::mock_vm::discard_status());
    assert_eq!(output.gas_used(), 0);
    assert!(output.write_set().is_empty());
    assert_eq!(read(&state.inner, owner), Some(prior));
    assert_eq!(state.inner.len(), 1);
}

#[test]
fn unsupported_is_refused_before_the_backend_is_asked() {
    let sender = address(1);
    let mut state = Flaky::new(MemoryState::new(), 0);
    let script = vm_runtime::transaction::Script::new(vec![1], vec![]);
    let txn = vm_runtime::mock_vm::encode_transaction(sender, script, vec![], vec![]);
    let result = MockVM::new(&VMConfig {}).execute_transaction(&mut state, txn);
    assert_eq!(
        result.unwrap_err(),
        ExecutionError::Unsupported(vm_runtime::mock_vm::UnsupportedTransaction::NonEmptyCode)
    );
}

#[test]
fn create_account_with_a_backend_that_fails() {
    let owner = address(1);
    for calls in 0..2 {
        let mut state = Flaky::new(MemoryState::new(), calls);
        let result = MockVM::new(&VMConfig {}).create_account(owner, key(1), &mut state);
        assert!(result.is_err());
        assert_eq!(state.inner.len(), 0);
    }
}

#[test]
fn a_failed_write_is_handed_on() {
    let owner = address(1);
    let failure = BackendError { message: "the backend is down".to_string() };
    let account = AccessPath::new_for_account(owner);

    let mut state = Flaky::new(MemoryState::new(), 0);
    let mut store = StateStore::new(&mut state);
    assert_eq!(store.set(account.clone(), vec![1]), Err(failure.clone()));
    assert_eq!(store.remove(&account), Err(failure.clone()));
    assert_eq!(
        store.add_account_data(&vm_runtime::account::AccountData::new(owner, 1, 1)),
        Err(failure.clone())
    );
    // The read of `create_account` fails.
    assert_eq!(store.create_account(owner, key(1)), Err(failure.clone()));
    assert_eq!(state.inner.len(), 0);

    // The read works and the write fails.
    let mut state = Flaky::new(MemoryState::new(), 1);
    let mut store = StateStore::new(&mut state);
    assert_eq!(store.create_account(owner, key(1)), Err(failure.clone()));
    assert_eq!(state.inner.len(), 0);

    // The backend's own refusal comes through as it is.
    let mut full = MemoryState::with_limit(0);
    let refusal = full.set(&account, vec![1]).unwrap_err();
    let mut store = StateStore::new(&mut full);
    assert_eq!(store.set(account.clone(), vec![1]), Err(refusal.clone()));
    assert_eq!(store.create_account(owner, key(1)), Err(refusal.clone()));
    assert_eq!(
        MockVM::new(&VMConfig {}).create_account(owner, key(1), &mut full),
        Err(refusal)
    );

    // With one call more the account is opened, and the next time only read.
    let mut state = Flaky::new(MemoryState::new(), 3);
    assert_eq!(MockVM::new(&VMConfig {}).create_account(owner, key(1), &mut state), Ok(()));
    assert_eq!(MockVM::new(&VMConfig {}).create_account(owner, key(2), &mut state), Ok(()));
    assert_eq!(read(&state.inner, owner), Some(AccountResource::new(0, 0, key(1))));
    assert_eq!(
        MockVM::new(&VMConfig {}).create_account(owner, key(2), &mut state),
        Err(failure)
    );
}
