//! The mock engine. It knows two operations of users, minting and
//! payment, the reward of a block's author, and the replacement of the whole
//! state. It reads what it needs, works out every write, and only then
//! writes: a transaction that is refused has changed nothing.

use crate::access_path::{account_path, AccessPath};
use crate::account::{encoded, AccountResource, AccountResourceView, DecodeError};
use crate::account_address::{unclaimed_key_bytes, AccountAddress, AuthenticationKey};
use crate::chain_state::{
    fresh_resource, read_view, resource_at, with_account, BackendError, ChainState, StateStore,
    StoreError,
};
use crate::transaction::{
    RawUserTransaction, Script, SignedUserTransaction, StatusCode, Transaction,
    TransactionArgument, TransactionOutput, TransactionPayload, TransactionStatus, VMStatus,
};
use crate::write_set::{apply_ops, StateMap, WriteOp, WriteOpView, WriteSet, WriteView};
use vstd::prelude::*;

verus! {

/// What the author of a block is paid for it, in base units.
pub const BLOCK_REWARD: u64 = 5_000_000_000;

/// The number that goes with the status of a transaction that is left out.
pub const ABORT_SUB_STATUS: u64 = 10;

/// The operations of users that the engine knows.
#[derive(Clone, Copy, Debug, PartialEq, Eq)]
pub enum MockTransaction {
    /// The sender's balance is set to `amount`.
    Mint { sender: AccountAddress, amount: u64 },
    /// The sender pays the recipient `amount`, or all it has if that is less.
    Payment { sender: AccountAddress, recipient: AccountAddress, amount: u64 },
}

/// Why the engine does not know what a user's transaction asks for.
#[derive(Clone, Copy, Debug, PartialEq, Eq, Structural)]
pub enum UnsupportedTransaction {
    /// The script has code.
    NonEmptyCode,
    /// The payload is a module.
    ModulePayload,
    /// The payload is a whole state.
    StateSetPayload,
    /// The script has neither one argument nor two.
    ArgumentCount,
    /// The arguments are not an amount, nor a recipient and an amount.
    ArgumentTypes,
}

/// Why a transaction was not executed.
#[derive(Debug, PartialEq, Eq)]
pub enum ExecutionError {
    /// The backend failed.
    Backend(BackendError),
    /// A blob that the transaction needs is no account resource.
    Decode(DecodeError),
    /// The engine does not know the operation.
    Unsupported(UnsupportedTransaction),
    /// The sender has no account.
    MissingAccount(AccountAddress),
    /// A balance or a sequence number would pass the largest number that the
    /// ledger can hold.
    Overflow,
}

/// The status of a transaction that was executed.
pub open spec fn kept() -> TransactionStatus {
    TransactionStatus::Keep(VMStatus { major_status: StatusCode::Executed, sub_status: None })
}

/// The status of a transaction that is left out of the block.
pub open spec fn discarded() -> TransactionStatus {
    TransactionStatus::Discard(
        VMStatus { major_status: StatusCode::Aborted, sub_status: Some(ABORT_SUB_STATUS) },
    )
}

pub fn keep_status() -> (status: TransactionStatus)
    ensures
        status == kept(),
{
    TransactionStatus::Keep(VMStatus::new(StatusCode::Executed))
}

pub fn discard_status() -> (status: TransactionStatus)
    ensures
        status == discarded(),
{
    TransactionStatus::Discard(VMStatus::new(StatusCode::Aborted).with_sub_status(ABORT_SUB_STATUS))
}

/// The operation that a script of `sender` asks for: without code, one
/// amount mints, a recipient and an amount pay.
pub open spec fn decoded_script(sender: AccountAddress, script: Script) -> Result<
    MockTransaction,
    UnsupportedTransaction,
> {
    if script.code@.len() != 0 {
        Err(UnsupportedTransaction::NonEmptyCode)
    } else if script.args@.len() == 1 {
        match script.args@[0] {
            TransactionArgument::U64(amount) => Ok(MockTransaction::Mint { sender, amount }),
            _ => Err(UnsupportedTransaction::ArgumentTypes),
        }
    } else if script.args@.len() == 2 {
        match (script.args@[0], script.args@[1]) {
            (TransactionArgument::Address(recipient), TransactionArgument::U64(amount)) => Ok(
                MockTransaction::Payment { sender, recipient, amount },
            ),
            _ => Err(UnsupportedTransaction::ArgumentTypes),
        }
    } else {
        Err(UnsupportedTransaction::ArgumentCount)
    }
}

/// The operation that a user's transaction asks for.
pub open spec fn decoded_transaction(txn: SignedUserTransaction) -> Result<
    MockTransaction,
    UnsupportedTransaction,
> {
    match txn.raw_txn.payload {
        TransactionPayload::Script(script) => decoded_script(txn.raw_txn.sender, script),
        TransactionPayload::Module(_) => Err(UnsupportedTransaction::ModulePayload),
        TransactionPayload::StateSet(_) => Err(UnsupportedTransaction::StateSetPayload),
    }
}

/// Reads the operation of a user's transaction.
pub fn decode_transaction(txn: &SignedUserTransaction) -> (operation: Result<
    MockTransaction,
    UnsupportedTransaction,
>)
    ensures
        operation == decoded_transaction(*txn),
{
    let sender = txn.sender();
    match txn.payload() {
        TransactionPayload::Script(script) => {
            if script.code().len() != 0 {
                return Err(UnsupportedTransaction::NonEmptyCode);
            }
            let args = script.args();
            if args.len() == 1 {
                match &args[0] {
                    TransactionArgument::U64(amount) => Ok(
                        MockTransaction::Mint { sender, amount: *amount },
                    ),
                    _ => Err(UnsupportedTransaction::ArgumentTypes),
                }
            } else if args.len() == 2 {
                match (&args[0], &args[1]) {
                    (TransactionArgument::Address(recipient), TransactionArgument::U64(amount)) => Ok(
                        MockTransaction::Payment { sender, recipient: *recipient, amount: *amount },
                    ),
                    _ => Err(UnsupportedTransaction::ArgumentTypes),
                }
            } else {
                Err(UnsupportedTransaction::ArgumentCount)
            }
        },
        TransactionPayload::Module(_) => Err(UnsupportedTransaction::ModulePayload),
        TransactionPayload::StateSet(_) => Err(UnsupportedTransaction::StateSetPayload),
    }
}

/// The write that puts `resource` under the key of the account at `address`.
pub open spec fn write_of(address: AccountAddress, resource: AccountResourceView) -> WriteView {
    (account_path(address), WriteOpView::Value(encoded(resource)))
}

/// The resource of an account that must be there.
pub open spec fn existing(
    address: AccountAddress,
    read: Result<Option<AccountResourceView>, DecodeError>,
) -> Result<AccountResourceView, ExecutionError> {
    match read {
        Err(error) => Err(ExecutionError::Decode(error)),
        Ok(None) => Err(ExecutionError::MissingAccount(address)),
        Ok(Some(resource)) => Ok(resource),
    }
}

/// The resource of an account that is opened where it is not there, under
/// the key of an account that nobody claimed yet.
pub open spec fn existing_or_fresh(
    address: AccountAddress,
    read: Result<Option<AccountResourceView>, DecodeError>,
) -> Result<AccountResourceView, ExecutionError> {
    match read {
        Err(error) => Err(ExecutionError::Decode(error)),
        Ok(None) => Ok(fresh_resource(unclaimed_key_bytes(address@))),
        Ok(Some(resource)) => Ok(resource),
    }
}

/// What minting writes: the balance is the amount, whatever it was, and the
/// sequence number is 1.
pub open spec fn mint_plan(sender: AccountAddress, amount: u64, prior: AccountResourceView) -> Seq<
    WriteView,
> {
    seq![
        write_of(
            sender,
            AccountResourceView {
                balance: amount,
                sequence_number: 1,
                authentication_key: prior.authentication_key,
            },
        ),
    ]
}

/// What a payment takes from a balance: the amount, or the balance where
/// that is less.
pub open spec fn deduction(amount: u64, balance: u64) -> u64 {
    if balance < amount {
        balance
    } else {
        amount
    }
}

/// What a payment writes: first the sender, with the deduction taken and the
/// sequence number one higher, then the recipient, with the deduction added
/// and the sequence number that the sender had before.
pub open spec fn payment_plan(
    sender: AccountAddress,
    recipient: AccountAddress,
    amount: u64,
    from: AccountResourceView,
    to: AccountResourceView,
) -> Result<Seq<WriteView>, ExecutionError> {
    let taken = deduction(amount, from.balance);
    if from.sequence_number == u64::MAX || to.balance + taken > u64::MAX {
        Err(ExecutionError::Overflow)
    } else {
        Ok(
            seq![
                write_of(
                    sender,
                    AccountResourceView {
                        balance: (from.balance - taken) as u64,
                        sequence_number: (from.sequence_number + 1) as u64,
                        authentication_key: from.authentication_key,
                    },
                ),
                write_of(
                    recipient,
                    AccountResourceView {
                        balance: (to.balance + taken) as u64,
                        sequence_number: from.sequence_number,
                        authentication_key: to.authentication_key,
                    },
                ),
            ],
        )
    }
}

/// What the reward of a block writes: the author's balance with the reward
/// added.
pub open spec fn reward_plan(author: AccountAddress, prior: AccountResourceView) -> Result<
    Seq<WriteView>,
    ExecutionError,
> {
    if prior.balance + BLOCK_REWARD > u64::MAX {
        Err(ExecutionError::Overflow)
    } else {
        Ok(
            seq![
                write_of(
                    author,
                    AccountResourceView {
                        balance: (prior.balance + BLOCK_REWARD) as u64,
                        sequence_number: prior.sequence_number,
                        authentication_key: prior.authentication_key,
                    },
                ),
            ],
        )
    }
}

/// What an operation writes to a store with the content `state`, or why it
/// is refused.
pub open spec fn planned_operation(state: StateMap, operation: MockTransaction) -> Result<
    Seq<WriteView>,
    ExecutionError,
> {
    match operation {
        MockTransaction::Mint { sender, amount } => match existing(
            sender,
            resource_at(state, account_path(sender)),
        ) {
            Ok(prior) => Ok(mint_plan(sender, amount, prior)),
            Err(error) => Err(error),
        },
        MockTransaction::Payment { sender, recipient, amount } => match existing(
            sender,
            resource_at(state, account_path(sender)),
        ) {
            Ok(from) => match existing_or_fresh(
                recipient,
                resource_at(state, account_path(recipient)),
            ) {
                Ok(to) => payment_plan(sender, recipient, amount, from, to),
                Err(error) => Err(error),
            },
            Err(error) => Err(error),
        },
    }
}

/// What the reward of the block of `author` writes to a store with the
/// content `state`, or why it is refused.
pub open spec fn planned_reward(state: StateMap, author: AccountAddress) -> Result<
    Seq<WriteView>,
    ExecutionError,
> {
    match existing_or_fresh(author, resource_at(state, account_path(author))) {
        Ok(prior) => reward_plan(author, prior),
        Err(error) => Err(error),
    }
}

/// What a transaction writes through the adapter to a store with the content
/// `state`, or why it is refused. The replacement of the whole state writes
/// nothing through the adapter.
pub open spec fn planned(state: StateMap, txn: Transaction) -> Result<Seq<WriteView>, ExecutionError> {
    match txn {
        Transaction::UserTransaction(signed) => match decoded_transaction(signed) {
            Ok(operation) => planned_operation(state, operation),
            Err(reason) => Err(ExecutionError::Unsupported(reason)),
        },
        Transaction::BlockMetadata(metadata) => planned_reward(state, metadata.author),
        Transaction::StateSet(_) => Ok(Seq::empty()),
    }
}

/// What planning gave, as a value.
pub open spec fn plan_view(plan: Result<WriteSet, ExecutionError>) -> Result<
    Seq<WriteView>,
    ExecutionError,
> {
    match plan {
        Ok(write_set) => Ok(write_set@),
        Err(error) => Err(error),
    }
}

/// The resource that was found, for an account that must be there.
pub fn require_account(address: AccountAddress, found: Option<AccountResource>) -> (result: Result<
    AccountResource,
    ExecutionError,
>)
    ensures
        match found {
            Some(resource) => result == Ok::<AccountResource, ExecutionError>(resource),
            None => result == Err::<AccountResource, ExecutionError>(
                ExecutionError::MissingAccount(address),
            ),
        },
{
    match found {
        Some(resource) => Ok(resource),
        None => Err(ExecutionError::MissingAccount(address)),
    }
}

/// The resource that was found, or that of a fresh account at `address`.
pub fn account_or_fresh(address: AccountAddress, found: Option<AccountResource>) -> (resource:
    AccountResource)
    ensures
        Ok::<AccountResourceView, ExecutionError>(resource@) == existing_or_fresh(
            address,
            read_view(Ok(found)),
        ),
{
    match found {
        Some(resource) => resource,
        None => AccountResource::new(0, 0, AuthenticationKey::for_address(&address)),
    }
}

/// The one write that puts `resource` under the key of `address`.
fn push_resource(write_set: &mut WriteSet, address: AccountAddress, resource: AccountResource)
    ensures
        final(write_set)@ == old(write_set)@.push(write_of(address, resource@)),
{
    write_set.push(AccessPath::new_for_account(address), WriteOp::Value(resource.encode()));
}

/// The writes of minting `amount` to `sender`, whose resource is `prior`.
pub fn mint_writes(sender: AccountAddress, amount: u64, prior: &AccountResource) -> (write_set:
    WriteSet)
    ensures
        write_set@ == mint_plan(sender, amount, prior@),
{
    let mut write_set = WriteSet::new();
    let resource = AccountResource::new(amount, 1, *prior.authentication_key());
    push_resource(&mut write_set, sender, resource);
    write_set
}

/// The writes of a payment of `amount` from `sender`, whose resource is
/// `from`, to `recipient`, whose resource is `to`.
pub fn payment_writes(
    sender: AccountAddress,
    recipient: AccountAddress,
    amount: u64,
    from: &AccountResource,
    to: &AccountResource,
) -> (plan: Result<WriteSet, ExecutionError>)
    ensures
        plan_view(plan) == payment_plan(sender, recipient, amount, from@, to@),
{
    let balance_sender = from.balance();
    let balance_receiver = to.balance();
    let taken = if balance_sender < amount {
        balance_sender
    } else {
        amount
    };
    if from.sequence_number() == u64::MAX || balance_receiver > u64::MAX - taken {
        return Err(ExecutionError::Overflow);
    }
    let new_sender = AccountResource::new(
        balance_sender - taken,
        from.sequence_number() + 1,
        *from.authentication_key(),
    );
    let new_receiver = AccountResource::new(
        balance_receiver + taken,
        from.sequence_number(),
        *to.authentication_key(),
    );
    let mut write_set = WriteSet::new();
    push_resource(&mut write_set, sender, new_sender);
    push_resource(&mut write_set, recipient, new_receiver);
    assert(write_set@ =~= payment_plan(sender, recipient, amount, from@, to@)->Ok_0);
    Ok(write_set)
}

/// The writes of the reward for `author`, whose resource is `prior`.
pub fn reward_writes(author: AccountAddress, prior: &AccountResource) -> (plan: Result<
    WriteSet,
    ExecutionError,
>)
    ensures
        plan_view(plan) == reward_plan(author, prior@),
{
    if prior.balance() > u64::MAX - BLOCK_REWARD {
        return Err(ExecutionError::Overflow);
    }
    let resource = AccountResource::new(
        prior.balance() + BLOCK_REWARD,
        prior.sequence_number(),
        *prior.authentication_key(),
    );
    let mut write_set = WriteSet::new();
    push_resource(&mut write_set, author, resource);
    Ok(write_set)
}

/// The store `after` holds what `before` held and the first operations of
/// `ops`, but not all of them.
pub open spec fn partly_applied(before: StateMap, ops: Seq<WriteView>, after: StateMap) -> bool {
    exists|done: int| 0 <= done < ops.len() && after == apply_ops(before, #[trigger] ops.take(done))
}

/// The output of every transaction that the engine saw through: no gas was
/// used, and the output lists no writes (what was written is in the store).
pub open spec fn plain_output(output: TransactionOutput, status: TransactionStatus) -> bool {
    output.status == status && output.gas_used == 0 && output.write_set@.len() == 0
}

/// What may come of executing `txn` on a store with the content `before`.
///
/// The replacement of the whole state is always seen through: either the
/// backend took it, the store holds exactly the new state and the
/// transaction is kept, or the backend refused it, the store is as before
/// and the transaction is discarded.
///
/// Any other transaction is kept with all its writes in the store, or it
/// fails. It fails with the reason for which it is refused, and then the
/// store is as before. It may also fail because the backend failed: during
/// the reads, with the store as before, or at a write, with the writes
/// before that one in the store. A transaction with an operation that the
/// engine does not know fails with that reason, whatever the backend does.
pub open spec fn execution_allowed(
    before: StateMap,
    txn: Transaction,
    result: Result<TransactionOutput, ExecutionError>,
    after: StateMap,
) -> bool {
    match txn {
        Transaction::StateSet(state_set) => match result {
            Ok(output) => (plain_output(output, kept()) && after == state_set.state()) || (
            plain_output(output, discarded()) && after == before),
            Err(_) => false,
        },
        _ => match planned(before, txn) {
            Ok(ops) => match result {
                Ok(output) => plain_output(output, kept()) && after == apply_ops(before, ops),
                Err(ExecutionError::Backend(_)) => after == before || partly_applied(
                    before,
                    ops,
                    after,
                ),
                Err(_) => false,
            },
            Err(refusal) => match result {
                Ok(_) => false,
                Err(ExecutionError::Backend(_)) => after == before && !(refusal is Unsupported),
                Err(error) => error == refusal && after == before,
            },
        },
    }
}

/// The status of the replacement of a whole state, from what the backend
/// said of it: a failure is no error of the engine, it discards the
/// transaction.
pub fn state_set_status(applied: &Result<(), BackendError>) -> (status: TransactionStatus)
    ensures
        status == if applied is Ok {
            kept()
        } else {
            discarded()
        },
{
    match applied {
        Ok(_) => keep_status(),
        Err(_) => discard_status(),
    }
}

/// The error of the engine for an error of the adapter.
pub fn execution_error(error: StoreError) -> (result: ExecutionError)
    ensures
        result == match error {
            StoreError::Backend(failure) => ExecutionError::Backend(failure),
            StoreError::Decode(reason) => ExecutionError::Decode(reason),
        },
{
    match error {
        StoreError::Backend(failure) => ExecutionError::Backend(failure),
        StoreError::Decode(reason) => ExecutionError::Decode(reason),
    }
}

/// Settings of the engine. The mock engine has none to offer.
#[derive(Clone, Copy, Debug)]
pub struct VMConfig {}

/// The mock engine.
#[derive(Clone, Copy, Debug)]
pub struct MockVM {
    config: VMConfig,
}

/// The resource of the account at `address`, as the store has it.
fn read_account<S: ChainState>(store: &StateStore<'_, S>, address: AccountAddress) -> (result:
    Result<Option<AccountResource>, ExecutionError>)
    ensures
        match result {
            Ok(found) => resource_at(store.state(), account_path(address)) == read_view(Ok(found)),
            Err(ExecutionError::Decode(error)) => resource_at(store.state(), account_path(address))
                == Err::<Option<AccountResourceView>, DecodeError>(error),
            Err(ExecutionError::Backend(_)) => true,
            Err(_) => false,
        },
{
    let access_path = AccessPath::new_for_account(address);
    match store.get_resource(&access_path) {
        Ok(found) => Ok(found),
        Err(error) => Err(execution_error(error)),
    }
}

/// Reads what `operation` needs and works out its writes.
fn plan_operation<S: ChainState>(store: &StateStore<'_, S>, operation: MockTransaction) -> (plan:
    Result<WriteSet, ExecutionError>)
    ensures
        plan matches Err(ExecutionError::Backend(_)) || plan_view(plan) == planned_operation(
            store.state(),
            operation,
        ),
        planned_operation(store.state(), operation) matches Err(refusal)
            ==> !(refusal is Backend) && !(refusal is Unsupported),
{
    match operation {
        MockTransaction::Mint { sender, amount } => {
            let found = match read_account(store, sender) {
                Ok(found) => found,
                Err(error) => {
                    return Err(error);
                },
            };
            match require_account(sender, found) {
                Ok(prior) => Ok(mint_writes(sender, amount, &prior)),
                Err(error) => Err(error),
            }
        },
        MockTransaction::Payment { sender, recipient, amount } => {
            let found = match read_account(store, sender) {
                Ok(found) => found,
                Err(error) => {
                    return Err(error);
                },
            };
            let from = match require_account(sender, found) {
                Ok(from) => from,
                Err(error) => {
                    return Err(error);
                },
            };
            let found = match read_account(store, recipient) {
                Ok(found) => found,
                Err(error) => {
                    return Err(error);
                },
            };
            let to = account_or_fresh(recipient, found);
            payment_writes(sender, recipient, amount, &from, &to)
        },
    }
}

/// Reads the resource of `author` and works out the writes of the reward.
fn plan_reward<S: ChainState>(store: &StateStore<'_, S>, author: AccountAddress) -> (plan: Result<
    WriteSet,
    ExecutionError,
>)
    ensures
        plan matches Err(ExecutionError::Backend(_)) || plan_view(plan) == planned_reward(
            store.state(),
            author,
        ),
        planned_reward(store.state(), author) matches Err(refusal) ==> !(refusal is Backend) && !(
        refusal is Unsupported),
{
    let found = match read_account(store, author) {
        Ok(found) => found,
        Err(error) => {
            return Err(error);
        },
    };
    let prior = account_or_fresh(author, found);
    reward_writes(author, &prior)
}

/// Writes `write_set` to the store and reports the transaction as kept.
fn commit<S: ChainState>(store: &mut StateStore<'_, S>, write_set: &WriteSet) -> (result: Result<
    TransactionOutput,
    ExecutionError,
>)
    ensures
        match result {
            Ok(output) => plain_output(output, kept()) && final(store).state() == apply_ops(
                old(store).state(),
                write_set@,
            ),
            Err(ExecutionError::Backend(_)) => partly_applied(
                old(store).state(),
                write_set@,
                final(store).state(),
            ),
            Err(_) => false,
        },
        *final(final(store).chain_state) == *final(old(store).chain_state),
{
    match store.add_write_set(write_set) {
        Ok(()) => Ok(TransactionOutput::new(WriteSet::new(), 0, keep_status())),
        Err(error) => Err(ExecutionError::Backend(error)),
    }
}

impl MockVM {
    /// The settings that the engine was made with.
    pub closed spec fn config(&self) -> VMConfig {
        self.config
    }

    /// An engine with the given settings.
    pub fn new(config: &VMConfig) -> (vm: Self)
        ensures
            vm.config() == *config,
    {
        MockVM { config: *config }
    }

    /// Opens the account at `account_address` under `authentication_key` in
    /// `chain_state`, unless it is there already.
    ///
    /// The backend is asked once for the entry under the account's key. If
    /// that fails, the failure is the result. If there is an entry, the
    /// account is open and nothing is done. If there is none, the result, and
    /// the backend afterwards, are those of one call of the backend's `set`
    /// with the key and the blob of a fresh resource.
    pub fn create_account<S: ChainState>(
        &self,
        account_address: AccountAddress,
        authentication_key: AuthenticationKey,
        chain_state: &mut S,
    ) -> (result: Result<(), BackendError>)
        ensures
            exists|found: Result<Option<Vec<u8>>, BackendError>, access_path: AccessPath|
                access_path@ == account_path(account_address)
                    && #[trigger] call_ensures(S::get, (&*old(chain_state), &access_path), found)
                    && match found {
                    Err(error) => result == Err::<(), BackendError>(error)
                        && *final(chain_state) == *old(chain_state),
                    Ok(Some(_)) => result is Ok && *final(chain_state) == *old(chain_state),
                    Ok(None) => exists|call: &mut S, blob: Vec<u8>|
                        blob@ == encoded(fresh_resource(authentication_key@))
                            && mut_ref_current(call) == *old(chain_state)
                            && mut_ref_future(call) == *final(chain_state)
                            && #[trigger] call_ensures(S::set, (call, &access_path, blob), result),
                },
            result is Ok ==> final(chain_state).state() == with_account(
                old(chain_state).state(),
                account_address,
                authentication_key@,
            ),
            result is Err ==> final(chain_state).state() == old(chain_state).state(),
    {
        let mut state_store = StateStore::new(chain_state);
        state_store.create_account(account_address, authentication_key)
    }

    /// Executes `txn` on `chain_state`, see [`execution_allowed`].
    pub fn execute_transaction<S: ChainState>(&mut self, chain_state: &mut S, txn: Transaction) -> (result:
        Result<TransactionOutput, ExecutionError>)
        ensures
            execution_allowed(old(chain_state).state(), txn, result, final(chain_state).state()),
    {
        match txn {
            Transaction::UserTransaction(signed) => {
                let operation = match decode_transaction(&signed) {
                    Ok(operation) => operation,
                    Err(reason) => {
                        return Err(ExecutionError::Unsupported(reason));
                    },
                };
                let mut state_store = StateStore::new(chain_state);
                match plan_operation(&state_store, operation) {
                    Ok(write_set) => commit(&mut state_store, &write_set),
                    Err(error) => Err(error),
                }
            },
            Transaction::BlockMetadata(metadata) => {
                let (_id, _timestamp, author) = metadata.into_inner();
                let mut state_store = StateStore::new(chain_state);
                match plan_reward(&state_store, author) {
                    Ok(write_set) => commit(&mut state_store, &write_set),
                    Err(error) => Err(error),
                }
            },
            Transaction::StateSet(state_set) => {
                let applied = chain_state.apply(state_set);
                Ok(TransactionOutput::new(WriteSet::new(), 0, state_set_status(&applied)))
            },
        }
    }
}

/// The script that mints `amount`: no code, and the amount.
pub fn encode_mint_program(amount: u64) -> (script: Script)
    ensures
        script.code@ == Seq::<u8>::empty(),
        script.args@ == seq![TransactionArgument::U64(amount)],
{
    let argument = TransactionArgument::U64(amount);
    let mut args: Vec<TransactionArgument> = Vec::new();
    args.push(argument);
    Script::new(Vec::new(), args)
}

/// The script that pays `amount` to `recipient`: no code, the recipient and
/// the amount.
pub fn encode_transfer_program(recipient: AccountAddress, amount: u64) -> (script: Script)
    ensures
        script.code@ == Seq::<u8>::empty(),
        script.args@ == seq![
            TransactionArgument::Address(recipient),
            TransactionArgument::U64(amount),
        ],
{
    let argument1 = TransactionArgument::Address(recipient);
    let argument2 = TransactionArgument::U64(amount);
    let mut args: Vec<TransactionArgument> = Vec::new();
    args.push(argument1);
    args.push(argument2);
    Script::new(Vec::new(), args)
}

/// The transaction of `sender` that runs `program`, before it is signed: the
/// first of the sender, free of gas and without a time limit.
pub fn raw_transaction(sender: AccountAddress, program: Script) -> (raw: RawUserTransaction)
    ensures
        raw == (RawUserTransaction {
            sender,
            sequence_number: 0,
            payload: TransactionPayload::Script(program),
            max_gas_amount: 0,
            gas_unit_price: 0,
            expiration_time: 0,
        }),
{
    RawUserTransaction::new_script(sender, 0, program, 0, 0, 0)
}

/// The transaction of `sender` that runs `program`, with the signature that
/// was made of [`raw_transaction`] for the same sender and program. The
/// engine carries the signature and does not look at it.
pub fn encode_transaction(
    sender: AccountAddress,
    program: Script,
    public_key: Vec<u8>,
    signature: Vec<u8>,
) -> (txn: Transaction)
    ensures
        txn == Transaction::UserTransaction(
            SignedUserTransaction {
                raw_txn: RawUserTransaction {
                    sender,
                    sequence_number: 0,
                    payload: TransactionPayload::Script(program),
                    max_gas_amount: 0,
                    gas_unit_price: 0,
                    expiration_time: 0,
                },
                public_key,
                signature,
            },
        ),
{
    Transaction::UserTransaction(raw_transaction(sender, program).into_signed(public_key, signature))
}

/// The transaction with which `sender` mints `amount`.
pub fn encode_mint_transaction(
    sender: AccountAddress,
    amount: u64,
    public_key: Vec<u8>,
    signature: Vec<u8>,
) -> (txn: Transaction)
    ensures
        txn matches Transaction::UserTransaction(signed) && decoded_transaction(signed) == Ok::<
            MockTransaction,
            UnsupportedTransaction,
        >(MockTransaction::Mint { sender, amount }) && signed.public_key == public_key
            && signed.signature == signature,
{
    encode_transaction(sender, encode_mint_program(amount), public_key, signature)
}

/// The transaction with which `sender` pays `amount` to `recipient`.
pub fn encode_transfer_transaction(
    sender: AccountAddress,
    recipient: AccountAddress,
    amount: u64,
    public_key: Vec<u8>,
    signature: Vec<u8>,
) -> (txn: Transaction)
    ensures
        txn matches Transaction::UserTransaction(signed) && decoded_transaction(signed) == Ok::<
            MockTransaction,
            UnsupportedTransaction,
        >(MockTransaction::Payment { sender, recipient, amount }) && signed.public_key
            == public_key && signed.signature == signature,
{
    encode_transaction(sender, encode_transfer_program(recipient, amount), public_key, signature)
}

} // verus!
