//! What holds of every execution: theorems over the contract of the engine.

use crate::access_path::{account_path, AccessPathView};
use crate::account::{lemma_decode_encode_view, well_formed, AccountResourceView};
use crate::account_address::{unclaimed_key_bytes, AccountAddress};
use crate::chain_state::{lookup, resource_at, ChainStateSet};
use crate::mock_vm::{
    decoded_transaction, deduction, discarded, execution_allowed, existing_or_fresh, kept, planned,
    planned_operation, planned_reward, ExecutionError, MockTransaction, UnsupportedTransaction,
    BLOCK_REWARD,
};
use crate::transaction::{BlockMetadata, SignedUserTransaction, Transaction, TransactionOutput};
use crate::write_set::{lemma_apply_ops_short, StateMap, WriteView};
use vstd::prelude::*;

verus! {

/// The resource that a store holds of an account, where it holds one.
pub open spec fn account_in(state: StateMap, address: AccountAddress) -> Option<
    AccountResourceView,
> {
    match resource_at(state, account_path(address)) {
        Ok(found) => found,
        Err(_) => None,
    }
}

/// What every store holds of an account is well formed, and so is a fresh
/// resource.
pub proof fn lemma_read_well_formed(state: StateMap, address: AccountAddress)
    ensures
        existing_or_fresh(address, resource_at(state, account_path(address))) matches Ok(resource)
            ==> well_formed(resource),
{
    address.lemma_view(address);
}

/// Minting sets, it does not add: after a mint of `amount` that was kept,
/// the sender has exactly `amount` and the sequence number 1, whatever it
/// had before, under the key it had, and no other entry of the store has
/// changed.
pub proof fn lemma_mint_sets_exactly(
    before: StateMap,
    signed: SignedUserTransaction,
    sender: AccountAddress,
    amount: u64,
    output: TransactionOutput,
    after: StateMap,
)
    requires
        decoded_transaction(signed) == Ok::<MockTransaction, UnsupportedTransaction>(
            MockTransaction::Mint { sender, amount },
        ),
        execution_allowed(before, Transaction::UserTransaction(signed), Ok(output), after),
    ensures
        account_in(before, sender) is Some,
        account_in(after, sender) == Some(
            AccountResourceView {
                balance: amount,
                sequence_number: 1,
                authentication_key: account_in(before, sender)->Some_0.authentication_key,
            },
        ),
        forall|other: AccessPathView|
            other != account_path(sender) ==> lookup(after, other)
                == lookup(before, other),
{
    let operation = MockTransaction::Mint { sender, amount };
    let ops = planned_operation(before, operation)->Ok_0;
    let prior = account_in(before, sender)->Some_0;
    lemma_read_well_formed(before, sender);
    lemma_apply_ops_short(before, ops[0], ops[0]);
    lemma_decode_encode_view(
        AccountResourceView {
            balance: amount,
            sequence_number: 1,
            authentication_key: prior.authentication_key,
        },
    );
}

/// The balance that a store holds for an account: nothing where it holds no
/// account.
pub open spec fn balance_in(state: StateMap, address: AccountAddress) -> int {
    match account_in(state, address) {
        Some(resource) => resource.balance as int,
        None => 0,
    }
}

/// The sequence number that a store holds for an account: 0 where it holds
/// no account.
pub open spec fn sequence_number_in(state: StateMap, address: AccountAddress) -> int {
    match account_in(state, address) {
        Some(resource) => resource.sequence_number as int,
        None => 0,
    }
}

/// A payment moves money and makes none: after a payment from one account
/// to another that was kept, the sender has what it had less the deduction,
/// the recipient has what it had and the deduction, and the two together
/// have what they had. The deduction is the amount, or all that the sender
/// had where that is less. The sender's sequence number is one higher; the
/// recipient has the sequence number that the sender had before.
pub proof fn lemma_payment_conserves(
    before: StateMap,
    signed: SignedUserTransaction,
    sender: AccountAddress,
    recipient: AccountAddress,
    amount: u64,
    output: TransactionOutput,
    after: StateMap,
)
    requires
        sender != recipient,
        decoded_transaction(signed) == Ok::<MockTransaction, UnsupportedTransaction>(
            MockTransaction::Payment { sender, recipient, amount },
        ),
        execution_allowed(before, Transaction::UserTransaction(signed), Ok(output), after),
    ensures
        account_in(before, sender) is Some,
        account_in(after, sender) is Some,
        account_in(after, recipient) is Some,
        balance_in(after, sender) == balance_in(before, sender) - deduction(
            amount,
            account_in(before, sender)->Some_0.balance,
        ),
        balance_in(after, recipient) == balance_in(before, recipient) + deduction(
            amount,
            account_in(before, sender)->Some_0.balance,
        ),
        balance_in(after, sender) + balance_in(after, recipient) == balance_in(before, sender)
            + balance_in(before, recipient),
        sequence_number_in(after, sender) == sequence_number_in(before, sender) + 1,
        sequence_number_in(after, recipient) == sequence_number_in(before, sender),
        account_in(after, sender)->Some_0.authentication_key == account_in(
            before,
            sender,
        )->Some_0.authentication_key,
        account_in(after, recipient)->Some_0.authentication_key == (if before.contains_key(
            account_path(recipient),
        ) {
            account_in(before, recipient)->Some_0.authentication_key
        } else {
            unclaimed_key_bytes(recipient@)
        }),
        forall|other: AccessPathView|
            other != account_path(sender) && other != account_path(recipient)
                ==> lookup(after, other) == lookup(
                before,
                other,
            ),
{
    let operation = MockTransaction::Payment { sender, recipient, amount };
    let ops = planned_operation(before, operation)->Ok_0;
    let from = account_in(before, sender)->Some_0;
    let to = existing_or_fresh(recipient, resource_at(before, account_path(recipient)))->Ok_0;
    let taken = deduction(amount, from.balance);
    lemma_read_well_formed(before, sender);
    lemma_read_well_formed(before, recipient);
    lemma_apply_ops_short(before, ops[0], ops[1]);
    lemma_decode_encode_view(
        AccountResourceView {
            balance: (from.balance - taken) as u64,
            sequence_number: (from.sequence_number + 1) as u64,
            authentication_key: from.authentication_key,
        },
    );
    lemma_decode_encode_view(
        AccountResourceView {
            balance: (to.balance + taken) as u64,
            sequence_number: from.sequence_number,
            authentication_key: to.authentication_key,
        },
    );
}

/// A payment opens the account of a recipient that has none: after a payment
/// that was kept, to an address without an entry, that address has an
/// account, and on it exactly the deduction.
pub proof fn lemma_payment_opens_recipient(
    before: StateMap,
    signed: SignedUserTransaction,
    sender: AccountAddress,
    recipient: AccountAddress,
    amount: u64,
    output: TransactionOutput,
    after: StateMap,
)
    requires
        !before.contains_key(account_path(recipient)),
        decoded_transaction(signed) == Ok::<MockTransaction, UnsupportedTransaction>(
            MockTransaction::Payment { sender, recipient, amount },
        ),
        execution_allowed(before, Transaction::UserTransaction(signed), Ok(output), after),
    ensures
        after.contains_key(account_path(recipient)),
        account_in(before, sender) is Some,
        account_in(after, recipient) is Some,
        balance_in(after, recipient) == deduction(amount, account_in(before, sender)->Some_0.balance),
        account_in(after, recipient)->Some_0.authentication_key == unclaimed_key_bytes(recipient@),
{
    lemma_payment_conserves(before, signed, sender, recipient, amount, output, after);
}

/// Who pays itself gains the deduction: the engine reads both sides before
/// it writes either, and the recipient's write comes last. This is why
/// [`lemma_payment_conserves`] asks for two accounts.
pub proof fn lemma_payment_to_self(
    before: StateMap,
    signed: SignedUserTransaction,
    sender: AccountAddress,
    amount: u64,
    output: TransactionOutput,
    after: StateMap,
)
    requires
        decoded_transaction(signed) == Ok::<MockTransaction, UnsupportedTransaction>(
            MockTransaction::Payment { sender, recipient: sender, amount },
        ),
        execution_allowed(before, Transaction::UserTransaction(signed), Ok(output), after),
    ensures
        account_in(before, sender) is Some,
        account_in(after, sender) is Some,
        balance_in(after, sender) == balance_in(before, sender) + deduction(
            amount,
            account_in(before, sender)->Some_0.balance,
        ),
        sequence_number_in(after, sender) == sequence_number_in(before, sender),
{
    let operation = MockTransaction::Payment { sender, recipient: sender, amount };
    let ops = planned_operation(before, operation)->Ok_0;
    let from = account_in(before, sender)->Some_0;
    let taken = deduction(amount, from.balance);
    lemma_read_well_formed(before, sender);
    lemma_apply_ops_short(before, ops[0], ops[1]);
    lemma_decode_encode_view(
        AccountResourceView {
            balance: (from.balance + taken) as u64,
            sequence_number: from.sequence_number,
            authentication_key: from.authentication_key,
        },
    );
}

/// The author of a block is paid the reward: after a block's metadata that
/// was kept, the author, with an account before or without, has the reward
/// more than before, and the sequence number it had.
pub proof fn lemma_block_reward(
    before: StateMap,
    metadata: BlockMetadata,
    output: TransactionOutput,
    after: StateMap,
)
    requires
        execution_allowed(before, Transaction::BlockMetadata(metadata), Ok(output), after),
    ensures
        account_in(after, metadata.author) is Some,
        balance_in(after, metadata.author) == balance_in(before, metadata.author) + BLOCK_REWARD,
        sequence_number_in(after, metadata.author) == sequence_number_in(before, metadata.author),
        forall|other: AccessPathView|
            other != account_path(metadata.author) ==> lookup(after, other)
                == lookup(before, other),
{
    let author = metadata.author;
    let ops = planned_reward(before, author)->Ok_0;
    let prior = existing_or_fresh(author, resource_at(before, account_path(author)))->Ok_0;
    lemma_read_well_formed(before, author);
    lemma_apply_ops_short(before, ops[0], ops[0]);
    lemma_decode_encode_view(
        AccountResourceView {
            balance: (prior.balance + BLOCK_REWARD) as u64,
            sequence_number: prior.sequence_number,
            authentication_key: prior.authentication_key,
        },
    );
}

/// The replacement of the whole state takes effect as a whole or not at
/// all: it always has an output, kept with the store holding exactly the new
/// state, or discarded with the store as it was.
pub proof fn lemma_state_set_all_or_nothing(
    before: StateMap,
    state_set: ChainStateSet,
    result: Result<TransactionOutput, ExecutionError>,
    after: StateMap,
)
    requires
        execution_allowed(before, Transaction::StateSet(state_set), result, after),
    ensures
        result is Ok,
        result->Ok_0.status == kept() || result->Ok_0.status == discarded(),
        result->Ok_0.status == kept() ==> after == state_set.state(),
        result->Ok_0.status == discarded() ==> after == before,
{
}

/// What the engine does not know, it does not touch: a user's transaction
/// whose operation is unknown fails with the reason, whatever the backend
/// does, and the store is as it was.
pub proof fn lemma_unsupported_changes_nothing(
    before: StateMap,
    signed: SignedUserTransaction,
    result: Result<TransactionOutput, ExecutionError>,
    after: StateMap,
)
    requires
        decoded_transaction(signed) is Err,
        execution_allowed(before, Transaction::UserTransaction(signed), result, after),
    ensures
        result matches Err(ExecutionError::Unsupported(reason)) && Err::<
            MockTransaction,
            UnsupportedTransaction,
        >(reason) == decoded_transaction(signed),
        after == before,
{
}

/// A transaction that is refused has changed nothing: only a failure of the
/// backend at a write can leave a part of a transaction's writes behind.
pub proof fn lemma_refused_changes_nothing(
    before: StateMap,
    txn: Transaction,
    error: ExecutionError,
    after: StateMap,
)
    requires
        execution_allowed(before, txn, Err(error), after),
        !(error is Backend),
    ensures
        after == before,
        planned(before, txn) == Err::<Seq<WriteView>, ExecutionError>(error),
{
}

} // verus!
