//! Transactions, as the engine takes them, and the outcome it gives for each.

use crate::account_address::AccountAddress;
use crate::chain_state::ChainStateSet;
use crate::write_set::WriteSet;
use vstd::prelude::*;

verus! {

/// One argument of a script.
#[derive(Debug)]
pub enum TransactionArgument {
    U64(u64),
    Address(AccountAddress),
    U8Vector(Vec<u8>),
    Bool(bool),
}

/// A script: code, and the arguments it is run with.
#[derive(Debug)]
pub struct Script {
    pub code: Vec<u8>,
    pub args: Vec<TransactionArgument>,
}

impl Script {
    pub fn new(code: Vec<u8>, args: Vec<TransactionArgument>) -> (script: Self)
        ensures
            script.code == code,
            script.args == args,
    {
        Script { code, args }
    }

    pub fn code(&self) -> (code: &Vec<u8>)
        ensures
            *code == self.code,
    {
        &self.code
    }

    pub fn args(&self) -> (args: &Vec<TransactionArgument>)
        ensures
            *args == self.args,
    {
        &self.args
    }
}

/// A module to publish.
#[derive(Debug)]
pub struct Module {
    pub code: Vec<u8>,
}

impl Module {
    pub fn new(code: Vec<u8>) -> (module: Self)
        ensures
            module.code == code,
    {
        Module { code }
    }
}

/// What a user's transaction carries.
#[derive(Debug)]
pub enum TransactionPayload {
    Script(Script),
    Module(Module),
    StateSet(ChainStateSet),
}

/// A user's transaction before it is signed.
#[derive(Debug)]
pub struct RawUserTransaction {
    pub sender: AccountAddress,
    pub sequence_number: u64,
    pub payload: TransactionPayload,
    pub max_gas_amount: u64,
    pub gas_unit_price: u64,
    /// Seconds after which the transaction is no longer valid.
    pub expiration_time: u64,
}

impl RawUserTransaction {
    /// The transaction of `sender` that runs `script`.
    pub fn new_script(
        sender: AccountAddress,
        sequence_number: u64,
        script: Script,
        max_gas_amount: u64,
        gas_unit_price: u64,
        expiration_time: u64,
    ) -> (raw: Self)
        ensures
            raw == (RawUserTransaction {
                sender,
                sequence_number,
                payload: TransactionPayload::Script(script),
                max_gas_amount,
                gas_unit_price,
                expiration_time,
            }),
    {
        RawUserTransaction {
            sender,
            sequence_number,
            payload: TransactionPayload::Script(script),
            max_gas_amount,
            gas_unit_price,
            expiration_time,
        }
    }

    /// This transaction with the signature that its sender made of it. The
    /// signature is carried, not checked.
    pub fn into_signed(self, public_key: Vec<u8>, signature: Vec<u8>) -> (signed: SignedUserTransaction)
        ensures
            signed == (SignedUserTransaction { raw_txn: self, public_key, signature }),
    {
        SignedUserTransaction { raw_txn: self, public_key, signature }
    }
}

/// A user's transaction with its signature.
#[derive(Debug)]
pub struct SignedUserTransaction {
    pub raw_txn: RawUserTransaction,
    pub public_key: Vec<u8>,
    pub signature: Vec<u8>,
}

impl SignedUserTransaction {
    pub fn sender(&self) -> (sender: AccountAddress)
        ensures
            sender == self.raw_txn.sender,
    {
        self.raw_txn.sender
    }

    pub fn payload(&self) -> (payload: &TransactionPayload)
        ensures
            *payload == self.raw_txn.payload,
    {
        &self.raw_txn.payload
    }
}

/// What a block says of itself: the block's id, its time, and who proposed
/// it.
#[derive(Clone, Copy, Debug)]
pub struct BlockMetadata {
    pub id: [u8; 32],
    pub timestamp: u64,
    pub author: AccountAddress,
}

impl BlockMetadata {
    pub fn new(id: [u8; 32], timestamp: u64, author: AccountAddress) -> (metadata: Self)
        ensures
            metadata == (BlockMetadata { id, timestamp, author }),
    {
        BlockMetadata { id, timestamp, author }
    }

    /// The id, the time and the author.
    pub fn into_inner(self) -> (parts: ([u8; 32], u64, AccountAddress))
        ensures
            parts == (self.id, self.timestamp, self.author),
    {
        (self.id, self.timestamp, self.author)
    }
}

/// What the engine executes.
#[derive(Debug)]
pub enum Transaction {
    /// A transaction that a user signed.
    UserTransaction(SignedUserTransaction),
    /// The start of a block, for which its author is rewarded.
    BlockMetadata(BlockMetadata),
    /// A whole state that replaces what the backend holds.
    StateSet(ChainStateSet),
}

/// How an execution ended.
#[derive(Clone, Copy, Debug, PartialEq, Eq, Structural)]
pub enum StatusCode {
    Executed,
    Aborted,
}

/// A status code, with a number that says more where there is more to say.
#[derive(Clone, Copy, Debug, PartialEq, Eq, Structural)]
pub struct VMStatus {
    pub major_status: StatusCode,
    pub sub_status: Option<u64>,
}

impl VMStatus {
    pub fn new(major_status: StatusCode) -> (status: Self)
        ensures
            status == (VMStatus { major_status, sub_status: None }),
    {
        VMStatus { major_status, sub_status: None }
    }

    pub fn with_sub_status(self, sub_status: u64) -> (status: Self)
        ensures
            status == (VMStatus { major_status: self.major_status, sub_status: Some(sub_status) }),
    {
        VMStatus { major_status: self.major_status, sub_status: Some(sub_status) }
    }
}

/// Whether a transaction stays in the ledger.
#[derive(Clone, Copy, Debug, PartialEq, Eq, Structural)]
pub enum TransactionStatus {
    /// It stays, with what it did.
    Keep(VMStatus),
    /// It is left out of the block, and nothing that it did stays.
    Discard(VMStatus),
}

/// What the engine reports of one transaction.
#[derive(Debug)]
pub struct TransactionOutput {
    pub write_set: WriteSet,
    pub gas_used: u64,
    pub status: TransactionStatus,
}

impl TransactionOutput {
    pub fn new(write_set: WriteSet, gas_used: u64, status: TransactionStatus) -> (output: Self)
        ensures
            output == (TransactionOutput { write_set, gas_used, status }),
    {
        TransactionOutput { write_set, gas_used, status }
    }

    pub fn write_set(&self) -> (write_set: &WriteSet)
        ensures
            *write_set == self.write_set,
    {
        &self.write_set
    }

    pub fn gas_used(&self) -> (gas_used: u64)
        ensures
            gas_used == self.gas_used,
    {
        self.gas_used
    }

    pub fn status(&self) -> (status: &TransactionStatus)
        ensures
            *status == self.status,
    {
        &self.status
    }
}

} // verus!
