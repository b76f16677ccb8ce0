//! What the wallet shows of one account, put together from what the wallet
//! and the node say of it.

use crate::account::AccountResource;
use crate::account_address::{AccountAddress, AuthenticationKey};
use vstd::prelude::*;

verus! {

/// What the user asks to see.
#[derive(Debug)]
pub struct ShowOpt {
    /// The token whose balance is wanted besides the account's own, as the
    /// text of its type tag.
    pub type_tag: Option<String>,
    pub account_address: AccountAddress,
}

/// An account as the wallet keeps it.
#[derive(Debug, PartialEq, Eq)]
pub struct WalletAccount {
    pub address: AccountAddress,
    pub is_default: bool,
    pub public_key: Vec<u8>,
}

/// An account as the wallet shows it.
#[derive(Debug)]
pub struct AccountWithStateView {
    pub auth_key_prefix: String,
    pub account: WalletAccount,
    pub sequence_number: Option<u64>,
    pub balance: Option<u64>,
    pub token_balance: Option<u64>,
}

/// Why nothing can be shown.
#[derive(Clone, Copy, Debug, PartialEq, Eq)]
pub enum ShowError {
    /// The wallet has no account with this address.
    AccountNotFound(AccountAddress),
}

/// The digit for a number below sixteen.
pub open spec fn hex_digit(nibble: int) -> char {
    seq!['0', '1', '2', '3', '4', '5', '6', '7', '8', '9', 'a', 'b', 'c', 'd', 'e', 'f'][nibble]
}

/// Bytes as text: two digits for each byte, the higher half first, letters
/// in lower case.
pub open spec fn hex_text(bytes: Seq<u8>) -> Seq<char> {
    Seq::new(
        2 * bytes.len(),
        |i: int|
            if i % 2 == 0 {
                hex_digit(bytes[i / 2] as int / 16)
            } else {
                hex_digit(bytes[i / 2] as int % 16)
            },
    )
}

/// `hex::encode` on a slice of bytes. It is taken to write each byte as two
/// digits from `0123456789abcdef`, first the one for the byte's higher four
/// bits, then the one for its lower four, and nothing else.
#[verifier::external_body]
fn hex_encode(bytes: &[u8]) -> (text: String)
    ensures
        text@ == hex_text(bytes@),
{
    hex::encode(bytes)
}

/// The command that shows an account.
#[derive(Clone, Copy, Debug)]
pub struct ShowCommand;

impl ShowCommand {
    /// The account that the wallet found at `address`, or the error for
    /// none.
    pub fn found_account(&self, address: AccountAddress, account: Option<WalletAccount>) -> (result:
        Result<WalletAccount, ShowError>)
        ensures
            match account {
                Some(found) => result == Ok::<WalletAccount, ShowError>(found),
                None => result == Err::<WalletAccount, ShowError>(
                    ShowError::AccountNotFound(address),
                ),
            },
    {
        match account {
            Some(found) => Ok(found),
            None => Err(ShowError::AccountNotFound(address)),
        }
    }

    /// The type tag whose balance is shown, of those that the user's text
    /// holds: the first.
    pub fn first_type_tag<T>(&self, tags: Vec<T>) -> (first: Option<T>)
        ensures
            match first {
                Some(tag) => tags@.len() > 0 && tag == tags@[0],
                None => tags@.len() == 0,
            },
    {
        let mut tags = tags;
        if tags.len() == 0 {
            None
        } else {
            Some(tags.swap_remove(0))
        }
    }

    /// The view of `account`, whose key is `authentication_key`, from what
    /// the node holds of it: its resource, its balance, and its balance of
    /// the token that was asked for.
    pub fn run(
        &self,
        account: WalletAccount,
        authentication_key: &AuthenticationKey,
        resource: Option<AccountResource>,
        balance: Option<u64>,
        token_balance: Option<u64>,
    ) -> (view: AccountWithStateView)
        ensures
            view.auth_key_prefix@ == hex_text(authentication_key@.subrange(0, 16)),
            view.account == account,
            view.sequence_number == match resource {
                Some(found) => Some(found.sequence_number),
                None => None,
            },
            view.balance == balance,
            view.token_balance == token_balance,
    {
        let sequence_number = match resource {
            Some(found) => Some(found.sequence_number()),
            None => None,
        };
        let prefix = authentication_key.prefix();
        let auth_key_prefix = hex_encode(prefix.as_slice());
        AccountWithStateView { auth_key_prefix, account, sequence_number, balance, token_balance }
    }
}

} // verus!
