//! The account model the processor operates on.
//!
//! Each operation receives a positional list of account handles.  A handle
//! carries what the processor may read or write of an account: its key, its
//! native-currency balance in lamports, its owning program, whether it
//! signed the transaction, whether it was supplied writable, and its
//! contents.  Contents are either raw record bytes (the price-store record
//! lives there) or the readable part of a token account: its mint and its
//! token balance.

use vstd::prelude::*;

use crate::pubkey::{key_wf, clone_bytes, Pubkey};

verus! {

/// What the processor reads of a token account: its mint and its balance
/// in base token units.
#[derive(Debug)]
pub struct TokenContents {
    /// The mint this token account holds balances of.
    pub mint: Pubkey,
    /// The balance, in base token units.
    pub amount: u64,
}

/// The contents of an account.
///
/// `Raw` holds plain record bytes (empty for a fresh account);
/// `Token` means the data parses as an initialized token account.
#[derive(Debug)]
pub enum AccountContents {
    /// Plain record bytes owned by some program.
    Raw(Vec<u8>),
    /// A readable token-account record.
    Token(TokenContents),
}

/// One account handle as supplied to an operation.
#[derive(Debug)]
pub struct AccountHandle {
    /// The account's identity.
    pub key: Pubkey,
    /// The native-currency balance, in lamports.
    pub lamports: u64,
    /// The program that owns the account.
    pub owner: Pubkey,
    /// Whether this account signed the transaction.
    pub is_signer: bool,
    /// Whether this account was supplied writable.
    pub is_writable: bool,
    /// The account's contents.
    pub contents: AccountContents,
}

/// The mathematical image of `AccountContents`.
#[verifier::ext_equal]
pub ghost enum ContentsView {
    /// Plain record bytes.
    Raw(Seq<u8>),
    /// A readable token-account record.
    Token { mint: Seq<u8>, amount: u64 },
}

/// The mathematical image of one account handle.
#[verifier::ext_equal]
pub ghost struct AccountView {
    /// The account's identity.
    pub key: Seq<u8>,
    /// The native-currency balance, in lamports.
    pub lamports: u64,
    /// The program that owns the account.
    pub owner: Seq<u8>,
    /// Whether this account signed the transaction.
    pub is_signer: bool,
    /// Whether this account was supplied writable.
    pub is_writable: bool,
    /// The account's contents.
    pub contents: ContentsView,
}

impl View for AccountContents {
    type V = ContentsView;

    open spec fn view(&self) -> ContentsView {
        match self {
            AccountContents::Raw(bytes) => ContentsView::Raw(bytes@),
            AccountContents::Token(t) => ContentsView::Token { mint: t.mint@, amount: t.amount },
        }
    }
}

impl View for AccountHandle {
    type V = AccountView;

    open spec fn view(&self) -> AccountView {
        AccountView {
            key: self.key@,
            lamports: self.lamports,
            owner: self.owner@,
            is_signer: self.is_signer,
            is_writable: self.is_writable,
            contents: self.contents@,
        }
    }
}

impl AccountView {
    /// Whether the contents are a readable token account.
    pub open spec fn is_token(self) -> bool {
        self.contents is Token
    }

    /// The recorded mint of a token account; the empty sequence otherwise.
    pub open spec fn token_mint(self) -> Seq<u8> {
        match self.contents {
            ContentsView::Token { mint, .. } => mint,
            ContentsView::Raw(_) => Seq::empty(),
        }
    }

    /// The token balance of a token account; zero otherwise.
    pub open spec fn token_amount(self) -> u64 {
        match self.contents {
            ContentsView::Token { amount, .. } => amount,
            ContentsView::Raw(_) => 0,
        }
    }

    /// The same account with another native balance.
    pub open spec fn with_lamports(self, lamports: u64) -> AccountView {
        AccountView { lamports, ..self }
    }

    /// The same token account with another token balance.
    pub open spec fn with_token_amount(self, amount: u64) -> AccountView {
        AccountView {
            contents: ContentsView::Token { mint: self.token_mint(), amount },
            ..self
        }
    }
}

/// The mathematical image of an account list.
pub open spec fn views_of(accounts: Seq<AccountHandle>) -> Seq<AccountView> {
    accounts.map_values(|a: AccountHandle| a@)
}

/// An account view is well formed when its keys hold 32 bytes each.
pub open spec fn account_wf(a: AccountView) -> bool {
    &&& key_wf(a.key)
    &&& key_wf(a.owner)
    &&& (a.contents matches ContentsView::Token { mint, .. } ==> key_wf(mint))
}

/// The first `n` accounts of the list are well formed.
pub open spec fn accounts_wf(s: Seq<AccountView>, n: int) -> bool {
    forall|i: int| 0 <= i < n && i < s.len() ==> account_wf(#[trigger] s[i])
}

/// The first `n` accounts of the list carry pairwise distinct keys: each
/// handle stands for a different account, so writing one never aliases
/// another.
pub open spec fn keys_distinct(s: Seq<AccountView>, n: int) -> bool {
    forall|i: int, j: int| 0 <= i < j < n && j < s.len() ==> (#[trigger] s[i]).key != (
    #[trigger] s[j]).key
}

impl AccountContents {
    /// Fresh contents holding the same data.
    pub fn clone_contents(&self) -> (r: AccountContents)
        ensures
            r@ == self@,
    {
        match self {
            AccountContents::Raw(bytes) => AccountContents::Raw(clone_bytes(bytes)),
            AccountContents::Token(t) => AccountContents::Token(
                TokenContents { mint: t.mint.clone_key(), amount: t.amount },
            ),
        }
    }
}

impl AccountHandle {
    /// A fresh handle holding the same account state.
    pub fn clone_handle(&self) -> (r: AccountHandle)
        ensures
            r@ == self@,
    {
        AccountHandle {
            key: self.key.clone_key(),
            lamports: self.lamports,
            owner: self.owner.clone_key(),
            is_signer: self.is_signer,
            is_writable: self.is_writable,
            contents: self.contents.clone_contents(),
        }
    }
}

} // verus!
