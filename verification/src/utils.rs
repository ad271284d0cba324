//! Shared validation helpers.

use vstd::prelude::*;

use crate::account::{AccountContents, AccountHandle, AccountView, ContentsView};
use crate::error::{ProgramError, SplStoreError};
use crate::pubkey::key_eq;

verus! {

/// The refusals of the mint check: a handle whose contents are no token
/// account, or a token account recorded for a different mint.
pub open spec fn ata_mint_error(a: AccountView, mint_key: Seq<u8>) -> Option<ProgramError> {
    match a.contents {
        ContentsView::Raw(_) => Some(ProgramError::Custom(SplStoreError::NoAccountMint)),
        ContentsView::Token { mint, .. } => if mint != mint_key {
            Some(ProgramError::Custom(SplStoreError::WrongAccountMint))
        } else {
            None
        },
    }
}

/// Checks that a token account's recorded mint is the supplied mint,
/// guarding every transfer against wrong-token substitution.
pub fn check_ata_mint(ata: &AccountHandle, token_mint: &AccountHandle) -> (r: Result<
    (),
    ProgramError,
>)
    ensures
        match r {
            Ok(()) => ata_mint_error(ata@, token_mint@.key) is None,
            Err(e) => ata_mint_error(ata@, token_mint@.key) == Some(e),
        },
{
    match &ata.contents {
        AccountContents::Raw(_) => Err(ProgramError::Custom(SplStoreError::NoAccountMint)),
        AccountContents::Token(t) => {
            if !key_eq(&t.mint, &token_mint.key) {
                Err(ProgramError::Custom(SplStoreError::WrongAccountMint))
            } else {
                Ok(())
            }
        },
    }
}

} // verus!
