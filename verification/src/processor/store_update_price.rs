//! The UpdatePrice operation.
//!
//! Account order: the store account (writable), then the administrator
//! identity.  The store account's record is mutated in place; nothing else
//! changes, and on any refusal nothing changes at all.

use vstd::prelude::*;

use crate::account::{views_of, AccountHandle, AccountView};
use crate::error::{ProgramError, SplStoreError};
use crate::pubkey::Pubkey;
use crate::store::account::{update_record_error, updated_store, StoreAccount};
use crate::store::Price;

verus! {

/// The first refusal an UpdatePrice call runs into, if any.
pub open spec fn update_price_error(s: Seq<AccountView>, new_price: Price) -> Option<
    ProgramError,
> {
    if s.len() < 2 {
        Some(ProgramError::NotEnoughAccountKeys)
    } else if !s[0].is_writable {
        Some(ProgramError::Custom(SplStoreError::AccountNotWritable))
    } else {
        update_record_error(s[0], s[1].key, new_price)
    }
}

/// The account list after a successful UpdatePrice.
pub open spec fn update_price_post(s: Seq<AccountView>, new_price: Price) -> Seq<AccountView> {
    s.update(0, updated_store(s[0], new_price))
}

/// Handles UpdatePrice: replaces the stored unit price, gated on the
/// stored administrator identity and on price positivity.
pub fn process(
    _program_id: &Pubkey,
    accounts: &mut Vec<AccountHandle>,
    new_price: Price,
) -> (r: Result<(), ProgramError>)
    ensures
        match r {
            Ok(()) => update_price_error(views_of(old(accounts)@), new_price) is None
                && views_of(final(accounts)@) == update_price_post(
                views_of(old(accounts)@),
                new_price,
            ),
            Err(e) => update_price_error(views_of(old(accounts)@), new_price) == Some(e)
                && final(accounts)@ == old(accounts)@,
        },
{
    if accounts.len() < 2 {
        return Err(ProgramError::NotEnoughAccountKeys);
    }
    if !accounts[0].is_writable {
        return Err(ProgramError::Custom(SplStoreError::AccountNotWritable));
    }
    let mut store = accounts[0].clone_handle();
    match StoreAccount::update_price(&mut store, &accounts[1], new_price) {
        Ok(()) => {
            accounts.set(0, store);
            proof {
                assert(views_of(accounts@) =~= update_price_post(
                    views_of(old(accounts)@),
                    new_price,
                ));
            }
            Ok(())
        },
        Err(e) => Err(e),
    }
}

} // verus!
