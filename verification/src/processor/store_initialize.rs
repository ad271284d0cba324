//! The Initialize operation.
//!
//! Account order: funding account (writable signer), the store's
//! associated token account (writable), the store account, the token mint,
//! the system program, the token program, the administrator identity.
//!
//! If the store account is unfunded it is first created and funded; the
//! record is then written with the given price and administrator; finally,
//! if the store's associated token account is unfunded, it is provisioned.
//! Calling again on an initialized store updates the record in place and
//! skips both creations.

use vstd::prelude::*;

use crate::account::{accounts_wf, keys_distinct, views_of, AccountContents, AccountHandle,
    AccountView};
use crate::error::{ProgramError, SplStoreError};
use crate::pubkey::{key_eq, Pubkey};
use crate::store::account::{account_store_record, create_funding_debited, created_store,
    initialize_account_error, initialize_ata_error, provision_funding_debited, provisioned_ata,
    store_with_record, StoreAccount, StoreRecordView};
use crate::store::{Amount, Price};

verus! {

/// The account list after the optional creation of the store account.
pub open spec fn initialize_mid_created(
    s: Seq<AccountView>,
    program_id: Seq<u8>,
    add_sol: Amount,
) -> Seq<AccountView> {
    if s[2].lamports == 0 {
        s.update(0, create_funding_debited(s[0], add_sol)).update(
            2,
            created_store(s[2], program_id, add_sol),
        )
    } else {
        s
    }
}

/// The account list after the record is written.
pub open spec fn initialize_mid_written(s: Seq<AccountView>, price: Price, admin_key: Seq<u8>) -> Seq<
    AccountView,
> {
    s.update(2, store_with_record(s[2], StoreRecordView { price, admin: admin_key }))
}

/// The account list after a successful Initialize.
pub open spec fn initialize_post(
    s: Seq<AccountView>,
    program_id: Seq<u8>,
    price: Price,
    add_sol: Amount,
) -> Seq<AccountView> {
    let s2 = initialize_mid_written(
        initialize_mid_created(s, program_id, add_sol),
        price,
        s[6].key,
    );
    if s2[1].lamports == 0 {
        s2.update(0, provision_funding_debited(s2[0])).update(
            1,
            provisioned_ata(s2[1], s[3].key, s[5].key),
        )
    } else {
        s2
    }
}

/// The first refusal an Initialize call runs into, if any.
pub open spec fn initialize_error(
    s: Seq<AccountView>,
    program_id: Seq<u8>,
    price: Price,
    add_sol: Amount,
) -> Option<ProgramError> {
    if s.len() < 7 {
        Some(ProgramError::NotEnoughAccountKeys)
    } else if price == 0 {
        Some(ProgramError::Custom(SplStoreError::InvalidPrice))
    } else if s[2].lamports == 0 && initialize_account_error(s[0], s[2], add_sol) is Some {
        initialize_account_error(s[0], s[2], add_sol)
    } else {
        let s1 = initialize_mid_created(s, program_id, add_sol);
        if s1[2].owner != program_id {
            Some(ProgramError::IncorrectProgramId)
        } else if account_store_record(s1[2]) is None {
            Some(ProgramError::InvalidAccountData)
        } else {
            let s2 = initialize_mid_written(s1, price, s[6].key);
            if s2[1].lamports == 0 {
                initialize_ata_error(s2[0], s2[1], s2[2], s[3], s[4], s[5])
            } else {
                None
            }
        }
    }
}

/// Handles Initialize: creates and funds the store account if needed,
/// writes the record with the given price and administrator, and
/// provisions the store's associated token account if needed.
///
/// The first seven accounts must carry 32-byte keys, and the three
/// accounts this operation may write — funding, store token account and
/// store — must be distinct: each handle stands for a different account.
pub fn process(
    program_id: &Pubkey,
    accounts: &mut Vec<AccountHandle>,
    price: Price,
    add_sol: Amount,
) -> (r: Result<(), ProgramError>)
    requires
        accounts_wf(views_of(old(accounts)@), 7),
        keys_distinct(views_of(old(accounts)@), 3),
    ensures
        match r {
            Ok(()) => initialize_error(views_of(old(accounts)@), program_id@, price, add_sol)
                is None && views_of(final(accounts)@) == initialize_post(
                views_of(old(accounts)@),
                program_id@,
                price,
                add_sol,
            ),
            Err(e) => initialize_error(views_of(old(accounts)@), program_id@, price, add_sol)
                == Some(e) && final(accounts)@ == old(accounts)@,
        },
{
    if accounts.len() < 7 {
        return Err(ProgramError::NotEnoughAccountKeys);
    }
    if price == 0 {
        return Err(ProgramError::Custom(SplStoreError::InvalidPrice));
    }
    let mut funding = accounts[0].clone_handle();
    let mut store_ata = accounts[1].clone_handle();
    let mut store = accounts[2].clone_handle();
    if store.lamports == 0 {
        StoreAccount::initialize_account(program_id, &mut funding, &mut store, add_sol)?;
    }
    if !key_eq(&store.owner, program_id) {
        return Err(ProgramError::IncorrectProgramId);
    }
    match &store.contents {
        AccountContents::Raw(bytes) => {
            let _existing = StoreAccount::try_from_slice(bytes)?;
        },
        AccountContents::Token(_) => {
            return Err(ProgramError::InvalidAccountData);
        },
    }
    let new_rec = StoreAccount { price, admin: accounts[6].key.clone_key() };
    store.contents = AccountContents::Raw(new_rec.serialize());
    if store_ata.lamports == 0 {
        StoreAccount::initialize_ata(
            &mut funding,
            &mut store_ata,
            &store,
            &accounts[3],
            &accounts[4],
            &accounts[5],
        )?;
    }
    accounts.set(0, funding);
    accounts.set(1, store_ata);
    accounts.set(2, store);
    proof {
        assert(views_of(accounts@) =~= initialize_post(
            views_of(old(accounts)@),
            program_id@,
            price,
            add_sol,
        ));
    }
    Ok(())
}

} // verus!
