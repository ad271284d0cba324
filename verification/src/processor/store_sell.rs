//! The Sell operation: the store sells tokens to the client.
//!
//! Account order: funding account (writable signer), store account
//! (writable signer — it authorizes the outgoing token transfer), the
//! store's associated token account, client account, the client's
//! associated token account, the token mint, the system program, the
//! token program.
//!
//! After validation, `amount` base token units move from the store's
//! token account to the client's, and the native cost moves from the
//! client's balance to the store's — all or nothing.

use vstd::prelude::*;

use crate::account::{accounts_wf, keys_distinct, views_of, AccountContents, AccountHandle,
    AccountView, TokenContents};
use crate::error::{ProgramError, SplStoreError};
use crate::host::{ata_address, check_token_program_id, derive_ata_address, is_token_program_key};
use crate::pubkey::{key_eq, Pubkey};
use crate::processor::{trade_cost, LAMPORTS_PER_SOL};
use crate::store::account::{account_store_record, provision_ata_error, provision_funding_debited,
    provisioned_ata, StoreAccount};
use crate::store::Amount;
use crate::utils::{ata_mint_error, check_ata_mint};

verus! {

/// The account list after the optional provisioning of the client's
/// associated token account.
pub open spec fn sell_mid_created(s: Seq<AccountView>) -> Seq<AccountView> {
    if s[4].lamports == 0 {
        s.update(0, provision_funding_debited(s[0])).update(
            4,
            provisioned_ata(s[4], s[5].key, s[7].key),
        )
    } else {
        s
    }
}

/// The first refusal a Sell call runs into before the price is read, if
/// any.
pub open spec fn sell_precheck_error(s: Seq<AccountView>, program_id: Seq<u8>, amount: Amount) -> Option<
    ProgramError,
> {
    if s.len() < 8 {
        Some(ProgramError::NotEnoughAccountKeys)
    } else if !is_token_program_key(s[7].key) {
        Some(ProgramError::IncorrectProgramId)
    } else if s[1].owner != program_id {
        Some(ProgramError::IncorrectProgramId)
    } else if !s[1].is_signer {
        Some(ProgramError::Custom(SplStoreError::AccountNotSigner))
    } else if !s[1].is_writable {
        Some(ProgramError::Custom(SplStoreError::AccountNotWritable))
    } else if !s[0].is_signer {
        Some(ProgramError::Custom(SplStoreError::AccountNotSigner))
    } else if !s[0].is_writable {
        Some(ProgramError::Custom(SplStoreError::AccountNotWritable))
    } else if !s[2].is_writable {
        Some(ProgramError::Custom(SplStoreError::AccountNotWritable))
    } else if !s[4].is_writable {
        Some(ProgramError::Custom(SplStoreError::AccountNotWritable))
    } else if !s[2].is_token() {
        Some(ProgramError::InvalidAccountData)
    } else if s[2].token_amount() < amount {
        Some(ProgramError::Custom(SplStoreError::InsufficientFundsForTransaction))
    } else if ata_mint_error(s[2], s[5].key) is Some {
        ata_mint_error(s[2], s[5].key)
    } else if s[4].lamports == 0 && provision_ata_error(s[0], s[4], s[3].key, s[5].key, s[7].key)
        is Some {
        provision_ata_error(s[0], s[4], s[3].key, s[5].key, s[7].key)
    } else if ata_mint_error(sell_mid_created(s)[4], s[5].key) is Some {
        ata_mint_error(sell_mid_created(s)[4], s[5].key)
    } else if account_store_record(s[1]) is None {
        Some(ProgramError::InvalidAccountData)
    } else {
        None
    }
}

/// The first refusal a Sell call runs into, if any.
pub open spec fn sell_error(s: Seq<AccountView>, program_id: Seq<u8>, amount: Amount) -> Option<
    ProgramError,
> {
    if sell_precheck_error(s, program_id, amount) is Some {
        sell_precheck_error(s, program_id, amount)
    } else {
        let s1 = sell_mid_created(s);
        let rec = account_store_record(s[1])->Some_0;
        let cost = trade_cost(amount, rec.price);
        if s[3].lamports < cost {
            Some(ProgramError::Custom(SplStoreError::InsufficientFundsForTransaction))
        } else if s[2].key != ata_address(s[1].key, s[5].key) {
            Some(ProgramError::Custom(SplStoreError::InvalidAtaAddress))
        } else if s1[4].key != ata_address(s[3].key, s[5].key) {
            Some(ProgramError::Custom(SplStoreError::InvalidAtaAddress))
        } else if s1[4].token_amount() + amount > u64::MAX {
            Some(ProgramError::TokenTransferFailed)
        } else {
            None
        }
    }
}

/// The account list after a successful Sell.
pub open spec fn sell_post(s: Seq<AccountView>, amount: Amount) -> Seq<AccountView> {
    let s1 = sell_mid_created(s);
    let rec = account_store_record(s[1])->Some_0;
    let cost = trade_cost(amount, rec.price) as u64;
    s1.update(2, s1[2].with_token_amount((s1[2].token_amount() - amount) as u64)).update(
        4,
        s1[4].with_token_amount((s1[4].token_amount() + amount) as u64),
    ).update(3, s1[3].with_lamports((s1[3].lamports - cost) as u64)).update(
        1,
        s1[1].with_lamports((s1[1].lamports + cost) as u64),
    )
}

/// The native cost of the trade, and the store's credited balance, fit in
/// the balance type whenever the price is about to be read.
pub open spec fn sell_fits(s: Seq<AccountView>, program_id: Seq<u8>, amount: Amount) -> bool {
    sell_precheck_error(s, program_id, amount) is None ==> {
        let rec = account_store_record(s[1])->Some_0;
        trade_cost(amount, rec.price) <= u64::MAX && s[1].lamports + trade_cost(amount, rec.price)
            <= u64::MAX
    }
}

/// Handles Sell: moves `amount` base token units from the store's token
/// account to the client's, and the native cost from the client's balance
/// to the store's.
///
/// The first eight accounts must carry 32-byte keys; the five accounts
/// this operation may write — funding, store, store token account, client
/// and client token account — must be distinct; and the trade must be
/// representable without overflow.
pub fn process(
    program_id: &Pubkey,
    accounts: &mut Vec<AccountHandle>,
    amount: Amount,
) -> (r: Result<(), ProgramError>)
    requires
        accounts_wf(views_of(old(accounts)@), 8),
        keys_distinct(views_of(old(accounts)@), 5),
        sell_fits(views_of(old(accounts)@), program_id@, amount),
    ensures
        match r {
            Ok(()) => sell_error(views_of(old(accounts)@), program_id@, amount) is None
                && views_of(final(accounts)@) == sell_post(views_of(old(accounts)@), amount),
            Err(e) => sell_error(views_of(old(accounts)@), program_id@, amount) == Some(e)
                && final(accounts)@ == old(accounts)@,
        },
{
    if accounts.len() < 8 {
        return Err(ProgramError::NotEnoughAccountKeys);
    }
    if !check_token_program_id(&accounts[7].key) {
        return Err(ProgramError::IncorrectProgramId);
    }
    if !key_eq(&accounts[1].owner, program_id) {
        return Err(ProgramError::IncorrectProgramId);
    }
    if !accounts[1].is_signer {
        return Err(ProgramError::Custom(SplStoreError::AccountNotSigner));
    }
    if !accounts[1].is_writable {
        return Err(ProgramError::Custom(SplStoreError::AccountNotWritable));
    }
    if !accounts[0].is_signer {
        return Err(ProgramError::Custom(SplStoreError::AccountNotSigner));
    }
    if !accounts[0].is_writable {
        return Err(ProgramError::Custom(SplStoreError::AccountNotWritable));
    }
    if !accounts[2].is_writable {
        return Err(ProgramError::Custom(SplStoreError::AccountNotWritable));
    }
    if !accounts[4].is_writable {
        return Err(ProgramError::Custom(SplStoreError::AccountNotWritable));
    }
    let store_token_amount = match &accounts[2].contents {
        AccountContents::Token(t) => t.amount,
        AccountContents::Raw(_) => {
            return Err(ProgramError::InvalidAccountData);
        },
    };
    if store_token_amount < amount {
        return Err(ProgramError::Custom(SplStoreError::InsufficientFundsForTransaction));
    }
    check_ata_mint(&accounts[2], &accounts[5])?;
    let mut funding = accounts[0].clone_handle();
    let mut client_ata = accounts[4].clone_handle();
    if client_ata.lamports == 0 {
        StoreAccount::provision_ata(
            &mut funding,
            &mut client_ata,
            &accounts[3],
            &accounts[5],
            &accounts[7],
        )?;
    }
    check_ata_mint(&client_ata, &accounts[5])?;
    let price = StoreAccount::get_price(&accounts[1])?;
    proof {
        assert(sell_precheck_error(views_of(old(accounts)@), program_id@, amount) is None);
        assert(amount * price <= amount * price * 1_000_000_000) by (nonlinear_arith)
            requires
                amount >= 0,
                price >= 0,
        ;
    }
    let cost = amount * price * LAMPORTS_PER_SOL;
    if accounts[3].lamports < cost {
        return Err(ProgramError::Custom(SplStoreError::InsufficientFundsForTransaction));
    }
    let expected_store_ata = derive_ata_address(&accounts[1].key, &accounts[5].key);
    if !key_eq(&expected_store_ata, &accounts[2].key) {
        return Err(ProgramError::Custom(SplStoreError::InvalidAtaAddress));
    }
    let expected_client_ata = derive_ata_address(&accounts[3].key, &accounts[5].key);
    if !key_eq(&expected_client_ata, &client_ata.key) {
        return Err(ProgramError::Custom(SplStoreError::InvalidAtaAddress));
    }
    let client_token_amount = match &client_ata.contents {
        AccountContents::Token(t) => t.amount,
        AccountContents::Raw(_) => {
            proof {
                assert(false);
            }
            return Err(ProgramError::InvalidAccountData);
        },
    };
    if client_token_amount > u64::MAX - amount {
        return Err(ProgramError::TokenTransferFailed);
    }
    let mut store_ata = accounts[2].clone_handle();
    let store_mint = match &store_ata.contents {
        AccountContents::Token(t) => t.mint.clone_key(),
        AccountContents::Raw(_) => {
            proof {
                assert(false);
            }
            return Err(ProgramError::InvalidAccountData);
        },
    };
    let client_mint = match &client_ata.contents {
        AccountContents::Token(t) => t.mint.clone_key(),
        AccountContents::Raw(_) => {
            proof {
                assert(false);
            }
            return Err(ProgramError::InvalidAccountData);
        },
    };
    store_ata.contents = AccountContents::Token(
        TokenContents { mint: store_mint, amount: store_token_amount - amount },
    );
    client_ata.contents = AccountContents::Token(
        TokenContents { mint: client_mint, amount: client_token_amount + amount },
    );
    let mut client = accounts[3].clone_handle();
    client.lamports = client.lamports - cost;
    let mut store = accounts[1].clone_handle();
    store.lamports = store.lamports + cost;
    accounts.set(0, funding);
    accounts.set(1, store);
    accounts.set(2, store_ata);
    accounts.set(3, client);
    accounts.set(4, client_ata);
    proof {
        assert(views_of(accounts@) =~= sell_post(views_of(old(accounts)@), amount));
    }
    Ok(())
}

} // verus!
