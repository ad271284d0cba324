//! The Buy operation: the store buys tokens from the client.
//!
//! Account order: funding account, store account, the store's associated
//! token account, client account (signer), the client's associated token
//! account, the token mint, the system program, the token program.
//!
//! After validation, `amount` base token units move from the client's
//! token account to the store's, and the native cost moves from the
//! store's balance to the client's — all or nothing.

use vstd::prelude::*;

use crate::account::{accounts_wf, keys_distinct, views_of, AccountContents, AccountHandle,
    AccountView, TokenContents};
use crate::error::{ProgramError, SplStoreError};
use crate::host::{ata_address, check_token_program_id, derive_ata_address, is_token_program_key};
use crate::pubkey::{key_eq, Pubkey};
use crate::processor::{trade_cost, LAMPORTS_PER_SOL};
use crate::store::account::{account_store_record, initialize_ata_error, provision_funding_debited,
    provisioned_ata, StoreAccount};
use crate::store::Amount;
use crate::utils::{ata_mint_error, check_ata_mint};

verus! {

/// The account list after the optional provisioning of the store's
/// associated token account.
pub open spec fn buy_mid_created(s: Seq<AccountView>) -> Seq<AccountView> {
    if s[2].lamports == 0 {
        s.update(0, provision_funding_debited(s[0])).update(
            2,
            provisioned_ata(s[2], s[5].key, s[7].key),
        )
    } else {
        s
    }
}

/// The first refusal a Buy call runs into before the price is read, if
/// any.
pub open spec fn buy_precheck_error(s: Seq<AccountView>, program_id: Seq<u8>, amount: Amount) -> Option<
    ProgramError,
> {
    if s.len() < 8 {
        Some(ProgramError::NotEnoughAccountKeys)
    } else if !is_token_program_key(s[7].key) {
        Some(ProgramError::IncorrectProgramId)
    } else if s[1].owner != program_id {
        Some(ProgramError::IncorrectProgramId)
    } else if !s[3].is_signer {
        Some(ProgramError::Custom(SplStoreError::AccountNotSigner))
    } else if !s[4].is_writable {
        Some(ProgramError::Custom(SplStoreError::AccountNotWritable))
    } else if !s[2].is_writable {
        Some(ProgramError::Custom(SplStoreError::AccountNotWritable))
    } else if !s[4].is_token() {
        Some(ProgramError::InvalidAccountData)
    } else if s[4].token_amount() < amount {
        Some(ProgramError::Custom(SplStoreError::InsufficientFundsForTransaction))
    } else if ata_mint_error(s[4], s[5].key) is Some {
        ata_mint_error(s[4], s[5].key)
    } else if s[2].lamports == 0 && initialize_ata_error(s[0], s[2], s[1], s[5], s[6], s[7])
        is Some {
        initialize_ata_error(s[0], s[2], s[1], s[5], s[6], s[7])
    } else if ata_mint_error(buy_mid_created(s)[2], s[5].key) is Some {
        ata_mint_error(buy_mid_created(s)[2], s[5].key)
    } else if account_store_record(s[1]) is None {
        Some(ProgramError::InvalidAccountData)
    } else {
        None
    }
}

/// The first refusal a Buy call runs into, if any.
pub open spec fn buy_error(s: Seq<AccountView>, program_id: Seq<u8>, amount: Amount) -> Option<
    ProgramError,
> {
    if buy_precheck_error(s, program_id, amount) is Some {
        buy_precheck_error(s, program_id, amount)
    } else {
        let s1 = buy_mid_created(s);
        let rec = account_store_record(s[1])->Some_0;
        let cost = trade_cost(amount, rec.price);
        if s[1].lamports < cost {
            Some(ProgramError::Custom(SplStoreError::InsufficientFundsForTransaction))
        } else if s1[2].key != ata_address(s[1].key, s[5].key) {
            Some(ProgramError::Custom(SplStoreError::InvalidAtaAddress))
        } else if s[4].key != ata_address(s[3].key, s[5].key) {
            Some(ProgramError::Custom(SplStoreError::InvalidAtaAddress))
        } else if s1[2].token_amount() + amount > u64::MAX {
            Some(ProgramError::TokenTransferFailed)
        } else {
            None
        }
    }
}

/// The account list after a successful Buy.
pub open spec fn buy_post(s: Seq<AccountView>, amount: Amount) -> Seq<AccountView> {
    let s1 = buy_mid_created(s);
    let rec = account_store_record(s[1])->Some_0;
    let cost = trade_cost(amount, rec.price) as u64;
    s1.update(4, s1[4].with_token_amount((s1[4].token_amount() - amount) as u64)).update(
        2,
        s1[2].with_token_amount((s1[2].token_amount() + amount) as u64),
    ).update(1, s1[1].with_lamports((s1[1].lamports - cost) as u64)).update(
        3,
        s1[3].with_lamports((s1[3].lamports + cost) as u64),
    )
}

/// The native cost of the trade, and the client's credited balance, fit
/// in the balance type whenever the price is about to be read.
pub open spec fn buy_fits(s: Seq<AccountView>, program_id: Seq<u8>, amount: Amount) -> bool {
    buy_precheck_error(s, program_id, amount) is None ==> {
        let rec = account_store_record(s[1])->Some_0;
        trade_cost(amount, rec.price) <= u64::MAX && s[3].lamports + trade_cost(amount, rec.price)
            <= u64::MAX
    }
}

/// Handles Buy: moves `amount` base token units from the client's token
/// account to the store's, and the native cost from the store's balance
/// to the client's.
///
/// The first eight accounts must carry 32-byte keys; the five accounts
/// this operation may write — funding, store, store token account, client
/// and client token account — must be distinct; and the trade must be
/// representable without overflow.
pub fn process(
    program_id: &Pubkey,
    accounts: &mut Vec<AccountHandle>,
    amount: Amount,
) -> (r: Result<(), ProgramError>)
    requires
        accounts_wf(views_of(old(accounts)@), 8),
        keys_distinct(views_of(old(accounts)@), 5),
        buy_fits(views_of(old(accounts)@), program_id@, amount),
    ensures
        match r {
            Ok(()) => buy_error(views_of(old(accounts)@), program_id@, amount) is None
                && views_of(final(accounts)@) == buy_post(views_of(old(accounts)@), amount),
            Err(e) => buy_error(views_of(old(accounts)@), program_id@, amount) == Some(e)
                && final(accounts)@ == old(accounts)@,
        },
{
    if accounts.len() < 8 {
        return Err(ProgramError::NotEnoughAccountKeys);
    }
    if !check_token_program_id(&accounts[7].key) {
        return Err(ProgramError::IncorrectProgramId);
    }
    if !key_eq(&accounts[1].owner, program_id) {
        return Err(ProgramError::IncorrectProgramId);
    }
    if !accounts[3].is_signer {
        return Err(ProgramError::Custom(SplStoreError::AccountNotSigner));
    }
    if !accounts[4].is_writable {
        return Err(ProgramError::Custom(SplStoreError::AccountNotWritable));
    }
    if !accounts[2].is_writable {
        return Err(ProgramError::Custom(SplStoreError::AccountNotWritable));
    }
    let client_token_amount = match &accounts[4].contents {
        AccountContents::Token(t) => t.amount,
        AccountContents::Raw(_) => {
            return Err(ProgramError::InvalidAccountData);
        },
    };
    if client_token_amount < amount {
        return Err(ProgramError::Custom(SplStoreError::InsufficientFundsForTransaction));
    }
    check_ata_mint(&accounts[4], &accounts[5])?;
    let mut funding = accounts[0].clone_handle();
    let mut store_ata = accounts[2].clone_handle();
    if store_ata.lamports == 0 {
        StoreAccount::initialize_ata(
            &mut funding,
            &mut store_ata,
            &accounts[1],
            &accounts[5],
            &accounts[6],
            &accounts[7],
        )?;
    }
    check_ata_mint(&store_ata, &accounts[5])?;
    let price = StoreAccount::get_price(&accounts[1])?;
    proof {
        assert(buy_precheck_error(views_of(old(accounts)@), program_id@, amount) is None);
        assert(amount * price <= amount * price * (LAMPORTS_PER_SOL as int)) by (nonlinear_arith)
            requires
                amount >= 0,
                price >= 0,
        ;
    }
    let cost = amount * price * LAMPORTS_PER_SOL;
    if accounts[1].lamports < cost {
        return Err(ProgramError::Custom(SplStoreError::InsufficientFundsForTransaction));
    }
    let expected_store_ata = derive_ata_address(&accounts[1].key, &accounts[5].key);
    if !key_eq(&expected_store_ata, &store_ata.key) {
        return Err(ProgramError::Custom(SplStoreError::InvalidAtaAddress));
    }
    let expected_client_ata = derive_ata_address(&accounts[3].key, &accounts[5].key);
    if !key_eq(&expected_client_ata, &accounts[4].key) {
        return Err(ProgramError::Custom(SplStoreError::InvalidAtaAddress));
    }
    let store_token_amount = match &store_ata.contents {
        AccountContents::Token(t) => t.amount,
        AccountContents::Raw(_) => {
            proof {
                assert(false);
            }
            return Err(ProgramError::InvalidAccountData);
        },
    };
    if store_token_amount > u64::MAX - amount {
        return Err(ProgramError::TokenTransferFailed);
    }
    let mut client_ata = accounts[4].clone_handle();
    let client_mint = match &client_ata.contents {
        AccountContents::Token(t) => t.mint.clone_key(),
        AccountContents::Raw(_) => {
            proof {
                assert(false);
            }
            return Err(ProgramError::InvalidAccountData);
        },
    };
    let store_mint = match &store_ata.contents {
        AccountContents::Token(t) => t.mint.clone_key(),
        AccountContents::Raw(_) => {
            proof {
                assert(false);
            }
            return Err(ProgramError::InvalidAccountData);
        },
    };
    client_ata.contents = AccountContents::Token(
        TokenContents { mint: client_mint, amount: client_token_amount - amount },
    );
    store_ata.contents = AccountContents::Token(
        TokenContents { mint: store_mint, amount: store_token_amount + amount },
    );
    let mut store = accounts[1].clone_handle();
    store.lamports = store.lamports - cost;
    let mut client = accounts[3].clone_handle();
    client.lamports = client.lamports + cost;
    accounts.set(0, funding);
    accounts.set(1, store);
    accounts.set(2, store_ata);
    accounts.set(3, client);
    accounts.set(4, client_ata);
    proof {
        assert(views_of(accounts@) =~= buy_post(views_of(old(accounts)@), amount));
    }
    Ok(())
}

} // verus!
