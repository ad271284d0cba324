//! The guarantees the processor is built for, each proved from the
//! operation specifications.

use vstd::prelude::*;

use crate::account::{accounts_wf, AccountView};
use crate::error::{ProgramError, SplStoreError};
use crate::processor::store_buy::{buy_error, buy_fits, buy_mid_created, buy_post,
    buy_precheck_error};
use crate::processor::store_initialize::{initialize_error, initialize_post};
use crate::processor::store_sell::{sell_error, sell_fits, sell_mid_created, sell_post,
    sell_precheck_error};
use crate::processor::store_update_price::update_price_error;
use crate::processor::trade_cost;
use crate::store::account::account_store_record;
use crate::store::{Amount, Price};

verus! {

/// Price positivity: every Initialize attempt with a zero price is
/// refused with `InvalidPrice`, whatever else the account list holds;
/// the handler's contract then leaves every account unchanged.
pub proof fn lemma_initialize_price_positivity(
    s: Seq<AccountView>,
    program_id: Seq<u8>,
    add_sol: Amount,
)
    requires
        s.len() >= 7,
    ensures
        initialize_error(s, program_id, 0, add_sol) == Some(
            ProgramError::Custom(SplStoreError::InvalidPrice),
        ),
{
}

/// Price positivity: every UpdatePrice attempt with a zero price from
/// the stored administrator, against a readable writable record, is
/// refused with `InvalidPrice`; the handler's contract then leaves the
/// stored price unchanged.
pub proof fn lemma_update_price_positivity(s: Seq<AccountView>)
    requires
        s.len() >= 2,
        s[0].is_writable,
        account_store_record(s[0]) matches Some(rec) && rec.admin == s[1].key,
    ensures
        update_price_error(s, 0) == Some(ProgramError::Custom(SplStoreError::InvalidPrice)),
{
}

/// Admin gating: an UpdatePrice attempt whose presented identity is not
/// the stored administrator is refused with `AccountNotAdmin`; the
/// handler's contract then leaves the stored price unchanged.
pub proof fn lemma_update_price_admin_gate(s: Seq<AccountView>, new_price: Price)
    requires
        s.len() >= 2,
        s[0].is_writable,
        account_store_record(s[0]) matches Some(rec) && rec.admin != s[1].key,
    ensures
        update_price_error(s, new_price) == Some(
            ProgramError::Custom(SplStoreError::AccountNotAdmin),
        ),
{
}

/// Balanced swap: a successful Buy of `amount` at the stored price moves
/// exactly `amount` token units from the client's token account to the
/// store's, and exactly the native cost from the store's balance to the
/// client's — the two parties' native balances sum to what they summed
/// to before.
pub proof fn lemma_buy_balanced(s: Seq<AccountView>, program_id: Seq<u8>, amount: Amount)
    requires
        buy_error(s, program_id, amount) is None,
        buy_fits(s, program_id, amount),
    ensures
        ({
            let t = buy_post(s, amount);
            let s1 = buy_mid_created(s);
            let cost = trade_cost(amount, account_store_record(s[1])->Some_0.price);
            &&& t.len() == s.len()
            &&& t[4].token_amount() == s[4].token_amount() - amount
            &&& t[2].token_amount() == s1[2].token_amount() + amount
            &&& t[1].lamports == s[1].lamports - cost
            &&& t[3].lamports == s[3].lamports + cost
            &&& t[1].lamports + t[3].lamports == s[1].lamports + s[3].lamports
        }),
{
}

/// Balanced swap, mirrored: a successful Sell of `amount` at the stored
/// price moves exactly `amount` token units from the store's token
/// account to the client's, and exactly the native cost from the
/// client's balance to the store's.
pub proof fn lemma_sell_balanced(s: Seq<AccountView>, program_id: Seq<u8>, amount: Amount)
    requires
        sell_error(s, program_id, amount) is None,
        sell_fits(s, program_id, amount),
    ensures
        ({
            let t = sell_post(s, amount);
            let s1 = sell_mid_created(s);
            let cost = trade_cost(amount, account_store_record(s[1])->Some_0.price);
            &&& t.len() == s.len()
            &&& t[2].token_amount() == s[2].token_amount() - amount
            &&& t[4].token_amount() == s1[4].token_amount() + amount
            &&& t[3].lamports == s[3].lamports - cost
            &&& t[1].lamports == s[1].lamports + cost
            &&& t[1].lamports + t[3].lamports == s[1].lamports + s[3].lamports
        }),
{
}

/// Symmetry: a Sell of the same amount applied right after a successful
/// Buy, both token accounts already provisioned, restores both parties'
/// token and native balances to their pre-Buy values exactly.
pub proof fn lemma_buy_sell_round_trip(s: Seq<AccountView>, program_id: Seq<u8>, amount: Amount)
    requires
        s.len() >= 8,
        s[2].lamports != 0,
        s[4].lamports != 0,
        buy_error(s, program_id, amount) is None,
        buy_fits(s, program_id, amount),
        sell_error(buy_post(s, amount), program_id, amount) is None,
    ensures
        ({
            let t = sell_post(buy_post(s, amount), amount);
            &&& t[1].lamports == s[1].lamports
            &&& t[3].lamports == s[3].lamports
            &&& t[2].token_amount() == s[2].token_amount()
            &&& t[4].token_amount() == s[4].token_amount()
        }),
{
    let b = buy_post(s, amount);
    assert(account_store_record(b[1]) == account_store_record(s[1]));
    assert(b[2].lamports != 0);
    assert(b[4].lamports == s[4].lamports);
}

/// Insufficient funds: a Buy whose prechecks pass but whose native cost
/// exceeds the store's balance is refused with
/// `InsufficientFundsForTransaction`; the handler's contract then leaves
/// every balance unchanged.
pub proof fn lemma_buy_insufficient_store_funds(
    s: Seq<AccountView>,
    program_id: Seq<u8>,
    amount: Amount,
)
    requires
        buy_precheck_error(s, program_id, amount) is None,
        s[1].lamports < trade_cost(amount, account_store_record(s[1])->Some_0.price),
    ensures
        buy_error(s, program_id, amount) == Some(
            ProgramError::Custom(SplStoreError::InsufficientFundsForTransaction),
        ),
{
}

/// Insufficient funds, mirrored: a Sell whose prechecks pass but whose
/// native cost exceeds the client's balance is refused with
/// `InsufficientFundsForTransaction`.
pub proof fn lemma_sell_insufficient_client_funds(
    s: Seq<AccountView>,
    program_id: Seq<u8>,
    amount: Amount,
)
    requires
        sell_precheck_error(s, program_id, amount) is None,
        s[3].lamports < trade_cost(amount, account_store_record(s[1])->Some_0.price),
    ensures
        sell_error(s, program_id, amount) == Some(
            ProgramError::Custom(SplStoreError::InsufficientFundsForTransaction),
        ),
{
}

/// Insufficient funds, token side: a Sell whose store token balance does
/// not cover the amount is refused with `InsufficientFundsForTransaction`
/// before anything else is read.
pub proof fn lemma_sell_insufficient_store_tokens(
    s: Seq<AccountView>,
    program_id: Seq<u8>,
    amount: Amount,
)
    requires
        s.len() >= 8,
        crate::host::is_token_program_key(s[7].key),
        s[1].owner == program_id,
        s[1].is_signer,
        s[1].is_writable,
        s[0].is_signer,
        s[0].is_writable,
        s[2].is_writable,
        s[4].is_writable,
        s[2].is_token(),
        s[2].token_amount() < amount,
    ensures
        sell_error(s, program_id, amount) == Some(
            ProgramError::Custom(SplStoreError::InsufficientFundsForTransaction),
        ),
{
}

/// Idempotent provisioning: after a successful Initialize, both the
/// store account and its associated token account are funded, so a
/// second Initialize with a positive price attempts no re-creation and
/// succeeds.
pub proof fn lemma_initialize_idempotent(
    s: Seq<AccountView>,
    program_id: Seq<u8>,
    price: Price,
    add_sol: Amount,
    price2: Price,
    add_sol2: Amount,
)
    requires
        s.len() >= 8,
        accounts_wf(s, 7),
        initialize_error(s, program_id, price, add_sol) is None,
        price2 != 0,
    ensures
        ({
            let t = initialize_post(s, program_id, price, add_sol);
            &&& t[2].lamports != 0
            &&& t[1].lamports != 0
            &&& initialize_error(t, program_id, price2, add_sol2) is None
        }),
{
    let t = initialize_post(s, program_id, price, add_sol);
    crate::store::account::lemma_store_record_round_trip(
        crate::store::account::StoreRecordView { price, admin: s[6].key },
    );
    assert(account_store_record(t[2]) is Some);
    crate::store::account::lemma_store_record_round_trip(
        crate::store::account::StoreRecordView { price: price2, admin: t[6].key },
    );
}

/// Idempotent provisioning, trade side: after a successful Buy or Sell
/// the token account that may have been provisioned is funded, so a
/// later call attempts no re-creation.
pub proof fn lemma_trade_provisions_once(s: Seq<AccountView>, program_id: Seq<u8>, amount: Amount)
    requires
        s.len() >= 8,
    ensures
        buy_error(s, program_id, amount) is None ==> buy_post(s, amount)[2].lamports != 0,
        sell_error(s, program_id, amount) is None ==> sell_post(s, amount)[4].lamports != 0,
{
}

} // verus!
