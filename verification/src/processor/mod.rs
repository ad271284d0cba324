//! The operation handlers and the dispatcher.

use vstd::prelude::*;

use crate::account::{accounts_wf, keys_distinct, views_of, AccountHandle, AccountView};
use crate::error::ProgramError;
use crate::instruction::{parse_instruction, SplStoreInstruction};
use crate::pubkey::Pubkey;
use crate::store::Price;

pub mod store_buy;
pub mod store_initialize;
pub mod store_sell;
pub mod store_update_price;

verus! {

/// Native base units per whole native token.
pub const LAMPORTS_PER_SOL: u64 = 1_000_000_000;

/// The native cost of trading `amount` base token units at `price`:
/// `amount * price` whole native tokens, in base units.
pub open spec fn trade_cost(amount: u64, price: Price) -> int {
    amount * price * (LAMPORTS_PER_SOL as int)
}

/// What a decoded operation asks of the account list before it may run:
/// well-formed keys, distinct writable accounts, and a representable
/// trade.
pub open spec fn op_requires(s: Seq<AccountView>, program_id: Seq<u8>, i: SplStoreInstruction) -> bool {
    match i {
        SplStoreInstruction::Initialize(_price, _add_sol) => accounts_wf(s, 7) && keys_distinct(
            s,
            3,
        ),
        SplStoreInstruction::Buy(amount) => accounts_wf(s, 8) && keys_distinct(s, 5)
            && store_buy::buy_fits(s, program_id, amount),
        SplStoreInstruction::Sell(amount) => accounts_wf(s, 8) && keys_distinct(s, 5)
            && store_sell::sell_fits(s, program_id, amount),
        SplStoreInstruction::UpdatePrice(_new_price) => true,
    }
}

/// The first refusal a decoded operation runs into, if any.
pub open spec fn op_error(s: Seq<AccountView>, program_id: Seq<u8>, i: SplStoreInstruction) -> Option<
    ProgramError,
> {
    match i {
        SplStoreInstruction::Initialize(price, add_sol) => store_initialize::initialize_error(
            s,
            program_id,
            price,
            add_sol,
        ),
        SplStoreInstruction::Buy(amount) => store_buy::buy_error(s, program_id, amount),
        SplStoreInstruction::Sell(amount) => store_sell::sell_error(s, program_id, amount),
        SplStoreInstruction::UpdatePrice(new_price) => store_update_price::update_price_error(
            s,
            new_price,
        ),
    }
}

/// The account list after a decoded operation succeeds.
pub open spec fn op_post(s: Seq<AccountView>, program_id: Seq<u8>, i: SplStoreInstruction) -> Seq<
    AccountView,
> {
    match i {
        SplStoreInstruction::Initialize(price, add_sol) => store_initialize::initialize_post(
            s,
            program_id,
            price,
            add_sol,
        ),
        SplStoreInstruction::Buy(amount) => store_buy::buy_post(s, amount),
        SplStoreInstruction::Sell(amount) => store_sell::sell_post(s, amount),
        SplStoreInstruction::UpdatePrice(new_price) => store_update_price::update_price_post(
            s,
            new_price,
        ),
    }
}

/// The instruction processor.
pub struct Processor;

impl Processor {
    /// Decodes the instruction payload and runs the matching operation on
    /// the supplied account list — all or nothing: on any refusal the
    /// account list is unchanged.
    pub fn process_instruction(
        program_id: &Pubkey,
        accounts: &mut Vec<AccountHandle>,
        instruction_data: &[u8],
    ) -> (r: Result<(), ProgramError>)
        requires
            parse_instruction(instruction_data@) matches Some(i) ==> op_requires(
                views_of(old(accounts)@),
                program_id@,
                i,
            ),
        ensures
            match parse_instruction(instruction_data@) {
                None => r == Err::<(), ProgramError>(ProgramError::MalformedInstruction)
                    && final(accounts)@ == old(accounts)@,
                Some(i) => match r {
                    Ok(()) => op_error(views_of(old(accounts)@), program_id@, i) is None
                        && views_of(final(accounts)@) == op_post(
                        views_of(old(accounts)@),
                        program_id@,
                        i,
                    ),
                    Err(e) => op_error(views_of(old(accounts)@), program_id@, i) == Some(e)
                        && final(accounts)@ == old(accounts)@,
                },
            },
    {
        let instruction = SplStoreInstruction::try_from_slice(instruction_data)?;
        match instruction {
            SplStoreInstruction::Initialize(price, add_sol) => store_initialize::process(
                program_id,
                accounts,
                price,
                add_sol,
            ),
            SplStoreInstruction::Buy(amount) => store_buy::process(program_id, accounts, amount),
            SplStoreInstruction::UpdatePrice(new_price) => store_update_price::process(
                program_id,
                accounts,
                new_price,
            ),
            SplStoreInstruction::Sell(amount) => store_sell::process(program_id, accounts, amount),
        }
    }
}

} // verus!
