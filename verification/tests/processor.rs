use spl_store::account::{AccountContents, AccountHandle, TokenContents};
use spl_store::error::{ProgramError, SplStoreError};
use spl_store::instruction::SplStoreInstruction;
use spl_store::processor::Processor;
use spl_store::pubkey::Pubkey;
use spl_store::store::account::StoreAccount;

fn key(n: u8) -> Pubkey {
    Pubkey::from_bytes(vec![n; 32]).unwrap()
}

fn sol_key(k: &Pubkey) -> spl_token::solana_program::pubkey::Pubkey {
    spl_token::solana_program::pubkey::Pubkey::try_from(k.bytes.as_slice()).unwrap()
}

fn from_sol(k: &spl_token::solana_program::pubkey::Pubkey) -> Pubkey {
    Pubkey::from_bytes(k.to_bytes().to_vec()).unwrap()
}

fn token_program_key() -> Pubkey {
    from_sol(&spl_token::id())
}

fn system_program_key() -> Pubkey {
    from_sol(&spl_token::solana_program::system_program::id())
}

fn ata_key(wallet: &Pubkey, mint: &Pubkey) -> Pubkey {
    let a = spl_associated_token_account::get_associated_token_address(
        &sol_key(wallet),
        &sol_key(mint),
    );
    from_sol(&a)
}

fn acct(
    key: &Pubkey,
    lamports: u64,
    owner: &Pubkey,
    is_signer: bool,
    is_writable: bool,
    contents: AccountContents,
) -> AccountHandle {
    AccountHandle {
        key: key.clone_key(),
        lamports,
        owner: owner.clone_key(),
        is_signer,
        is_writable,
        contents: contents.clone_contents(),
    }
}

fn token_contents(mint: &Pubkey, amount: u64) -> AccountContents {
    AccountContents::Token(TokenContents { mint: mint.clone_key(), amount })
}

fn empty() -> AccountContents {
    AccountContents::Raw(Vec::new())
}

struct World {
    program_id: Pubkey,
    payer: Pubkey,
    store: Pubkey,
    client: Pubkey,
    mint: Pubkey,
    admin: Pubkey,
    store_ata: Pubkey,
    client_ata: Pubkey,
    system_program: Pubkey,
    token_program: Pubkey,
}

impl World {
    fn new() -> World {
        let program_id = key(10);
        let store = key(11);
        let client = key(12);
        let mint = key(13);
        let admin = key(14);
        let payer = key(15);
        World {
            store_ata: ata_key(&store, &mint),
            client_ata: ata_key(&client, &mint),
            system_program: system_program_key(),
            token_program: token_program_key(),
            program_id,
            payer,
            store,
            client,
            mint,
            admin,
        }
    }

    /// The account list for Initialize, in wire order.
    fn initialize_accounts(
        &self,
        payer_lamports: u64,
        store_lamports: u64,
        store_ata_lamports: u64,
    ) -> Vec<AccountHandle> {
        vec![
            acct(&self.payer, payer_lamports, &self.system_program, true, true, empty()),
            acct(&self.store_ata, store_ata_lamports, &self.system_program, false, true, empty()),
            acct(&self.store, store_lamports, &self.system_program, true, true, empty()),
            acct(&self.mint, 1_000_000_000, &self.token_program, false, true, empty()),
            acct(&self.system_program, 1, &self.system_program, false, true, empty()),
            acct(&self.token_program, 1, &self.system_program, false, true, empty()),
            acct(&self.admin, 1_000_000_000, &self.system_program, false, true, empty()),
        ]
    }

    /// The account list for Buy or Sell, in wire order; `store_signs`
    /// distinguishes the two operations' signer patterns.
    fn trade_accounts(
        &self,
        store: AccountHandle,
        store_ata: AccountHandle,
        client: AccountHandle,
        client_ata: AccountHandle,
        store_signs: bool,
    ) -> Vec<AccountHandle> {
        let mut store = store;
        let mut client = client;
        store.is_signer = store_signs;
        client.is_signer = !store_signs;
        vec![
            acct(&self.payer, 10_000_000_000, &self.system_program, true, true, empty()),
            store,
            store_ata,
            client,
            client_ata,
            acct(&self.mint, 1_000_000_000, &self.token_program, false, true, empty()),
            acct(&self.system_program, 1, &self.system_program, false, true, empty()),
            acct(&self.token_program, 1, &self.system_program, false, true, empty()),
        ]
    }

    fn run(&self, accounts: &mut Vec<AccountHandle>, i: SplStoreInstruction) -> Result<(), ProgramError> {
        let data = i.to_bytes();
        Processor::process_instruction(&self.program_id, accounts, data.as_slice())
    }
}

fn get_price(store: &AccountHandle) -> u64 {
    StoreAccount::get_price(store).unwrap()
}

fn token_amount(a: &AccountHandle) -> u64 {
    match &a.contents {
        AccountContents::Token(t) => t.amount,
        AccountContents::Raw(_) => panic!("not a token account"),
    }
}

/// A full end-to-end scenario: initialize the store with extra
/// funding, mint to both token accounts, update the price to 37, buy 14
/// units, then sell 7 — checking the exact balances at every step.
#[test]
fn it_works() {
    let w = World::new();
    let initial_price: u64 = 42;

    // Initialize: creates the store account and provisions its ATA.
    let mut accounts = w.initialize_accounts(40_000_000_000_000, 0, 0);
    let r = w.run(&mut accounts, SplStoreInstruction::Initialize(initial_price, 32_000_200_000_000));
    assert_eq!(r, Ok(()));
    assert_eq!(accounts[2].lamports, 32_000_201_169_280);
    assert_eq!(accounts[1].lamports, 2_039_280);
    assert_eq!(get_price(&accounts[2]), initial_price);
    assert_eq!(token_amount(&accounts[1]), 0);

    let store = accounts.remove(2);
    let mut store_ata = accounts.remove(1);

    // Minting happens in the token ledger, outside this program.
    store_ata.contents = token_contents(&w.mint, 14_000_000_000);
    let client = acct(&w.client, 69_000_000_000, &w.program_id, false, true, empty());
    let client_ata = acct(
        &w.client_ata,
        2_039_280,
        &w.token_program,
        false,
        true,
        token_contents(&w.mint, 14_000_000_000),
    );

    // Update the price to 37, presenting the stored administrator.
    let mut accounts = vec![
        store,
        acct(&w.admin, 1_000_000_000, &w.system_program, false, true, empty()),
    ];
    let r = w.run(&mut accounts, SplStoreInstruction::UpdatePrice(37));
    assert_eq!(r, Ok(()));
    let store = accounts.remove(0);
    assert_eq!(get_price(&store), 37);

    // Buy 14 base units at price 37.
    let mut accounts = w.trade_accounts(store, store_ata, client, client_ata, false);
    let r = w.run(&mut accounts, SplStoreInstruction::Buy(14));
    assert_eq!(r, Ok(()));
    assert_eq!(accounts[1].lamports, 31_482_201_169_280);
    assert_eq!(token_amount(&accounts[4]), 13_999_999_986);
    assert_eq!(token_amount(&accounts[2]), 14_000_000_014);

    // Sell 7 base units at price 37.
    let store = accounts.remove(1);
    let store_ata = accounts.remove(1);
    let client = accounts.remove(1);
    let client_ata = accounts.remove(1);
    let client_lamports = client.lamports;
    let mut accounts = w.trade_accounts(store, store_ata, client, client_ata, true);
    let r = w.run(&mut accounts, SplStoreInstruction::Sell(7));
    assert_eq!(r, Ok(()));
    assert_eq!(accounts[1].lamports, 31_741_201_169_280);
    assert_eq!(token_amount(&accounts[4]), 13_999_999_993);
    assert_eq!(token_amount(&accounts[2]), 14_000_000_007);
    assert_eq!(accounts[3].lamports, client_lamports - 7 * 37 * 1_000_000_000);
}

/// The scenario with a 9-decimal mint: 14 scaled units bought at price
/// 42, then after an update to 37, 7 units sold back — exact arithmetic.
#[test]
fn scenario_buy_at_42_sell_at_37() {
    let w = World::new();

    let mut accounts = w.initialize_accounts(40_000_000_000_000, 0, 0);
    let r = w.run(&mut accounts, SplStoreInstruction::Initialize(42, 1_000_000_000_000));
    assert_eq!(r, Ok(()));
    let store = accounts.remove(2);
    let mut store_ata = accounts.remove(1);
    let store_lamports_0 = store.lamports;
    assert_eq!(store_lamports_0, 1_000_001_169_280);

    store_ata.contents = token_contents(&w.mint, 0);
    let client_lamports_0: u64 = 69_000_000_000;
    let client = acct(&w.client, client_lamports_0, &w.program_id, false, true, empty());
    let client_ata = acct(
        &w.client_ata,
        2_039_280,
        &w.token_program,
        false,
        true,
        token_contents(&w.mint, 14),
    );

    // Buy all 14 scaled units at price 42.
    let mut accounts = w.trade_accounts(store, store_ata, client, client_ata, false);
    let r = w.run(&mut accounts, SplStoreInstruction::Buy(14));
    assert_eq!(r, Ok(()));
    let buy_cost: u64 = 14 * 42 * 1_000_000_000;
    assert_eq!(accounts[1].lamports, store_lamports_0 - buy_cost);
    assert_eq!(accounts[3].lamports, client_lamports_0 + buy_cost);
    assert_eq!(token_amount(&accounts[2]), 14);
    assert_eq!(token_amount(&accounts[4]), 0);

    // Update the price to 37.
    let store = accounts.remove(1);
    let mut update_accounts = vec![
        store,
        acct(&w.admin, 1, &w.system_program, false, true, empty()),
    ];
    let r = w.run(&mut update_accounts, SplStoreInstruction::UpdatePrice(37));
    assert_eq!(r, Ok(()));
    let store = update_accounts.remove(0);

    // Sell 7 scaled units back at price 37.
    let store_ata = accounts.remove(1);
    let client = accounts.remove(1);
    let client_ata = accounts.remove(1);
    let mut accounts = w.trade_accounts(store, store_ata, client, client_ata, true);
    let r = w.run(&mut accounts, SplStoreInstruction::Sell(7));
    assert_eq!(r, Ok(()));
    let sell_cost: u64 = 7 * 37 * 1_000_000_000;
    assert_eq!(accounts[1].lamports, store_lamports_0 - buy_cost + sell_cost);
    assert_eq!(accounts[3].lamports, client_lamports_0 + buy_cost - sell_cost);
    assert_eq!(token_amount(&accounts[2]), 7);
    assert_eq!(token_amount(&accounts[4]), 7);
}

/// Buy then Sell of the same amount at the same price restores all four
/// balances exactly.
#[test]
fn buy_sell_round_trip_restores_balances() {
    let w = World::new();

    let mut accounts = w.initialize_accounts(40_000_000_000_000, 0, 0);
    let r = w.run(&mut accounts, SplStoreInstruction::Initialize(5, 3_000_000_000_000));
    assert_eq!(r, Ok(()));
    let store = accounts.remove(2);
    let mut store_ata = accounts.remove(1);
    store_ata.contents = token_contents(&w.mint, 1_000);
    let client = acct(&w.client, 9_000_000_000_000, &w.program_id, false, true, empty());
    let client_ata = acct(
        &w.client_ata,
        2_039_280,
        &w.token_program,
        false,
        true,
        token_contents(&w.mint, 500),
    );

    let store_lamports_0 = store.lamports;
    let client_lamports_0 = client.lamports;

    let mut accounts = w.trade_accounts(store, store_ata, client, client_ata, false);
    let r = w.run(&mut accounts, SplStoreInstruction::Buy(123));
    assert_eq!(r, Ok(()));

    let store = accounts.remove(1);
    let store_ata = accounts.remove(1);
    let client = accounts.remove(1);
    let client_ata = accounts.remove(1);
    let mut accounts = w.trade_accounts(store, store_ata, client, client_ata, true);
    let r = w.run(&mut accounts, SplStoreInstruction::Sell(123));
    assert_eq!(r, Ok(()));

    assert_eq!(accounts[1].lamports, store_lamports_0);
    assert_eq!(accounts[3].lamports, client_lamports_0);
    assert_eq!(token_amount(&accounts[2]), 1_000);
    assert_eq!(token_amount(&accounts[4]), 500);
}

/// A second Initialize against a provisioned store updates the price in
/// place and attempts no re-creation.
#[test]
fn initialize_is_idempotent() {
    let w = World::new();
    let mut accounts = w.initialize_accounts(40_000_000_000_000, 0, 0);
    let r = w.run(&mut accounts, SplStoreInstruction::Initialize(42, 7_000_000));
    assert_eq!(r, Ok(()));
    let payer_lamports = accounts[0].lamports;
    let store_lamports = accounts[2].lamports;
    let store_ata_lamports = accounts[1].lamports;

    let r = w.run(&mut accounts, SplStoreInstruction::Initialize(55, 9_000_000));
    assert_eq!(r, Ok(()));
    // No second creation or provisioning: every balance is untouched.
    assert_eq!(accounts[0].lamports, payer_lamports);
    assert_eq!(accounts[2].lamports, store_lamports);
    assert_eq!(accounts[1].lamports, store_ata_lamports);
    assert_eq!(get_price(&accounts[2]), 55);
}

/// Initialize with price zero is refused and changes nothing.
#[test]
fn initialize_rejects_zero_price() {
    let w = World::new();
    let mut accounts = w.initialize_accounts(40_000_000_000_000, 0, 0);
    let r = w.run(&mut accounts, SplStoreInstruction::Initialize(0, 1_000_000));
    assert_eq!(r, Err(ProgramError::Custom(SplStoreError::InvalidPrice)));
    assert_eq!(accounts[0].lamports, 40_000_000_000_000);
    assert_eq!(accounts[2].lamports, 0);
}

/// UpdatePrice with price zero is refused and the stored price stays.
#[test]
fn update_rejects_zero_price() {
    let w = World::new();
    let mut accounts = w.initialize_accounts(40_000_000_000_000, 0, 0);
    let r = w.run(&mut accounts, SplStoreInstruction::Initialize(42, 1_000_000));
    assert_eq!(r, Ok(()));
    let store = accounts.remove(2);
    let mut accounts = vec![
        store,
        acct(&w.admin, 1, &w.system_program, false, true, empty()),
    ];
    let r = w.run(&mut accounts, SplStoreInstruction::UpdatePrice(0));
    assert_eq!(r, Err(ProgramError::Custom(SplStoreError::InvalidPrice)));
    assert_eq!(get_price(&accounts[0]), 42);
}

/// UpdatePrice from an identity other than the stored administrator is
/// refused with AccountNotAdmin and the stored price stays.
#[test]
fn update_rejects_wrong_admin() {
    let w = World::new();
    let mut accounts = w.initialize_accounts(40_000_000_000_000, 0, 0);
    let r = w.run(&mut accounts, SplStoreInstruction::Initialize(42, 1_000_000));
    assert_eq!(r, Ok(()));
    let store = accounts.remove(2);
    let intruder = key(99);
    let mut accounts = vec![
        store,
        acct(&intruder, 1, &w.system_program, false, true, empty()),
    ];
    let r = w.run(&mut accounts, SplStoreInstruction::UpdatePrice(37));
    assert_eq!(r, Err(ProgramError::Custom(SplStoreError::AccountNotAdmin)));
    assert_eq!(get_price(&accounts[0]), 42);
}

/// UpdatePrice against a read-only store account is refused.
#[test]
fn update_rejects_read_only_store() {
    let w = World::new();
    let mut accounts = w.initialize_accounts(40_000_000_000_000, 0, 0);
    let r = w.run(&mut accounts, SplStoreInstruction::Initialize(42, 1_000_000));
    assert_eq!(r, Ok(()));
    let mut store = accounts.remove(2);
    store.is_writable = false;
    let mut accounts = vec![
        store,
        acct(&w.admin, 1, &w.system_program, false, true, empty()),
    ];
    let r = w.run(&mut accounts, SplStoreInstruction::UpdatePrice(37));
    assert_eq!(r, Err(ProgramError::Custom(SplStoreError::AccountNotWritable)));
    assert_eq!(get_price(&accounts[0]), 42);
}

/// An instruction payload that matches no operation is refused.
#[test]
fn malformed_instructions_are_refused() {
    let w = World::new();
    let mut accounts = w.initialize_accounts(1_000_000_000, 0, 0);
    // Unknown tag.
    let r = Processor::process_instruction(&w.program_id, &mut accounts, &[9u8, 0, 0, 0, 0, 0, 0, 0, 0]);
    assert_eq!(r, Err(ProgramError::MalformedInstruction));
    // Truncated payload.
    let r = Processor::process_instruction(&w.program_id, &mut accounts, &[1u8, 5, 0]);
    assert_eq!(r, Err(ProgramError::MalformedInstruction));
    // Trailing bytes.
    let r = Processor::process_instruction(
        &w.program_id,
        &mut accounts,
        &[1u8, 5, 0, 0, 0, 0, 0, 0, 0, 0],
    );
    assert_eq!(r, Err(ProgramError::MalformedInstruction));
    // The empty payload.
    let r = Processor::process_instruction(&w.program_id, &mut accounts, &[]);
    assert_eq!(r, Err(ProgramError::MalformedInstruction));
}

/// Every operation needs its full account list.
#[test]
fn missing_accounts_are_refused() {
    let w = World::new();
    let mut accounts = w.initialize_accounts(1_000_000_000, 0, 0);
    accounts.truncate(6);
    let r = w.run(&mut accounts, SplStoreInstruction::Initialize(42, 0));
    assert_eq!(r, Err(ProgramError::NotEnoughAccountKeys));
    let mut one = Vec::new();
    one.push(acct(&w.store, 1, &w.program_id, false, true, empty()));
    let r = w.run(&mut one, SplStoreInstruction::UpdatePrice(37));
    assert_eq!(r, Err(ProgramError::NotEnoughAccountKeys));
}

impl World {
    /// A ready-to-trade world: store initialized at `price`, both token
    /// accounts provisioned and funded.
    fn trading_state(
        &self,
        price: u64,
        store_lamports_extra: u64,
        store_tokens: u64,
        client_lamports: u64,
        client_tokens: u64,
    ) -> (AccountHandle, AccountHandle, AccountHandle, AccountHandle) {
        let mut accounts = self.initialize_accounts(40_000_000_000_000, 0, 0);
        let r = self.run(
            &mut accounts,
            SplStoreInstruction::Initialize(price, store_lamports_extra),
        );
        assert_eq!(r, Ok(()));
        let store = accounts.remove(2);
        let mut store_ata = accounts.remove(1);
        store_ata.contents = token_contents(&self.mint, store_tokens);
        let client = acct(&self.client, client_lamports, &self.program_id, false, true, empty());
        let client_ata = acct(
            &self.client_ata,
            2_039_280,
            &self.token_program,
            false,
            true,
            token_contents(&self.mint, client_tokens),
        );
        (store, store_ata, client, client_ata)
    }
}

/// Buy fails when the client's token balance does not cover the amount,
/// and every balance is left unchanged.
#[test]
fn buy_rejects_short_client_tokens() {
    let w = World::new();
    let (store, store_ata, client, client_ata) =
        w.trading_state(37, 1_000_000_000_000, 50, 5_000_000_000, 10);
    let mut accounts = w.trade_accounts(store, store_ata, client, client_ata, false);
    let store_lamports = accounts[1].lamports;
    let r = w.run(&mut accounts, SplStoreInstruction::Buy(11));
    assert_eq!(
        r,
        Err(ProgramError::Custom(SplStoreError::InsufficientFundsForTransaction))
    );
    assert_eq!(accounts[1].lamports, store_lamports);
    assert_eq!(token_amount(&accounts[4]), 10);
    assert_eq!(token_amount(&accounts[2]), 50);
}

/// Buy fails when the store's native balance does not cover the cost,
/// and every balance is left unchanged.
#[test]
fn buy_rejects_short_store_lamports() {
    let w = World::new();
    // Store holds about 1.17e6 lamports of rent only; cost is 37e9.
    let (store, store_ata, client, client_ata) =
        w.trading_state(37, 0, 50, 5_000_000_000, 10);
    let client_lamports = client.lamports;
    let mut accounts = w.trade_accounts(store, store_ata, client, client_ata, false);
    let r = w.run(&mut accounts, SplStoreInstruction::Buy(1));
    assert_eq!(
        r,
        Err(ProgramError::Custom(SplStoreError::InsufficientFundsForTransaction))
    );
    assert_eq!(accounts[3].lamports, client_lamports);
    assert_eq!(token_amount(&accounts[4]), 10);
}

/// Sell fails when the store's token balance does not cover the amount.
#[test]
fn sell_rejects_short_store_tokens() {
    let w = World::new();
    let (store, store_ata, client, client_ata) =
        w.trading_state(37, 1_000_000_000_000, 5, 500_000_000_000, 10);
    let mut accounts = w.trade_accounts(store, store_ata, client, client_ata, true);
    let r = w.run(&mut accounts, SplStoreInstruction::Sell(6));
    assert_eq!(
        r,
        Err(ProgramError::Custom(SplStoreError::InsufficientFundsForTransaction))
    );
    assert_eq!(token_amount(&accounts[2]), 5);
    assert_eq!(token_amount(&accounts[4]), 10);
}

/// Sell fails when the client's native balance does not cover the cost.
#[test]
fn sell_rejects_short_client_lamports() {
    let w = World::new();
    let (store, store_ata, client, client_ata) =
        w.trading_state(37, 1_000_000_000_000, 50, 5_000_000_000, 10);
    let store_lamports = store.lamports;
    let mut accounts = w.trade_accounts(store, store_ata, client, client_ata, true);
    let r = w.run(&mut accounts, SplStoreInstruction::Sell(1));
    assert_eq!(
        r,
        Err(ProgramError::Custom(SplStoreError::InsufficientFundsForTransaction))
    );
    assert_eq!(accounts[1].lamports, store_lamports);
}

/// Buy demands the client's signature.
#[test]
fn buy_rejects_unsigned_client() {
    let w = World::new();
    let (store, store_ata, client, client_ata) =
        w.trading_state(37, 1_000_000_000_000, 50, 500_000_000_000, 10);
    let mut accounts = w.trade_accounts(store, store_ata, client, client_ata, false);
    accounts[3].is_signer = false;
    let r = w.run(&mut accounts, SplStoreInstruction::Buy(1));
    assert_eq!(r, Err(ProgramError::Custom(SplStoreError::AccountNotSigner)));
}

/// Sell demands the store's signature: it authorizes the outgoing
/// token transfer.
#[test]
fn sell_rejects_unsigned_store() {
    let w = World::new();
    let (store, store_ata, client, client_ata) =
        w.trading_state(37, 1_000_000_000_000, 50, 500_000_000_000, 10);
    let mut accounts = w.trade_accounts(store, store_ata, client, client_ata, true);
    accounts[1].is_signer = false;
    let r = w.run(&mut accounts, SplStoreInstruction::Sell(1));
    assert_eq!(r, Err(ProgramError::Custom(SplStoreError::AccountNotSigner)));
}

/// Buy refuses a token-program account that is not the token program.
#[test]
fn buy_rejects_wrong_token_program() {
    let w = World::new();
    let (store, store_ata, client, client_ata) =
        w.trading_state(37, 1_000_000_000_000, 50, 500_000_000_000, 10);
    let mut accounts = w.trade_accounts(store, store_ata, client, client_ata, false);
    accounts[7] = acct(&key(77), 1, &w.system_program, false, true, empty());
    let r = w.run(&mut accounts, SplStoreInstruction::Buy(1));
    assert_eq!(r, Err(ProgramError::IncorrectProgramId));
}

/// Buy refuses a store account owned by another program.
#[test]
fn buy_rejects_foreign_store_owner() {
    let w = World::new();
    let (mut store, store_ata, client, client_ata) =
        w.trading_state(37, 1_000_000_000_000, 50, 500_000_000_000, 10);
    store.owner = key(88);
    let mut accounts = w.trade_accounts(store, store_ata, client, client_ata, false);
    let r = w.run(&mut accounts, SplStoreInstruction::Buy(1));
    assert_eq!(r, Err(ProgramError::IncorrectProgramId));
}

/// Buy refuses a client token account recorded for another mint.
#[test]
fn buy_rejects_wrong_client_mint() {
    let w = World::new();
    let (store, store_ata, client, mut client_ata) =
        w.trading_state(37, 1_000_000_000_000, 50, 500_000_000_000, 10);
    client_ata.contents = token_contents(&key(66), 10);
    let mut accounts = w.trade_accounts(store, store_ata, client, client_ata, false);
    let r = w.run(&mut accounts, SplStoreInstruction::Buy(1));
    assert_eq!(r, Err(ProgramError::Custom(SplStoreError::WrongAccountMint)));
}

/// Buy refuses a store token account whose contents hold no readable
/// token record.
#[test]
fn buy_rejects_unreadable_store_ata() {
    let w = World::new();
    let (store, mut store_ata, client, client_ata) =
        w.trading_state(37, 1_000_000_000_000, 50, 500_000_000_000, 10);
    store_ata.contents = AccountContents::Raw(vec![1, 2, 3]);
    let mut accounts = w.trade_accounts(store, store_ata, client, client_ata, false);
    let r = w.run(&mut accounts, SplStoreInstruction::Buy(1));
    assert_eq!(r, Err(ProgramError::Custom(SplStoreError::NoAccountMint)));
}

/// Buy refuses a client token account whose contents hold no readable
/// token record.
#[test]
fn buy_rejects_unreadable_client_ata() {
    let w = World::new();
    let (store, store_ata, client, mut client_ata) =
        w.trading_state(37, 1_000_000_000_000, 50, 500_000_000_000, 10);
    client_ata.contents = AccountContents::Raw(vec![1, 2, 3]);
    let mut accounts = w.trade_accounts(store, store_ata, client, client_ata, false);
    let r = w.run(&mut accounts, SplStoreInstruction::Buy(1));
    assert_eq!(r, Err(ProgramError::InvalidAccountData));
}

/// Buy refuses a client token account that is not at the address derived
/// from the client wallet and the mint.
#[test]
fn buy_rejects_underived_client_ata_address() {
    let w = World::new();
    let (store, store_ata, client, mut client_ata) =
        w.trading_state(37, 1_000_000_000_000, 50, 500_000_000_000, 10);
    client_ata.key = key(55);
    let mut accounts = w.trade_accounts(store, store_ata, client, client_ata, false);
    let r = w.run(&mut accounts, SplStoreInstruction::Buy(1));
    assert_eq!(r, Err(ProgramError::Custom(SplStoreError::InvalidAtaAddress)));
}

/// Buy refuses a store token account that is not at its derived address.
#[test]
fn buy_rejects_underived_store_ata_address() {
    let w = World::new();
    let (store, mut store_ata, client, client_ata) =
        w.trading_state(37, 1_000_000_000_000, 50, 500_000_000_000, 10);
    store_ata.key = key(56);
    let mut accounts = w.trade_accounts(store, store_ata, client, client_ata, false);
    let r = w.run(&mut accounts, SplStoreInstruction::Buy(1));
    assert_eq!(r, Err(ProgramError::Custom(SplStoreError::InvalidAtaAddress)));
}

/// A Buy against an unprovisioned store token account provisions it on
/// the fly, paid by the funding account.
#[test]
fn buy_provisions_store_ata_lazily() {
    let w = World::new();
    let (store, _store_ata, client, client_ata) =
        w.trading_state(3, 1_000_000_000_000, 0, 500_000_000_000, 10);
    // A fresh, unfunded handle at the right derived address.
    let fresh_ata = acct(&w.store_ata, 0, &w.system_program, false, true, empty());
    let mut accounts = w.trade_accounts(store, fresh_ata, client, client_ata, false);
    let payer_lamports = accounts[0].lamports;
    let r = w.run(&mut accounts, SplStoreInstruction::Buy(4));
    assert_eq!(r, Ok(()));
    assert_eq!(accounts[2].lamports, 2_039_280);
    assert_eq!(accounts[0].lamports, payer_lamports - 2_039_280);
    assert_eq!(token_amount(&accounts[2]), 4);
    assert_eq!(token_amount(&accounts[4]), 6);
}

/// A Sell against an unprovisioned client token account provisions it on
/// the fly; with a funding account that cannot pay the rent, the
/// provisioner's failure aborts the operation unchanged.
#[test]
fn sell_provisions_client_ata_lazily() {
    let w = World::new();
    let (store, store_ata, client, _client_ata) =
        w.trading_state(3, 1_000_000_000_000, 50, 500_000_000_000, 10);
    let fresh_ata = acct(&w.client_ata, 0, &w.system_program, false, true, empty());
    let mut accounts = w.trade_accounts(store, store_ata, client, fresh_ata, true);
    let payer_lamports = accounts[0].lamports;
    let r = w.run(&mut accounts, SplStoreInstruction::Sell(4));
    assert_eq!(r, Ok(()));
    assert_eq!(accounts[4].lamports, 2_039_280);
    assert_eq!(accounts[0].lamports, payer_lamports - 2_039_280);
    assert_eq!(token_amount(&accounts[4]), 4);
    assert_eq!(token_amount(&accounts[2]), 46);
}

/// The provisioner refuses a funding account that cannot pay the new
/// account's rent.
#[test]
fn sell_provisioning_fails_on_poor_funding() {
    let w = World::new();
    let (store, store_ata, client, _client_ata) =
        w.trading_state(3, 1_000_000_000_000, 50, 500_000_000_000, 10);
    let fresh_ata = acct(&w.client_ata, 0, &w.system_program, false, true, empty());
    let mut accounts = w.trade_accounts(store, store_ata, client, fresh_ata, true);
    accounts[0].lamports = 1_000_000;
    let r = w.run(&mut accounts, SplStoreInstruction::Sell(4));
    assert_eq!(r, Err(ProgramError::AtaCreationFailed));
    assert_eq!(accounts[0].lamports, 1_000_000);
    assert_eq!(accounts[4].lamports, 0);
}

/// Initialize refuses to provision the store's token account at an
/// address other than the derived one.
#[test]
fn initialize_rejects_unexpected_ata_address() {
    let w = World::new();
    let mut accounts = w.initialize_accounts(40_000_000_000_000, 0, 0);
    accounts[1].key = key(54);
    let r = w.run(&mut accounts, SplStoreInstruction::Initialize(42, 0));
    assert_eq!(r, Err(ProgramError::Custom(SplStoreError::UnexpectedAtaAddress)));
}

/// Initialize refuses a system-program account that is not the system
/// program.
#[test]
fn initialize_rejects_wrong_system_program() {
    let w = World::new();
    let mut accounts = w.initialize_accounts(40_000_000_000_000, 0, 0);
    accounts[4] = acct(&key(53), 1, &w.system_program, false, true, empty());
    let r = w.run(&mut accounts, SplStoreInstruction::Initialize(42, 0));
    assert_eq!(r, Err(ProgramError::IncorrectProgramId));
}

/// Creating the store account demands the funding account's signature.
#[test]
fn initialize_rejects_unsigned_funding() {
    let w = World::new();
    let mut accounts = w.initialize_accounts(40_000_000_000_000, 0, 0);
    accounts[0].is_signer = false;
    let r = w.run(&mut accounts, SplStoreInstruction::Initialize(42, 0));
    assert_eq!(r, Err(ProgramError::Custom(SplStoreError::AccountNotSigner)));
}

/// Account creation fails when the funding account cannot pay the
/// requested balance.
#[test]
fn initialize_rejects_poor_funding() {
    let w = World::new();
    let mut accounts = w.initialize_accounts(1_000_000, 0, 0);
    let r = w.run(&mut accounts, SplStoreInstruction::Initialize(42, 5_000_000));
    assert_eq!(r, Err(ProgramError::AccountCreationFailed));
    assert_eq!(accounts[0].lamports, 1_000_000);
}

/// A funding total that cannot be represented is refused as not
/// rent-exempt, as the wrapped balance would be.
#[test]
fn initialize_rejects_unrepresentable_funding() {
    let w = World::new();
    let mut accounts = w.initialize_accounts(40_000_000_000_000, 0, 0);
    let r = w.run(&mut accounts, SplStoreInstruction::Initialize(42, u64::MAX));
    assert_eq!(r, Err(ProgramError::AccountNotRentExempt));
}

/// A transfer whose destination balance would not be representable is
/// refused by the token service and changes nothing.
#[test]
fn buy_rejects_unrepresentable_destination() {
    let w = World::new();
    let (store, store_ata, client, client_ata) =
        w.trading_state(1, 1_000_000_000_000, u64::MAX, 500_000_000_000, 10);
    let mut accounts = w.trade_accounts(store, store_ata, client, client_ata, false);
    let r = w.run(&mut accounts, SplStoreInstruction::Buy(1));
    assert_eq!(r, Err(ProgramError::TokenTransferFailed));
    assert_eq!(token_amount(&accounts[2]), u64::MAX);
    assert_eq!(token_amount(&accounts[4]), 10);
}

/// UpdatePrice refuses an account whose data holds no readable record.
#[test]
fn update_rejects_unreadable_record() {
    let w = World::new();
    let mut accounts = vec![
        acct(&w.store, 1_000, &w.program_id, false, true, AccountContents::Raw(vec![1, 2, 3])),
        acct(&w.admin, 1, &w.system_program, false, true, empty()),
    ];
    let r = w.run(&mut accounts, SplStoreInstruction::UpdatePrice(37));
    assert_eq!(r, Err(ProgramError::InvalidAccountData));
}

/// Initialize refuses a funded store account owned by another program.
#[test]
fn initialize_rejects_foreign_store_owner() {
    let w = World::new();
    let mut accounts = w.initialize_accounts(40_000_000_000_000, 1_000_000, 0);
    let r = w.run(&mut accounts, SplStoreInstruction::Initialize(42, 0));
    assert_eq!(r, Err(ProgramError::IncorrectProgramId));
}

/// Extra accounts beyond an operation's list are carried through
/// untouched.
#[test]
fn extra_accounts_are_preserved() {
    let w = World::new();
    let (store, store_ata, client, client_ata) =
        w.trading_state(3, 1_000_000_000_000, 50, 500_000_000_000, 10);
    let mut accounts = w.trade_accounts(store, store_ata, client, client_ata, false);
    accounts.push(acct(&key(44), 777, &w.system_program, false, false, empty()));
    let r = w.run(&mut accounts, SplStoreInstruction::Buy(2));
    assert_eq!(r, Ok(()));
    assert_eq!(accounts.len(), 9);
    assert_eq!(accounts[8].lamports, 777);
    assert_eq!(accounts[8].key.bytes, vec![44u8; 32]);
}
