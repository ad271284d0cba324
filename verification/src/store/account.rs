//! The persisted price-store record and the operations that maintain it.
//!
//! The record is fixed-layout: the unit price as 8 little-endian bytes,
//! then the administrator's 32-byte identity — 40 bytes, no padding, no
//! version tag.

use vstd::prelude::*;
use vstd::bytes::{spec_u64_from_le_bytes, spec_u64_to_le_bytes, u64_from_le_bytes, u64_to_le_bytes,
    lemma_auto_spec_u64_to_from_le_bytes};

use crate::account::{AccountContents, AccountHandle, AccountView, ContentsView, TokenContents};
use crate::error::{ProgramError, SplStoreError};
use crate::host::{ata_address, check_system_program_id, check_token_program_id,
    default_rent_minimum_balance, derive_ata_address, is_system_program_key, is_token_program_key,
    rent_exempt_minimum};
use crate::pubkey::{key_wf, key_eq, clone_bytes, Pubkey};
use crate::store::{Amount, Price};

verus! {

/// The byte length of the persisted record.
pub const STORE_RECORD_LEN: usize = 40;

/// The persisted state of one store: its unit price and the identity
/// allowed to change it.
#[derive(Debug)]
pub struct StoreAccount {
    /// The current unit price; strictly positive after any successful
    /// initialization or update.
    pub price: Price,
    /// The administrator's identity.
    pub admin: Pubkey,
}

/// The mathematical image of the record.
#[verifier::ext_equal]
pub ghost struct StoreRecordView {
    /// The current unit price.
    pub price: Price,
    /// The administrator's identity.
    pub admin: Seq<u8>,
}

impl View for StoreAccount {
    type V = StoreRecordView;

    open spec fn view(&self) -> StoreRecordView {
        StoreRecordView { price: self.price, admin: self.admin@ }
    }
}

/// The decoding of record bytes, if they hold a record.
pub open spec fn parse_store_record(s: Seq<u8>) -> Option<StoreRecordView> {
    if s.len() == 40 {
        Some(
            StoreRecordView {
                price: spec_u64_from_le_bytes(s.subrange(0, 8)),
                admin: s.subrange(8, 40),
            },
        )
    } else {
        None
    }
}

/// The encoding of a record.
pub open spec fn store_record_bytes(r: StoreRecordView) -> Seq<u8> {
    spec_u64_to_le_bytes(r.price) + r.admin
}

/// Encoding then decoding a record restores it exactly.
pub proof fn lemma_store_record_round_trip(r: StoreRecordView)
    requires
        key_wf(r.admin),
    ensures
        parse_store_record(store_record_bytes(r)) == Some(r),
{
    lemma_auto_spec_u64_to_from_le_bytes();
    let s = store_record_bytes(r);
    assert(s.subrange(0, 8) =~= spec_u64_to_le_bytes(r.price));
    assert(s.subrange(8, 40) =~= r.admin);
    assert(parse_store_record(s) == Some(r));
}

/// The byte length of a token-account record, which fixes the rent a
/// freshly provisioned associated token account must be funded with.
pub const TOKEN_ACCOUNT_LEN: usize = 165;

/// The record held by an account, if its contents parse as one.
pub open spec fn account_store_record(a: AccountView) -> Option<StoreRecordView> {
    match a.contents {
        ContentsView::Raw(s) => parse_store_record(s),
        ContentsView::Token { .. } => None,
    }
}

/// The associated-account provisioner's refusals: it creates a token
/// account only at the derived address, only through the real token
/// program, and only when the funding account can pay the new account's
/// rent-exempt minimum.
pub open spec fn provision_ata_error(
    funding: AccountView,
    ata: AccountView,
    wallet_key: Seq<u8>,
    mint_key: Seq<u8>,
    token_program_key: Seq<u8>,
) -> Option<ProgramError> {
    if !is_token_program_key(token_program_key) {
        Some(ProgramError::AtaCreationFailed)
    } else if ata.key != ata_address(wallet_key, mint_key) {
        Some(ProgramError::AtaCreationFailed)
    } else if funding.lamports < rent_exempt_minimum(TOKEN_ACCOUNT_LEN as int) {
        Some(ProgramError::AtaCreationFailed)
    } else {
        None
    }
}

/// A freshly provisioned associated token account: funded to the
/// rent-exempt minimum, owned by the token program, holding zero units of
/// the mint.
pub open spec fn provisioned_ata(
    ata: AccountView,
    mint_key: Seq<u8>,
    token_program_key: Seq<u8>,
) -> AccountView {
    AccountView {
        lamports: rent_exempt_minimum(TOKEN_ACCOUNT_LEN as int) as u64,
        owner: token_program_key,
        contents: ContentsView::Token { mint: mint_key, amount: 0 },
        ..ata
    }
}

/// The funding account after paying for one provisioned token account.
pub open spec fn provision_funding_debited(funding: AccountView) -> AccountView {
    AccountView { lamports: (funding.lamports - rent_exempt_minimum(TOKEN_ACCOUNT_LEN as int)) as u64, ..funding }
}

/// The checks `initialize_ata` performs before asking the provisioner.
pub open spec fn initialize_ata_error(
    funding: AccountView,
    ata: AccountView,
    wallet: AccountView,
    mint: AccountView,
    system_program: AccountView,
    token_program: AccountView,
) -> Option<ProgramError> {
    if !is_system_program_key(system_program.key) {
        Some(ProgramError::IncorrectProgramId)
    } else if ata.key != ata_address(wallet.key, mint.key) {
        Some(ProgramError::Custom(SplStoreError::UnexpectedAtaAddress))
    } else if !funding.is_writable {
        Some(ProgramError::Custom(SplStoreError::AccountNotWritable))
    } else if !funding.is_signer {
        Some(ProgramError::Custom(SplStoreError::AccountNotSigner))
    } else if !ata.is_writable {
        Some(ProgramError::Custom(SplStoreError::AccountNotWritable))
    } else {
        provision_ata_error(funding, ata, wallet.key, mint.key, token_program.key)
    }
}

/// The checks `initialize_account` performs before asking the host to
/// create the store account, and the host's own refusals.  The funding
/// total is carried in the balance type, so a total beyond its range is
/// treated as failing the rent-exemption check.
pub open spec fn initialize_account_error(
    funding: AccountView,
    store: AccountView,
    add_sol: Amount,
) -> Option<ProgramError> {
    if !funding.is_writable {
        Some(ProgramError::Custom(SplStoreError::AccountNotWritable))
    } else if !funding.is_signer {
        Some(ProgramError::Custom(SplStoreError::AccountNotSigner))
    } else if !store.is_writable {
        Some(ProgramError::Custom(SplStoreError::AccountNotWritable))
    } else if !store.is_signer {
        Some(ProgramError::Custom(SplStoreError::AccountNotSigner))
    } else if rent_exempt_minimum(STORE_RECORD_LEN as int) + add_sol > u64::MAX {
        Some(ProgramError::AccountNotRentExempt)
    } else if store.lamports != 0 {
        Some(ProgramError::AccountCreationFailed)
    } else if funding.lamports < rent_exempt_minimum(STORE_RECORD_LEN as int) + add_sol {
        Some(ProgramError::AccountCreationFailed)
    } else {
        None
    }
}

/// The freshly created store account: funded to the rent-exempt minimum
/// plus the extra funding, owned by this program, holding a zeroed record.
pub open spec fn created_store(store: AccountView, program_id: Seq<u8>, add_sol: Amount) -> AccountView {
    AccountView {
        lamports: (rent_exempt_minimum(STORE_RECORD_LEN as int) + add_sol) as u64,
        owner: program_id,
        contents: ContentsView::Raw(Seq::new(STORE_RECORD_LEN as nat, |i: int| 0u8)),
        ..store
    }
}

/// The funding account after paying for the created store account.
pub open spec fn create_funding_debited(funding: AccountView, add_sol: Amount) -> AccountView {
    AccountView {
        lamports: (funding.lamports - (rent_exempt_minimum(STORE_RECORD_LEN as int) + add_sol)) as u64,
        ..funding
    }
}

/// An account holding the given record as its contents.
pub open spec fn store_with_record(a: AccountView, rec: StoreRecordView) -> AccountView {
    AccountView { contents: ContentsView::Raw(store_record_bytes(rec)), ..a }
}

/// The store account after its record's price is replaced.
pub open spec fn updated_store(a: AccountView, new_price: Price) -> AccountView {
    let rec = account_store_record(a)->Some_0;
    AccountView {
        contents: ContentsView::Raw(
            store_record_bytes(StoreRecordView { price: new_price, admin: rec.admin }),
        ),
        ..a
    }
}

/// The refusals of a price update on the record itself: an unreadable
/// record, a caller other than the stored administrator, or a price of
/// zero.
pub open spec fn update_record_error(
    a: AccountView,
    admin_key: Seq<u8>,
    new_price: Price,
) -> Option<ProgramError> {
    match account_store_record(a) {
        Option::None => Some(ProgramError::InvalidAccountData),
        Option::Some(rec) => if rec.admin != admin_key {
            Some(ProgramError::Custom(SplStoreError::AccountNotAdmin))
        } else if new_price == 0 {
            Some(ProgramError::Custom(SplStoreError::InvalidPrice))
        } else {
            None
        },
    }
}

/// A vector of `n` zero bytes.
pub fn zero_bytes(n: usize) -> (r: Vec<u8>)
    ensures
        r@ == Seq::new(n as nat, |i: int| 0u8),
{
    let mut r: Vec<u8> = Vec::new();
    let mut i: usize = 0;
    while i < n
        invariant
            i <= n,
            r@ == Seq::new(i as nat, |j: int| 0u8),
        decreases n - i,
    {
        r.push(0u8);
        assert(r@ =~= Seq::new((i + 1) as nat, |j: int| 0u8));
        i = i + 1;
    }
    r
}

impl StoreAccount {
    /// Decodes a record from raw bytes, failing on any other length.
    pub fn try_from_slice(data: &Vec<u8>) -> (r: Result<StoreAccount, ProgramError>)
        ensures
            match r {
                Ok(rec) => parse_store_record(data@) == Some(rec@) && key_wf(rec.admin@),
                Err(e) => parse_store_record(data@) is None && e == ProgramError::InvalidAccountData,
            },
    {
        if data.len() == STORE_RECORD_LEN {
            let price = u64_from_le_bytes(vstd::slice::slice_subrange(data.as_slice(), 0, 8));
            let admin_bytes = vstd::slice::slice_to_vec(
                vstd::slice::slice_subrange(data.as_slice(), 8, 40),
            );
            let rec = StoreAccount { price, admin: Pubkey { bytes: admin_bytes } };
            Ok(rec)
        } else {
            Err(ProgramError::InvalidAccountData)
        }
    }

    /// Encodes the record; decoding the result restores it exactly.
    pub fn serialize(&self) -> (r: Vec<u8>)
        requires
            key_wf(self.admin@),
        ensures
            r@ == store_record_bytes(self@),
            parse_store_record(r@) == Some(self@),
    {
        let mut out = u64_to_le_bytes(self.price);
        let mut admin_bytes = clone_bytes(&self.admin.bytes);
        out.append(&mut admin_bytes);
        proof {
            assert(out@ =~= store_record_bytes(self@));
            lemma_store_record_round_trip(self@);
        }
        out
    }

    /// Reads the unit price from an account's record.
    pub fn get_price(account: &AccountHandle) -> (r: Result<Price, ProgramError>)
        ensures
            match account_store_record(account@) {
                Some(rec) => r == Ok::<Price, ProgramError>(rec.price),
                None => r == Err::<Price, ProgramError>(ProgramError::InvalidAccountData),
            },
    {
        match &account.contents {
            AccountContents::Raw(bytes) => {
                let rec = StoreAccount::try_from_slice(bytes)?;
                Ok(rec.price)
            },
            AccountContents::Token(_) => Err(ProgramError::InvalidAccountData),
        }
    }

    /// Replaces the record's price, if the presented identity is the
    /// stored administrator and the new price is strictly positive.
    pub fn update_price(
        account: &mut AccountHandle,
        admin_account: &AccountHandle,
        new_price: Price,
    ) -> (r: Result<(), ProgramError>)
        ensures
            match r {
                Ok(()) => update_record_error(old(account)@, admin_account@.key, new_price) is None
                    && final(account)@ == updated_store(old(account)@, new_price),
                Err(e) => update_record_error(old(account)@, admin_account@.key, new_price)
                    == Some(e) && final(account)@ == old(account)@,
            },
    {
        let rec = match &account.contents {
            AccountContents::Raw(bytes) => StoreAccount::try_from_slice(bytes)?,
            AccountContents::Token(_) => {
                return Err(ProgramError::InvalidAccountData);
            },
        };
        if !key_eq(&rec.admin, &admin_account.key) {
            return Err(ProgramError::Custom(SplStoreError::AccountNotAdmin));
        }
        if new_price == 0 {
            return Err(ProgramError::Custom(SplStoreError::InvalidPrice));
        }
        let new_rec = StoreAccount { price: new_price, admin: rec.admin };
        account.contents = AccountContents::Raw(new_rec.serialize());
        Ok(())
    }

    /// Asks the host to create the store account: a fresh account sized
    /// for the record, funded from `funding` to the rent-exempt minimum
    /// plus `add_sol`, owned by this program.
    ///
    /// Both the funding account and the new account must be writable
    /// signers, the funding account must cover the required balance, and
    /// the new account must not be funded yet.
    pub fn initialize_account(
        program_id: &Pubkey,
        funding: &mut AccountHandle,
        store: &mut AccountHandle,
        add_sol: Amount,
    ) -> (r: Result<(), ProgramError>)
        ensures
            match r {
                Ok(()) => initialize_account_error(old(funding)@, old(store)@, add_sol) is None
                    && final(funding)@ == create_funding_debited(old(funding)@, add_sol)
                    && final(store)@ == created_store(old(store)@, program_id@, add_sol),
                Err(e) => initialize_account_error(old(funding)@, old(store)@, add_sol) == Some(e)
                    && final(funding)@ == old(funding)@ && final(store)@ == old(store)@,
            },
    {
        if !funding.is_writable {
            return Err(ProgramError::Custom(SplStoreError::AccountNotWritable));
        }
        if !funding.is_signer {
            return Err(ProgramError::Custom(SplStoreError::AccountNotSigner));
        }
        if !store.is_writable {
            return Err(ProgramError::Custom(SplStoreError::AccountNotWritable));
        }
        if !store.is_signer {
            return Err(ProgramError::Custom(SplStoreError::AccountNotSigner));
        }
        let rent_min = default_rent_minimum_balance(STORE_RECORD_LEN);
        if add_sol > u64::MAX - rent_min {
            return Err(ProgramError::AccountNotRentExempt);
        }
        let total = rent_min + add_sol;
        if store.lamports != 0 {
            return Err(ProgramError::AccountCreationFailed);
        }
        if funding.lamports < total {
            return Err(ProgramError::AccountCreationFailed);
        }
        funding.lamports = funding.lamports - total;
        store.lamports = total;
        store.owner = program_id.clone_key();
        store.contents = AccountContents::Raw(zero_bytes(STORE_RECORD_LEN));
        Ok(())
    }

    /// Asks the associated-account provisioner to create the token account
    /// of `wallet` for `mint`, with no checks of this program's own: the
    /// provisioner itself refuses a non-derived address, a missing token
    /// program, and a funding account that cannot pay the new account's
    /// rent-exempt minimum.
    pub fn provision_ata(
        funding: &mut AccountHandle,
        ata: &mut AccountHandle,
        wallet: &AccountHandle,
        mint: &AccountHandle,
        token_program: &AccountHandle,
    ) -> (r: Result<(), ProgramError>)
        requires
            key_wf(wallet@.key),
            key_wf(mint@.key),
            key_wf(token_program@.key),
        ensures
            match r {
                Ok(()) => provision_ata_error(
                    old(funding)@,
                    old(ata)@,
                    wallet@.key,
                    mint@.key,
                    token_program@.key,
                ) is None && final(funding)@ == provision_funding_debited(old(funding)@)
                    && final(ata)@ == provisioned_ata(old(ata)@, mint@.key, token_program@.key),
                Err(e) => provision_ata_error(
                    old(funding)@,
                    old(ata)@,
                    wallet@.key,
                    mint@.key,
                    token_program@.key,
                ) == Some(e) && final(funding)@ == old(funding)@ && final(ata)@ == old(ata)@,
            },
    {
        if !check_token_program_id(&token_program.key) {
            return Err(ProgramError::AtaCreationFailed);
        }
        let expected = derive_ata_address(&wallet.key, &mint.key);
        if !key_eq(&ata.key, &expected) {
            return Err(ProgramError::AtaCreationFailed);
        }
        let rent_min = default_rent_minimum_balance(TOKEN_ACCOUNT_LEN);
        if funding.lamports < rent_min {
            return Err(ProgramError::AtaCreationFailed);
        }
        funding.lamports = funding.lamports - rent_min;
        ata.lamports = rent_min;
        ata.owner = token_program.key.clone_key();
        ata.contents = AccountContents::Token(
            TokenContents { mint: mint.key.clone_key(), amount: 0 },
        );
        Ok(())
    }

    /// Provisions the associated token account of `wallet` for `mint` at
    /// its derived address, paid for by `funding`.
    pub fn initialize_ata(
        funding: &mut AccountHandle,
        ata: &mut AccountHandle,
        wallet: &AccountHandle,
        mint: &AccountHandle,
        system_program: &AccountHandle,
        token_program: &AccountHandle,
    ) -> (r: Result<(), ProgramError>)
        requires
            key_wf(wallet@.key),
            key_wf(mint@.key),
            key_wf(system_program@.key),
            key_wf(token_program@.key),
        ensures
            match r {
                Ok(()) => initialize_ata_error(
                    old(funding)@,
                    old(ata)@,
                    wallet@,
                    mint@,
                    system_program@,
                    token_program@,
                ) is None && final(funding)@ == provision_funding_debited(old(funding)@)
                    && final(ata)@ == provisioned_ata(old(ata)@, mint@.key, token_program@.key),
                Err(e) => initialize_ata_error(
                    old(funding)@,
                    old(ata)@,
                    wallet@,
                    mint@,
                    system_program@,
                    token_program@,
                ) == Some(e) && final(funding)@ == old(funding)@ && final(ata)@ == old(ata)@,
            },
    {
        if !check_system_program_id(&system_program.key) {
            return Err(ProgramError::IncorrectProgramId);
        }
        let expected = derive_ata_address(&wallet.key, &mint.key);
        if !key_eq(&expected, &ata.key) {
            return Err(ProgramError::Custom(SplStoreError::UnexpectedAtaAddress));
        }
        if !funding.is_writable {
            return Err(ProgramError::Custom(SplStoreError::AccountNotWritable));
        }
        if !funding.is_signer {
            return Err(ProgramError::Custom(SplStoreError::AccountNotSigner));
        }
        if !ata.is_writable {
            return Err(ProgramError::Custom(SplStoreError::AccountNotWritable));
        }
        StoreAccount::provision_ata(funding, ata, wallet, mint, token_program)
    }
}

} // verus!
