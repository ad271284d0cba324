//! The host environment's pure services, taken on trust.
//!
//! The processor relies on three computations of its surroundings: the
//! canonical associated-token-account address of a wallet and a mint, the
//! identities of the token and system programs, and the default rent
//! schedule's exemption minimum.  Each stands here behind one wrapper whose
//! contract Verus believes; everything built on top of them is verified.

use vstd::prelude::*;

use crate::pubkey::{key_wf, Pubkey};

verus! {

/// The canonical associated-token-account address derived from a wallet
/// identity and a mint identity.  The derivation is a pure function of the
/// two keys; nothing more is stated of it.
pub uninterp spec fn ata_address(wallet: Seq<u8>, mint: Seq<u8>) -> Seq<u8>;

/// Whether a key is the token program's identity.
pub uninterp spec fn is_token_program_key(key: Seq<u8>) -> bool;

/// Whether a key is the system program's identity.
pub uninterp spec fn is_system_program_key(key: Seq<u8>) -> bool;

/// The default rent schedule's exemption minimum for an account holding
/// `space` bytes of data: `(128 + space)` rented bytes at 3480
/// lamports per byte-year, over the two-year exemption threshold.
pub open spec fn rent_exempt_minimum(space: int) -> int {
    (128 + space) * 6960
}

/// Relies on `spl_associated_token_account::get_associated_token_address`,
/// which derives the associated token account address from the wallet and
/// mint keys alone, deterministically.
#[verifier::external_body]
pub(crate) fn derive_ata_address(wallet: &Pubkey, mint: &Pubkey) -> (r: Pubkey)
    requires
        key_wf(wallet@),
        key_wf(mint@),
    ensures
        r@ == ata_address(wallet@, mint@),
        key_wf(r@),
{
    let w = spl_token::solana_program::pubkey::Pubkey::try_from(wallet.bytes.as_slice()).unwrap();
    let m = spl_token::solana_program::pubkey::Pubkey::try_from(mint.bytes.as_slice()).unwrap();
    let a = spl_associated_token_account::get_associated_token_address(&w, &m);
    Pubkey { bytes: a.to_bytes().to_vec() }
}

/// Relies on `spl_token::check_id`, which compares the key against the
/// token program's fixed identity.
#[verifier::external_body]
pub(crate) fn check_token_program_id(key: &Pubkey) -> (r: bool)
    requires
        key_wf(key@),
    ensures
        r == is_token_program_key(key@),
{
    let k = spl_token::solana_program::pubkey::Pubkey::try_from(key.bytes.as_slice()).unwrap();
    spl_token::check_id(&k)
}

/// Relies on `solana_program::system_program::check_id`, which compares the
/// key against the system program's fixed identity.
#[verifier::external_body]
pub(crate) fn check_system_program_id(key: &Pubkey) -> (r: bool)
    requires
        key_wf(key@),
    ensures
        r == is_system_program_key(key@),
{
    let k = spl_token::solana_program::pubkey::Pubkey::try_from(key.bytes.as_slice()).unwrap();
    spl_token::solana_program::system_program::check_id(&k)
}

/// Relies on `solana_program::rent::Rent::default` and
/// `Rent::minimum_balance`: under the default schedule (3480 lamports per
/// byte-year, exemption threshold 2.0, 128 bytes of overhead) the minimum
/// is `(128 + space) * 3480 * 2`, computed exactly for any small `space`.
#[verifier::external_body]
pub(crate) fn default_rent_minimum_balance(space: usize) -> (r: u64)
    requires
        space <= 65536,
    ensures
        r == rent_exempt_minimum(space as int),
{
    spl_token::solana_program::rent::Rent::default().minimum_balance(space)
}

} // verus!
