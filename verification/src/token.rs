//! The byte layouts of token accounts and mints, as the token program's
//! codec writes them.

use vstd::prelude::*;
use solana_program::program_error::ProgramError;
use solana_program::program_pack::Pack;
use crate::pubkey::Pubkey;

verus! {

/// Length of a packed token account.
pub const TOKEN_ACCOUNT_LEN: usize = 165;

/// Length of a packed mint.
pub const MINT_LEN: usize = 82;

/// The state of a token account.
#[derive(Clone, Copy, Debug, PartialEq, Eq)]
pub enum AccountState {
    /// Not yet initialized.
    Uninitialized,
    /// Initialized and usable.
    Initialized,
    /// Frozen by the mint's freeze authority.
    Frozen,
}

/// The byte that stands for `state` in a packed token account.
pub open spec fn state_byte(state: AccountState) -> u8 {
    match state {
        AccountState::Uninitialized => 0,
        AccountState::Initialized => 1,
        AccountState::Frozen => 2,
    }
}

/// `len` zero bytes.
pub open spec fn zeros(len: nat) -> Seq<u8> {
    Seq::new(len, |i: int| 0u8)
}

/// An absent optional field as the codec writes it into `len` bytes that held
/// `prior`: a zero tag of four bytes, and the rest left as it was.
pub open spec fn absent(prior: Seq<u8>) -> Seq<u8> {
    zeros(4) + prior.skip(4)
}

/// A token account of `mint` that belongs to `owner`, in `state`, with no
/// tokens, no delegate and no close authority, packed over a buffer that held
/// `prior`.
pub open spec fn token_account_layout(
    mint: Seq<u8>,
    owner: Seq<u8>,
    state: AccountState,
    prior: Seq<u8>,
) -> Seq<u8> {
    mint + owner + zeros(8) + absent(prior.subrange(72, 108)) + seq![state_byte(state)] + absent(
        prior.subrange(109, 121),
    ) + zeros(8) + absent(prior.subrange(129, 165))
}

/// A mint with no supply, no decimals and neither authority, packed over a
/// buffer that held `prior`.
pub open spec fn mint_layout(is_initialized: bool, prior: Seq<u8>) -> Seq<u8> {
    absent(prior.subrange(0, 36)) + zeros(8) + seq![0u8] + seq![
        if is_initialized {
            1u8
        } else {
            0u8
        },
    ] + absent(prior.subrange(46, 82))
}

/// The error type of the token program's codec.
#[verifier::external_type_specification]
#[verifier::external_body]
pub struct ExProgramError(ProgramError);

/// `spl_token::state::Account::LEN`.
///
/// Trusted: the constant is 165.
#[verifier::external_body]
pub(crate) fn token_account_len() -> (len: usize)
    ensures
        len == TOKEN_ACCOUNT_LEN,
{
    spl_token::state::Account::LEN
}

/// `spl_token::state::Mint::LEN`.
///
/// Trusted: the constant is 82.
#[verifier::external_body]
pub(crate) fn mint_len() -> (len: usize)
    ensures
        len == MINT_LEN,
{
    spl_token::state::Mint::LEN
}

/// `spl_token::state::Account::pack`, on the account that has the given
/// mint, owner and state and the codec's default in every other field.
///
/// Trusted: the call fails, and leaves `dst` alone, unless `dst` has 165
/// bytes; otherwise it writes mint, owner and a zero amount, the state byte
/// at offset 108 and a zero delegated amount, and for each of the three
/// absent optional fields a zero tag, leaving the bytes after the tag as
/// they were.
#[verifier::external_body]
pub(crate) fn pack_token_account(
    mint: &Pubkey,
    owner: &Pubkey,
    state: AccountState,
    dst: &mut Vec<u8>,
) -> (packed: Result<(), ProgramError>)
    ensures
        packed is Ok <==> old(dst)@.len() == TOKEN_ACCOUNT_LEN,
        packed is Ok ==> final(dst)@ == token_account_layout(mint@, owner@, state, old(dst)@),
        packed is Err ==> final(dst)@ == old(dst)@,
{
    let account = spl_token::state::Account {
        mint: solana_program::pubkey::Pubkey::new_from_array(mint.to_bytes()),
        owner: solana_program::pubkey::Pubkey::new_from_array(owner.to_bytes()),
        state: match state {
            AccountState::Uninitialized => spl_token::state::AccountState::Uninitialized,
            AccountState::Initialized => spl_token::state::AccountState::Initialized,
            AccountState::Frozen => spl_token::state::AccountState::Frozen,
        },
        ..Default::default()
    };
    spl_token::state::Account::pack(account, dst)
}

/// `spl_token::state::Mint::pack`, on the mint that has the given
/// initialization flag and the codec's default in every other field.
///
/// Trusted: the call fails, and leaves `dst` alone, unless `dst` has 82
/// bytes; otherwise it writes a zero supply, zero decimals and the flag at
/// offset 45, and for each of the two absent authorities a zero tag, leaving
/// the bytes after the tag as they were.
#[verifier::external_body]
pub(crate) fn pack_mint(is_initialized: bool, dst: &mut Vec<u8>) -> (packed: Result<
    (),
    ProgramError,
>)
    ensures
        packed is Ok <==> old(dst)@.len() == MINT_LEN,
        packed is Ok ==> final(dst)@ == mint_layout(is_initialized, old(dst)@),
        packed is Err ==> final(dst)@ == old(dst)@,
{
    let mint = spl_token::state::Mint { is_initialized, ..Default::default() };
    spl_token::state::Mint::pack(mint, dst)
}

} // verus!
