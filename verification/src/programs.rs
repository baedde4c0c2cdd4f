//! Addresses of the programs that own the accounts this crate seeds.

use vstd::prelude::*;
use crate::pubkey::Pubkey;

verus! {

/// Address of the BPF loader, `BPFLoader2111111111111111111111111111111111`.
pub open spec fn bpf_loader_address() -> Seq<u8> {
    seq![
        2u8, 168, 246, 145, 78, 136, 161, 110, 57, 90, 225, 40, 148, 143, 250, 105,
        86, 147, 55, 104, 24, 221, 71, 67, 82, 33, 243, 198, 0, 0, 0, 0,
    ]
}

/// Address of the system program, `11111111111111111111111111111111`.
pub open spec fn system_program_address() -> Seq<u8> {
    seq![
        0u8, 0, 0, 0, 0, 0, 0, 0, 0, 0, 0, 0, 0, 0, 0, 0,
        0, 0, 0, 0, 0, 0, 0, 0, 0, 0, 0, 0, 0, 0, 0, 0,
    ]
}

/// Address of the token program, `TokenkegQfeZyiNwAJbNbGKPFXCWuBvf9Ss623VQ5DA`.
pub open spec fn token_program_address() -> Seq<u8> {
    seq![
        6u8, 221, 246, 225, 215, 101, 161, 147, 217, 203, 225, 70, 206, 235, 121, 172,
        28, 180, 133, 237, 95, 91, 55, 145, 58, 140, 245, 133, 126, 255, 0, 169,
    ]
}

/// Address of the order-book program, `opnb2LAfJYbRMAHHvqjCwQxanZn7ReEHp1k81EohpZb`.
pub open spec fn openbook_address() -> Seq<u8> {
    seq![
        11u8, 254, 191, 189, 251, 171, 250, 208, 180, 101, 113, 191, 149, 140, 30, 184,
        36, 120, 123, 176, 153, 75, 177, 132, 107, 41, 120, 7, 30, 23, 153, 190,
    ]
}

/// `solana_program::bpf_loader::ID`, as an address of this crate.
///
/// Trusted: the constant is declared from the base-58 text
/// `BPFLoader2111111111111111111111111111111111`, whose 32 bytes are
/// [`bpf_loader_address`].
#[verifier::external_body]
pub(crate) fn bpf_loader_id() -> (id: Pubkey)
    ensures
        id@ == bpf_loader_address(),
{
    Pubkey::new_from_array(solana_program::bpf_loader::ID.to_bytes())
}

/// `solana_program::system_program::ID`, as an address of this crate.
///
/// Trusted: the constant is declared from the base-58 text
/// `11111111111111111111111111111111`, which is 32 zero bytes.
#[verifier::external_body]
pub(crate) fn system_program_id() -> (id: Pubkey)
    ensures
        id@ == system_program_address(),
{
    Pubkey::new_from_array(solana_program::system_program::ID.to_bytes())
}

/// `spl_token::ID`, as an address of this crate.
///
/// Trusted: the constant is declared from the base-58 text
/// `TokenkegQfeZyiNwAJbNbGKPFXCWuBvf9Ss623VQ5DA`, whose 32 bytes are
/// [`token_program_address`].
#[verifier::external_body]
pub(crate) fn token_program_id() -> (id: Pubkey)
    ensures
        id@ == token_program_address(),
{
    Pubkey::new_from_array(spl_token::ID.to_bytes())
}

/// The address of the order-book program.
pub fn openbook_id() -> (id: Pubkey)
    ensures
        id@ == openbook_address(),
{
    let bytes: [u8; 32] = [
        11, 254, 191, 189, 251, 171, 250, 208, 180, 101, 113, 191, 149, 140, 30, 184,
        36, 120, 123, 176, 153, 75, 177, 132, 107, 41, 120, 7, 30, 23, 153, 190,
    ];
    let id = Pubkey::new_from_array(bytes);
    assert(id@ =~= openbook_address());
    id
}

} // verus!
