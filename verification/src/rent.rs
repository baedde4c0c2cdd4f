//! The balance that exempts an account from rent.

use vstd::prelude::*;

verus! {

/// Bytes that every account is charged for besides its data.
pub const ACCOUNT_STORAGE_OVERHEAD: u64 = 128;

/// Default rental rate, in lamports for one byte and one year.
pub const LAMPORTS_PER_BYTE_YEAR: u64 = 3480;

/// The yearly rent of an account with `data_len` bytes of data, at the
/// default rate.
pub open spec fn yearly_rent(data_len: nat) -> nat {
    (ACCOUNT_STORAGE_OVERHEAD as nat + data_len) * LAMPORTS_PER_BYTE_YEAR as nat
}

/// The balance at which an account with `data_len` bytes of data owes no
/// rent, under the default rent configuration.
pub uninterp spec fn rent_exempt_minimum(data_len: nat) -> u64;

/// `solana_program::rent::Rent::minimum_balance` on `Rent::default()`.
///
/// Trusted: the result depends on `data_len` alone. The call multiplies the
/// yearly rent as a `u64`, so `data_len` is kept where that product fits; it
/// then doubles the product in 64-bit floating point, which is exact as long
/// as the product is below 2^53.
#[verifier::external_body]
pub(crate) fn minimum_balance(data_len: usize) -> (lamports: u64)
    requires
        yearly_rent(data_len as nat) <= u64::MAX,
    ensures
        lamports == rent_exempt_minimum(data_len as nat),
        yearly_rent(data_len as nat) < 0x20_0000_0000_0000 ==> lamports == 2 * yearly_rent(
            data_len as nat,
        ),
{
    solana_program::rent::Rent::default().minimum_balance(data_len)
}

} // verus!
