//! The boundary to the ledger runtime: the outside types that pass through
//! the library, and the calls into the runtime. Nothing in this file is
//! proved; each contract states what the runtime's source shows.
use vstd::prelude::*;
use anchor_lang::prelude::Clock;
use anchor_lang::prelude::ProgramError;
use anchor_lang::prelude::Pubkey;
use anchor_lang::prelude::Rent;
use anchor_lang::prelude::SolanaSysvar;

verus! {

/// `anchor_lang::prelude::Pubkey`: a 32-byte address. The library carries it
/// through and compares it; it never looks inside.
#[verifier::external_type_specification]
#[verifier::external_body]
pub struct ExPubkey(Pubkey);

/// `anchor_lang::prelude::ProgramError`: the runtime's error. The library
/// passes it on without reading it.
#[verifier::external_type_specification]
#[verifier::external_body]
pub struct ExProgramError(ProgramError);

/// `anchor_lang::prelude::Rent`: the runtime's rent parameters, with its
/// public fields as declared there. The library reads only the integer rate
/// `lamports_per_byte_year`.
#[verifier::external_type_specification]
pub struct ExRent(Rent);

/// Bytes the runtime adds to an account's data length before it prices the
/// account (`ACCOUNT_STORAGE_OVERHEAD` in the rent crate).
pub const ACCOUNT_STORAGE_OVERHEAD: u64 = 128;

/// Whether the runtime can price `space` bytes at `rate` lamports per byte
/// and year: the padded length, and the padded length times the rate, must
/// each fit in 64 bits.
pub open spec fn priceable(space: usize, rate: u64) -> bool {
    &&& ACCOUNT_STORAGE_OVERHEAD + space <= u64::MAX
    &&& (ACCOUNT_STORAGE_OVERHEAD + space) * rate <= u64::MAX
}

/// Calls `Clock::get()` and hands back the clock's `unix_timestamp`, or the
/// runtime's error. The value comes from the runtime's state, so nothing is
/// claimed of it.
#[verifier::external_body]
pub(crate) fn clock_unix_timestamp() -> (now: Result<i64, ProgramError>) {
    Clock::get().map(|clock| clock.unix_timestamp)
}

/// Calls `Rent::get()`: the rent parameters currently in force, or the
/// runtime's error. Nothing is claimed of either.
#[verifier::external_body]
pub(crate) fn rent_get() -> (rent: Result<Rent, ProgramError>) {
    Rent::get()
}

/// The deposit that `Rent::minimum_balance` computes for an account of
/// `data_len` bytes under the parameters `rent`. It is a function of the
/// parameters and the length alone; the runtime scales an integer product by
/// a fractional threshold, which is not spelled out here.
pub uninterp spec fn exempt_minimum(rent: Rent, data_len: usize) -> u64;

/// Calls `Rent::minimum_balance`: the deposit that exempts an account of
/// `data_len` bytes from rent. The runtime pads the length and multiplies it
/// by the rate in 64-bit integers before scaling the product, so both must
/// fit. The result is named, not described.
#[verifier::external_body]
#[allow(deprecated)]
pub(crate) fn rent_minimum_balance(rent: &Rent, data_len: usize) -> (lamports: u64)
    requires
        priceable(data_len, rent.lamports_per_byte_year),
    ensures
        lamports == exempt_minimum(*rent, data_len),
{
    rent.minimum_balance(data_len)
}

} // verus!
