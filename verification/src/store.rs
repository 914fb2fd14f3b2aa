//! The store operation: validate, fingerprint, price, commit.
//!
//! A request either commits one complete record into an unoccupied slot or
//! leaves the slot exactly as it was. Duplicates are detected per slot: the
//! store never scans other slots for an equal fingerprint.
use vstd::prelude::*;
use anchor_lang::prelude::Rent;
use crate::fingerprint::fingerprint;
use crate::fingerprint::md5_hash;
use crate::record::text_bytes;
use crate::record::record_size;
use crate::record::ErrorCode;
use crate::record::StoreError;
use crate::record::StoreResult;
use crate::record::StoreString;
use crate::record::StringRecord;
use crate::record::MAX_TEXT_LEN;
use crate::substrate::clock_unix_timestamp;
use crate::substrate::exempt_minimum;
use crate::substrate::priceable;
use crate::substrate::rent_get;
use crate::substrate::rent_minimum_balance;
use crate::substrate::ACCOUNT_STORAGE_OVERHEAD;

verus! {

/// The protocol-wide fee added to every reservation deposit, in lamports.
pub const TRANSACTION_FEE: u64 = 5000;

/// The verdict on a text by itself: empty is checked first, then length.
pub open spec fn text_error(text: Seq<char>) -> Option<ErrorCode> {
    if text.len() == 0 {
        Some(ErrorCode::EmptyString)
    } else if text_bytes(text).len() > MAX_TEXT_LEN {
        Some(ErrorCode::StringTooLong)
    } else {
        None
    }
}

/// The verdict on a request: the text's own faults come first, then an
/// occupied slot.
pub open spec fn request_error(slot: Option<StringRecord>, text: Seq<char>) -> Option<ErrorCode> {
    if text_error(text) is Some {
        text_error(text)
    } else if slot is Some {
        Some(ErrorCode::AlreadyExists)
    } else {
        None
    }
}

/// Checks a text: `EmptyString` if it has no characters, else
/// `StringTooLong` if it is longer than 200 bytes, else accepted.
pub fn validate_input(input: &str) -> (res: Result<(), ErrorCode>)
    ensures
        match text_error(input@) {
            Some(code) => res == Err::<(), ErrorCode>(code),
            None => res is Ok,
        },
{
    if input.is_empty() {
        Err(ErrorCode::EmptyString)
    } else if input.as_bytes().len() > MAX_TEXT_LEN {
        Err(ErrorCode::StringTooLong)
    } else {
        Ok(())
    }
}

/// Checks a request against the slot it designates, in the order of
/// `request_error`. Reads only; nothing is reserved.
pub fn validate_request(ctx: &StoreString, input: &str) -> (res: Result<(), ErrorCode>)
    ensures
        match request_error(ctx.record, input@) {
            Some(code) => res == Err::<(), ErrorCode>(code),
            None => res is Ok,
        },
{
    match validate_input(input) {
        Err(code) => Err(code),
        Ok(()) => if ctx.record.is_some() {
            Err(ErrorCode::AlreadyExists)
        } else {
            Ok(())
        },
    }
}

/// The charge for a reservation deposit of `reserve` lamports: the deposit
/// plus `TRANSACTION_FEE`, or `None` where the sum does not fit in 64 bits.
pub fn total_cost(reserve: u64) -> (cost: Option<u64>)
    ensures
        cost == if reserve + TRANSACTION_FEE <= u64::MAX {
            Some((reserve + TRANSACTION_FEE) as u64)
        } else {
            None
        },
{
    reserve.checked_add(TRANSACTION_FEE)
}

/// Commits `input` into the slot of `ctx`, stamped `timestamp`, for a
/// reservation deposit of `reserve` lamports.
///
/// The outcome is a function of the arguments. A faulty request is rejected
/// with its code; a cost that does not fit is `CostOverflow`; otherwise the
/// slot holds the one record described by `StringRecord::holds`, and the
/// descriptor names its fingerprint, the slot's address and the cost. On
/// every error the context is left as it was.
pub fn commit_record(ctx: &mut StoreString, input: String, timestamp: i64, reserve: u64) -> (res:
    Result<StoreResult, StoreError>)
    ensures
        final(ctx).record_address == old(ctx).record_address,
        final(ctx).payer == old(ctx).payer,
        res is Err ==> *final(ctx) == *old(ctx),
        old(ctx).record is Some ==> res is Err,
        match request_error(old(ctx).record, input@) {
            Some(code) => res == Err::<StoreResult, StoreError>(StoreError::Rejected(code)),
            None => if reserve + TRANSACTION_FEE > u64::MAX {
                res == Err::<StoreResult, StoreError>(StoreError::CostOverflow)
            } else {
                &&& res matches Ok(out)
                &&& out.signature@ == fingerprint(text_bytes(input@))
                &&& out.record_address == old(ctx).record_address
                &&& out.cost_lamports == reserve + TRANSACTION_FEE
                &&& final(ctx).record matches Some(rec)
                &&& rec.holds(input@, timestamp, old(ctx).payer, out.cost_lamports)
                &&& rec.is_valid()
            },
        },
{
    match validate_request(ctx, input.as_str()) {
        Err(code) => Err(StoreError::Rejected(code)),
        Ok(()) => match total_cost(reserve) {
            None => Err(StoreError::CostOverflow),
            Some(cost) => {
                let signature = md5_hash(input.as_str().as_bytes());
                ctx.record = Some(
                    StringRecord {
                        original_string: input,
                        signature,
                        timestamp,
                        owner: ctx.payer,
                        cost_lamports: cost,
                    },
                );
                Ok(StoreResult { signature, record_address: ctx.record_address, cost_lamports: cost })
            },
        },
    }
}

/// What a record costs under the rent parameters `rent`: the runtime's
/// deposit for the fixed capacity `StringRecord::LEN`, plus the fee.
pub open spec fn quoted_cost(rent: Rent) -> int {
    exempt_minimum(rent, StringRecord::LEN) + TRANSACTION_FEE
}

/// The deposit that reserves `space` bytes under the rent parameters `rent`.
///
/// The amount is the runtime's own figure, `exempt_minimum`. It is asked for
/// exactly when the parameters are `priceable`; otherwise the answer is
/// `CostOverflow`.
#[allow(deprecated)]
pub fn reserve_for(rent: &Rent, space: usize) -> (res: Result<u64, StoreError>)
    ensures
        res == if priceable(space, rent.lamports_per_byte_year) {
            Ok::<u64, StoreError>(exempt_minimum(*rent, space))
        } else {
            Err::<u64, StoreError>(StoreError::CostOverflow)
        },
{
    let padded = match (space as u64).checked_add(ACCOUNT_STORAGE_OVERHEAD) {
        Some(n) => n,
        None => {
            return Err(StoreError::CostOverflow);
        },
    };
    match padded.checked_mul(rent.lamports_per_byte_year) {
        None => Err(StoreError::CostOverflow),
        Some(_) => Ok(rent_minimum_balance(rent, space)),
    }
}

/// Stores `input` in the slot of `ctx` under the runtime readings `now` and
/// `rent`.
///
/// The outcome is a function of the arguments. The request is checked first;
/// then the fixed capacity `StringRecord::LEN` is priced under `rent`, and
/// the record is committed for that deposit plus `TRANSACTION_FEE`, stamped
/// `now`. Parameters that cannot be priced, or a cost that does not fit, give
/// `CostOverflow`. On every error the context is left as it was.
#[allow(deprecated)]
pub fn store_under(ctx: &mut StoreString, input: String, now: i64, rent: &Rent) -> (res: Result<
    StoreResult,
    StoreError,
>)
    ensures
        final(ctx).record_address == old(ctx).record_address,
        final(ctx).payer == old(ctx).payer,
        res is Err ==> *final(ctx) == *old(ctx),
        old(ctx).record is Some ==> res is Err,
        match request_error(old(ctx).record, input@) {
            Some(code) => res == Err::<StoreResult, StoreError>(StoreError::Rejected(code)),
            None => if !priceable(StringRecord::LEN, rent.lamports_per_byte_year) || quoted_cost(
                *rent,
            ) > u64::MAX {
                res == Err::<StoreResult, StoreError>(StoreError::CostOverflow)
            } else {
                &&& res matches Ok(out)
                &&& out.signature@ == fingerprint(text_bytes(input@))
                &&& out.record_address == old(ctx).record_address
                &&& out.cost_lamports == quoted_cost(*rent)
                &&& final(ctx).record matches Some(rec)
                &&& rec.holds(input@, now, old(ctx).payer, out.cost_lamports)
                &&& rec.is_valid()
            },
        },
{
    match validate_request(ctx, input.as_str()) {
        Err(code) => Err(StoreError::Rejected(code)),
        Ok(()) => match reserve_for(rent, StringRecord::LEN) {
            Err(e) => Err(e),
            Ok(reserve) => commit_record(ctx, input, now, reserve),
        },
    }
}

/// Stores `input` in the slot of `ctx`.
///
/// The request is checked before the runtime is touched: an empty text, a
/// text over 200 bytes, or an occupied slot is rejected with its code, in
/// that order, and exactly then. Otherwise the clock and the rent parameters
/// are read from the runtime, whose failure is passed on, and the rest is
/// `store_under` for what was read: the cost is the `quoted_cost` under the
/// parameters read. Whatever the runtime answers, an error leaves the context
/// as it was and an occupied slot is never overwritten.
#[allow(deprecated)]
pub fn store_string(ctx: &mut StoreString, input: String) -> (res: Result<StoreResult, StoreError>)
    ensures
        final(ctx).record_address == old(ctx).record_address,
        final(ctx).payer == old(ctx).payer,
        res is Err ==> *final(ctx) == *old(ctx),
        old(ctx).record is Some ==> res is Err,
        match request_error(old(ctx).record, input@) {
            Some(code) => res == Err::<StoreResult, StoreError>(StoreError::Rejected(code)),
            None => match res {
                Ok(out) => {
                    &&& out.signature@ == fingerprint(text_bytes(input@))
                    &&& out.record_address == old(ctx).record_address
                    &&& exists|rent: Rent|
                        priceable(StringRecord::LEN, rent.lamports_per_byte_year)
                            && out.cost_lamports == #[trigger] quoted_cost(rent)
                    &&& final(ctx).record matches Some(rec)
                    &&& rec.holds(input@, rec.timestamp, old(ctx).payer, out.cost_lamports)
                    &&& rec.is_valid()
                },
                Err(e) => !(e is Rejected),
            },
        },
{
    match validate_request(ctx, input.as_str()) {
        Err(code) => Err(StoreError::Rejected(code)),
        Ok(()) => match clock_unix_timestamp() {
            Err(e) => Err(StoreError::Substrate(e)),
            Ok(now) => match rent_get() {
                Err(e) => Err(StoreError::Substrate(e)),
                Ok(rent) => store_under(ctx, input, now, &rent),
            },
        },
    }
}

/// A slot that holds a record turns every request down: with a sound text
/// the verdict is `AlreadyExists`, and with a faulty text it is the text's
/// own fault. No request is accepted.
pub proof fn lemma_occupied_slot_rejects(slot: Option<StringRecord>, text: Seq<char>)
    requires
        slot is Some,
    ensures
        request_error(slot, text) is Some,
        text_error(text) is None ==> request_error(slot, text) == Some(ErrorCode::AlreadyExists),
{
}

/// The boundaries of validation, in bytes: a text of no bytes is empty, one
/// of 1 to 200 bytes is accepted, and one of 201 bytes or more is too long.
pub proof fn lemma_text_bounds(text: Seq<char>)
    ensures
        text_bytes(text).len() == 0 <==> text_error(text) == Some(ErrorCode::EmptyString),
        1 <= text_bytes(text).len() <= 200 <==> text_error(text) is None,
        text_bytes(text).len() >= 201 <==> text_error(text) == Some(ErrorCode::StringTooLong),
{
}

/// The footprint of any record with an accepted text stays within the fixed
/// capacity that is reserved and priced in advance.
pub proof fn lemma_record_size_bounded(text: Seq<char>)
    requires
        text_error(text) is None,
    ensures
        record_size(text_bytes(text).len()) <= StringRecord::LEN,
        StringRecord::LEN == record_size(MAX_TEXT_LEN as nat),
{
}

/// Records with the same text carry the same fingerprint.
pub proof fn lemma_same_text_same_signature(a: StringRecord, b: StringRecord)
    requires
        a.is_valid(),
        b.is_valid(),
        a.original_string@ == b.original_string@,
    ensures
        a.signature@ == b.signature@,
        a.signature == b.signature,
{
    assert(a.signature@ =~= b.signature@);
    vstd::array::axiom_array_ext_equal(a.signature, b.signature);
}

} // verus!
