use anchor_lang::prelude::ProgramError;
use anchor_lang::prelude::Pubkey;
use anchor_lang::prelude::Rent;
use record_store::fingerprint::md5_hash;
use record_store::record::ErrorCode;
use record_store::record::QueryString;
use record_store::record::StoreError;
use record_store::record::StoreResult;
use record_store::record::StoreString;
use record_store::record::StringRecord;
use record_store::record::MAX_TEXT_LEN;
use record_store::store::commit_record;
use record_store::store::reserve_for;
use record_store::store::store_string;
use record_store::store::store_under;
use record_store::store::total_cost;
use record_store::store::validate_input;
use record_store::store::validate_request;
use record_store::store::TRANSACTION_FEE;

fn slot_address() -> Pubkey {
    Pubkey::new_from_array([7u8; 32])
}

fn payer() -> Pubkey {
    Pubkey::new_from_array([9u8; 32])
}

fn hello_record() -> StringRecord {
    StringRecord {
        original_string: String::from("hello"),
        signature: md5_hash(b"hello"),
        timestamp: 1_700_000_000,
        owner: payer(),
        cost_lamports: 2_816_840,
    }
}

#[test]
fn capacity_is_the_sum_of_the_layout() {
    assert_eq!(StringRecord::LEN, 8 + 4 + 200 + 16 + 8 + 32 + 8);
    assert_eq!(StringRecord::LEN, 276);
    assert_eq!(MAX_TEXT_LEN, 200);
    assert_eq!(TRANSACTION_FEE, 5000);
}

#[test]
fn record_size_counts_the_text() {
    let rec = hello_record();
    assert_eq!(rec.size(), 76 + 5);
    let mut longest = hello_record();
    longest.original_string = "x".repeat(200);
    longest.signature = md5_hash(longest.original_string.as_bytes());
    assert_eq!(longest.size(), StringRecord::LEN);
}

#[test]
fn empty_text_is_rejected() {
    assert_eq!(validate_input(""), Err(ErrorCode::EmptyString));
}

#[test]
fn two_hundred_bytes_pass() {
    let text = "x".repeat(200);
    assert_eq!(validate_input(&text), Ok(()));
}

#[test]
fn two_hundred_and_one_bytes_fail() {
    let text = "x".repeat(201);
    assert_eq!(validate_input(&text), Err(ErrorCode::StringTooLong));
}

#[test]
fn length_is_counted_in_bytes() {
    // 67 characters of three bytes each: 201 bytes.
    let text = "你".repeat(67);
    assert_eq!(text.chars().count(), 67);
    assert_eq!(validate_input(&text), Err(ErrorCode::StringTooLong));
    let text = "你".repeat(66);
    assert_eq!(validate_input(&text), Ok(()));
}

#[test]
fn one_byte_passes() {
    assert_eq!(validate_input("a"), Ok(()));
}

#[test]
fn text_faults_come_before_occupancy() {
    let mut ctx = StoreString::new(slot_address(), payer());
    ctx.record = Some(hello_record());
    assert_eq!(validate_request(&ctx, ""), Err(ErrorCode::EmptyString));
    assert_eq!(validate_request(&ctx, &"x".repeat(201)), Err(ErrorCode::StringTooLong));
    assert_eq!(validate_request(&ctx, "hello"), Err(ErrorCode::AlreadyExists));
    let free = StoreString::new(slot_address(), payer());
    assert_eq!(validate_request(&free, "hello"), Ok(()));
}

#[test]
fn messages_belong_to_their_codes() {
    assert_eq!(ErrorCode::AlreadyExists.message(), "该字符串已经上链，不能重复提交");
    assert_eq!(ErrorCode::EmptyString.message(), "字符串不能为空");
    assert_eq!(ErrorCode::StringTooLong.message(), "字符串长度超过限制");
}

#[test]
fn cost_is_reserve_plus_fee() {
    assert_eq!(total_cost(0), Some(5000));
    assert_eq!(total_cost(2_811_840), Some(2_816_840));
    assert_eq!(total_cost(u64::MAX - 5000), Some(u64::MAX));
    assert_eq!(total_cost(u64::MAX - 4999), None);
    assert_eq!(total_cost(u64::MAX), None);
}

#[test]
fn new_context_is_unoccupied() {
    let ctx = StoreString::new(slot_address(), payer());
    assert_eq!(ctx.record, None);
    assert_eq!(ctx.record_address, slot_address());
    assert_eq!(ctx.payer, payer());
}

#[test]
fn commit_then_commit_again() {
    let mut ctx = StoreString::new(slot_address(), payer());
    let first = commit_record(&mut ctx, String::from("hello"), 1_700_000_000, 2_811_840);
    assert_eq!(
        first,
        Ok(StoreResult {
            signature: md5_hash(b"hello"),
            record_address: slot_address(),
            cost_lamports: 2_811_840 + TRANSACTION_FEE,
        })
    );
    assert_eq!(ctx.record, Some(hello_record()));
    assert_eq!(ctx.record_address, slot_address());
    assert_eq!(ctx.payer, payer());

    let second = commit_record(&mut ctx, String::from("hello"), 1_700_000_001, 2_811_840);
    assert_eq!(second, Err(StoreError::Rejected(ErrorCode::AlreadyExists)));
    assert_eq!(ctx.record, Some(hello_record()));
}

#[test]
fn occupied_slot_is_never_overwritten() {
    let mut ctx = StoreString::new(slot_address(), payer());
    ctx.record = Some(hello_record());
    let res = commit_record(&mut ctx, String::from("other text"), 5, 10);
    assert_eq!(res, Err(StoreError::Rejected(ErrorCode::AlreadyExists)));
    assert_eq!(ctx.record, Some(hello_record()));
    let res = store_string(&mut ctx, String::from("other text"));
    assert_eq!(res, Err(StoreError::Rejected(ErrorCode::AlreadyExists)));
    assert_eq!(ctx.record, Some(hello_record()));
}

#[test]
fn commit_rejects_faulty_text() {
    let mut ctx = StoreString::new(slot_address(), payer());
    assert_eq!(
        commit_record(&mut ctx, String::new(), 1, 1),
        Err(StoreError::Rejected(ErrorCode::EmptyString))
    );
    assert_eq!(ctx.record, None);
    assert_eq!(
        commit_record(&mut ctx, "x".repeat(201), 1, 1),
        Err(StoreError::Rejected(ErrorCode::StringTooLong))
    );
    assert_eq!(ctx.record, None);
}

#[test]
fn commit_of_the_longest_text() {
    let mut ctx = StoreString::new(slot_address(), payer());
    let text = "x".repeat(200);
    let out = commit_record(&mut ctx, text.clone(), -3, 0).unwrap();
    assert_eq!(out.signature, md5_hash(text.as_bytes()));
    assert_eq!(out.cost_lamports, 5000);
    let rec = ctx.record.unwrap();
    assert_eq!(rec.original_string, text);
    assert_eq!(rec.timestamp, -3);
    assert_eq!(rec.owner, payer());
    assert_eq!(rec.cost_lamports, 5000);
    assert_eq!(rec.signature, out.signature);
}

#[test]
fn cost_that_does_not_fit_leaves_the_slot_empty() {
    let mut ctx = StoreString::new(slot_address(), payer());
    let res = commit_record(&mut ctx, String::from("hello"), 1, u64::MAX - 4999);
    assert_eq!(res, Err(StoreError::CostOverflow));
    assert_eq!(ctx.record, None);
    let res = commit_record(&mut ctx, String::from("hello"), 1, u64::MAX - 5000);
    assert_eq!(res.unwrap().cost_lamports, u64::MAX);
}

#[test]
fn same_text_same_fingerprint_in_different_slots() {
    let mut a = StoreString::new(Pubkey::new_from_array([1u8; 32]), payer());
    let mut b = StoreString::new(Pubkey::new_from_array([2u8; 32]), payer());
    let ra = commit_record(&mut a, String::from("twice"), 10, 100).unwrap();
    let rb = commit_record(&mut b, String::from("twice"), 20, 200).unwrap();
    assert_eq!(ra.signature, rb.signature);
    assert_ne!(ra.record_address, rb.record_address);
    assert_eq!(a.record.unwrap().signature, b.record.unwrap().signature);
}

#[test]
fn default_rent_prices_the_capacity() {
    let rent = Rent::default();
    assert_eq!(reserve_for(&rent, StringRecord::LEN), Ok(2_811_840));
    assert_eq!(reserve_for(&rent, 0), Ok(128 * 3480 * 2));
    assert_ne!(reserve_for(&rent, StringRecord::LEN), Ok(276));
}

#[test]
#[allow(deprecated)]
fn rate_beyond_sixty_four_bits_is_refused() {
    let mut rent = Rent::default();
    rent.lamports_per_byte_year = u64::MAX / 404 + 1;
    assert_eq!(reserve_for(&rent, StringRecord::LEN), Err(StoreError::CostOverflow));
    rent.lamports_per_byte_year = 0;
    assert_eq!(reserve_for(&rent, StringRecord::LEN), Ok(0));
}

#[test]
fn store_then_store_again_in_the_same_slot() {
    let rent = Rent::default();
    let mut ctx = StoreString::new(slot_address(), payer());
    let first = store_under(&mut ctx, String::from("hello"), 1_700_000_000, &rent);
    assert_eq!(
        first,
        Ok(StoreResult {
            signature: md5_hash(b"hello"),
            record_address: slot_address(),
            cost_lamports: rent.minimum_balance(StringRecord::LEN) + TRANSACTION_FEE,
        })
    );
    assert_eq!(first.unwrap().cost_lamports, 2_816_840);
    assert_eq!(ctx.record, Some(hello_record()));

    let second = store_under(&mut ctx, String::from("hello"), 1_700_000_005, &rent);
    assert_eq!(second, Err(StoreError::Rejected(ErrorCode::AlreadyExists)));
    assert_eq!(ctx.record, Some(hello_record()));
}

#[test]
#[allow(deprecated)]
fn unpriceable_rent_commits_nothing() {
    let mut rent = Rent::default();
    rent.lamports_per_byte_year = u64::MAX;
    let mut ctx = StoreString::new(slot_address(), payer());
    let res = store_under(&mut ctx, String::from("hello"), 1, &rent);
    assert_eq!(res, Err(StoreError::CostOverflow));
    assert_eq!(ctx.record, None);
}

#[test]
fn store_under_checks_the_request_first() {
    let rent = Rent::default();
    let mut ctx = StoreString::new(slot_address(), payer());
    assert_eq!(
        store_under(&mut ctx, String::new(), 1, &rent),
        Err(StoreError::Rejected(ErrorCode::EmptyString))
    );
    assert_eq!(
        store_under(&mut ctx, "x".repeat(201), 1, &rent),
        Err(StoreError::Rejected(ErrorCode::StringTooLong))
    );
    assert_eq!(ctx.record, None);
}

#[test]
fn runtime_failure_commits_nothing() {
    let mut ctx = StoreString::new(slot_address(), payer());
    let res = store_string(&mut ctx, String::from("hello"));
    assert_eq!(res, Err(StoreError::Substrate(ProgramError::UnsupportedSysvar)));
    assert_eq!(ctx.record, None);
    assert_eq!(ctx.record_address, slot_address());
    assert_eq!(ctx.payer, payer());
}

#[test]
fn store_checks_the_text_before_the_runtime() {
    let mut ctx = StoreString::new(slot_address(), payer());
    assert_eq!(
        store_string(&mut ctx, String::new()),
        Err(StoreError::Rejected(ErrorCode::EmptyString))
    );
    assert_eq!(
        store_string(&mut ctx, "x".repeat(201)),
        Err(StoreError::Rejected(ErrorCode::StringTooLong))
    );
    assert_eq!(ctx.record, None);
}

#[test]
fn query_reports_occupancy() {
    assert!(!QueryString { record: None }.is_stored());
    assert!(QueryString { record: Some(hello_record()) }.is_stored());
}
