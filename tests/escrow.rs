use anchor_escrow::address::{derive_escrow_address, u64_le_bytes};
use anchor_escrow::escrow::{make, refund, take, EscrowError};
use anchor_escrow::key::Key;
use anchor_escrow::ledger::Ledger;
use anchor_lang::prelude::Pubkey;

fn key(b: u8) -> Key {
    Key::new([b; 32])
}

fn program() -> Key {
    key(200)
}

fn maker() -> Key {
    key(1)
}

fn taker() -> Key {
    key(2)
}

fn mint_a() -> Key {
    key(10)
}

fn mint_b() -> Key {
    key(11)
}

fn funded() -> Ledger {
    let mut l = Ledger::new(program());
    l.set_balance(&maker(), &mint_a(), 1000);
    l.set_balance(&taker(), &mint_b(), 50);
    l
}

#[test]
fn open_locks_deposit_in_vault() {
    let mut l = funded();
    let addr = make(&mut l, &maker(), &mint_a(), &mint_b(), 3, 100, 50).unwrap();
    let vault = l.vault(&addr).unwrap();
    assert_eq!(vault.amount, 100);
    assert_eq!(vault.mint.bytes, mint_a().bytes);
    let rec = l.record(&addr).unwrap();
    assert_eq!(rec.amount_receive, 50);
    assert_eq!(rec.seed, 3);
    assert_eq!(rec.maker.bytes, maker().bytes);
    assert_eq!(rec.mint_receive.bytes, mint_b().bytes);
    assert_eq!(l.balance(&maker(), &mint_a()), 900);
}

#[test]
fn open_then_cancel_restores_maker_balance() {
    let mut l = funded();
    let before = l.balance(&maker(), &mint_a());
    let addr = make(&mut l, &maker(), &mint_a(), &mint_b(), 7, 100, 50).unwrap();
    assert_eq!(l.balance(&maker(), &mint_a()), before - 100);
    assert_eq!(refund(&mut l, &maker(), &addr), Ok(()));
    assert_eq!(l.balance(&maker(), &mint_a()), before);
    assert!(l.record(&addr).is_none());
    assert!(l.vault(&addr).is_none());
    assert_eq!(l.balance(&taker(), &mint_b()), 50);
}

#[test]
fn end_to_end_swap() {
    let mut l = funded();
    let addr = make(&mut l, &maker(), &mint_a(), &mint_b(), 1, 100, 50).unwrap();
    assert_eq!(take(&mut l, &taker(), &addr), Ok(()));
    assert_eq!(l.balance(&maker(), &mint_b()), 50);
    assert_eq!(l.balance(&taker(), &mint_a()), 100);
    assert_eq!(l.balance(&taker(), &mint_b()), 0);
    assert_eq!(l.balance(&maker(), &mint_a()), 900);
    assert!(l.record(&addr).is_none());
    assert!(l.vault(&addr).is_none());
}

#[test]
fn operations_after_cancel_find_nothing() {
    let mut l = funded();
    let addr = make(&mut l, &maker(), &mint_a(), &mint_b(), 4, 100, 50).unwrap();
    refund(&mut l, &maker(), &addr).unwrap();
    assert_eq!(refund(&mut l, &maker(), &addr), Err(EscrowError::NotFound));
    assert_eq!(take(&mut l, &taker(), &addr), Err(EscrowError::NotFound));
    assert_eq!(l.balance(&maker(), &mint_a()), 1000);
}

#[test]
fn operations_after_fulfil_find_nothing() {
    let mut l = funded();
    let addr = make(&mut l, &maker(), &mint_a(), &mint_b(), 5, 100, 50).unwrap();
    take(&mut l, &taker(), &addr).unwrap();
    assert_eq!(take(&mut l, &taker(), &addr), Err(EscrowError::NotFound));
    assert_eq!(refund(&mut l, &maker(), &addr), Err(EscrowError::NotFound));
    assert_eq!(l.balance(&taker(), &mint_a()), 100);
}

#[test]
fn cancel_by_other_is_unauthorized() {
    let mut l = funded();
    let addr = make(&mut l, &maker(), &mint_a(), &mint_b(), 6, 100, 50).unwrap();
    assert_eq!(refund(&mut l, &taker(), &addr), Err(EscrowError::Unauthorized));
    assert_eq!(l.vault(&addr).unwrap().amount, 100);
    assert_eq!(l.balance(&maker(), &mint_a()), 900);
    assert_eq!(l.balance(&taker(), &mint_a()), 0);
    assert!(l.record(&addr).is_some());
}

#[test]
fn fulfil_with_short_balance_is_refused() {
    let mut l = funded();
    let addr = make(&mut l, &maker(), &mint_a(), &mint_b(), 8, 100, 51).unwrap();
    assert_eq!(take(&mut l, &taker(), &addr), Err(EscrowError::InsufficientFunds));
    assert_eq!(l.balance(&taker(), &mint_b()), 50);
    assert_eq!(l.balance(&maker(), &mint_b()), 0);
    assert_eq!(l.vault(&addr).unwrap().amount, 100);
    assert!(l.record(&addr).is_some());
}

#[test]
fn seed_reuse_is_refused() {
    let mut l = funded();
    let first = make(&mut l, &maker(), &mint_a(), &mint_b(), 9, 100, 50).unwrap();
    assert_eq!(
        make(&mut l, &maker(), &mint_a(), &mint_b(), 9, 10, 5).map(|k| k.bytes),
        Err(EscrowError::AlreadyExists)
    );
    assert_eq!(l.balance(&maker(), &mint_a()), 900);
    let second = make(&mut l, &maker(), &mint_a(), &mint_b(), 10, 10, 5).unwrap();
    assert_ne!(first.bytes, second.bytes);
    refund(&mut l, &maker(), &first).unwrap();
    let again = make(&mut l, &maker(), &mint_a(), &mint_b(), 9, 10, 5).unwrap();
    assert_eq!(again.bytes, first.bytes);
}

#[test]
fn zero_amounts_are_invalid() {
    let mut l = funded();
    assert_eq!(
        make(&mut l, &maker(), &mint_a(), &mint_b(), 1, 0, 50).map(|k| k.bytes),
        Err(EscrowError::InvalidAmount)
    );
    assert_eq!(
        make(&mut l, &maker(), &mint_a(), &mint_b(), 1, 100, 0).map(|k| k.bytes),
        Err(EscrowError::InvalidAmount)
    );
    assert_eq!(l.balance(&maker(), &mint_a()), 1000);
}

#[test]
fn open_beyond_balance_is_refused() {
    let mut l = funded();
    assert_eq!(
        make(&mut l, &maker(), &mint_a(), &mint_b(), 1, 1001, 50).map(|k| k.bytes),
        Err(EscrowError::InsufficientFunds)
    );
    assert_eq!(l.balance(&maker(), &mint_a()), 1000);
    assert!(make(&mut l, &maker(), &mint_a(), &mint_b(), 1, 1000, 50).is_ok());
    assert_eq!(l.balance(&maker(), &mint_a()), 0);
}

#[test]
fn cancel_that_would_overflow_is_refused() {
    let mut l = funded();
    let addr = make(&mut l, &maker(), &mint_a(), &mint_b(), 2, 100, 50).unwrap();
    l.set_balance(&maker(), &mint_a(), u64::MAX - 99);
    assert_eq!(refund(&mut l, &maker(), &addr), Err(EscrowError::Overflow));
    assert_eq!(l.vault(&addr).unwrap().amount, 100);
    l.set_balance(&maker(), &mint_a(), u64::MAX - 100);
    assert_eq!(refund(&mut l, &maker(), &addr), Ok(()));
    assert_eq!(l.balance(&maker(), &mint_a()), u64::MAX);
}

#[test]
fn fulfil_that_would_overflow_is_refused() {
    let mut l = funded();
    let addr = make(&mut l, &maker(), &mint_a(), &mint_b(), 2, 100, 50).unwrap();
    l.set_balance(&maker(), &mint_b(), u64::MAX - 10);
    assert_eq!(take(&mut l, &taker(), &addr), Err(EscrowError::Overflow));
    l.set_balance(&maker(), &mint_b(), 0);
    l.set_balance(&taker(), &mint_a(), u64::MAX - 50);
    assert_eq!(take(&mut l, &taker(), &addr), Err(EscrowError::Overflow));
    assert_eq!(l.balance(&taker(), &mint_b()), 50);
    assert_eq!(l.balance(&maker(), &mint_b()), 0);
    assert_eq!(l.vault(&addr).unwrap().amount, 100);
}

#[test]
fn self_swap_of_one_asset_keeps_balance() {
    let mut l = funded();
    let addr = make(&mut l, &maker(), &mint_a(), &mint_a(), 11, 100, 100).unwrap();
    assert_eq!(l.balance(&maker(), &mint_a()), 900);
    assert_eq!(take(&mut l, &maker(), &addr), Ok(()));
    assert_eq!(l.balance(&maker(), &mint_a()), 1000);
    assert!(l.record(&addr).is_none());
}

#[test]
fn taker_pays_in_deposited_asset() {
    let mut l = funded();
    l.set_balance(&taker(), &mint_a(), 30);
    let addr = make(&mut l, &maker(), &mint_a(), &mint_a(), 12, 100, 30).unwrap();
    assert_eq!(take(&mut l, &taker(), &addr), Ok(()));
    assert_eq!(l.balance(&taker(), &mint_a()), 100);
    assert_eq!(l.balance(&maker(), &mint_a()), 930);
}

#[test]
fn little_endian_seed_bytes() {
    assert_eq!(u64_le_bytes(7), vec![7, 0, 0, 0, 0, 0, 0, 0]);
    assert_eq!(
        u64_le_bytes(0x0102_0304_0506_0708),
        vec![8, 7, 6, 5, 4, 3, 2, 1]
    );
    assert_eq!(u64_le_bytes(u64::MAX), vec![255; 8]);
}

#[test]
fn record_address_is_the_program_derived_address() {
    let (addr, bump) = derive_escrow_address(&program(), &maker(), 7).unwrap();
    let (expected, expected_bump) = Pubkey::find_program_address(
        &[b"escrow", &maker().bytes, &7u64.to_le_bytes()],
        &Pubkey::new_from_array(program().bytes),
    );
    assert_eq!(addr.bytes, expected.to_bytes());
    assert_eq!(bump, expected_bump);
    assert_ne!(addr.bytes, maker().bytes);
    assert_ne!(addr.bytes, program().bytes);
    let mut l = funded();
    let opened = make(&mut l, &maker(), &mint_a(), &mint_b(), 7, 100, 50).unwrap();
    assert_eq!(opened.bytes, expected.to_bytes());
    assert_eq!(l.record(&opened).unwrap().bump, expected_bump);
    assert_eq!(l.program_id().bytes, program().bytes);
}
