use anchor_lang::prelude::Pubkey;
use mugs_marketplace::{ErrorCode, Wallet};

fn wallet(lamports: u64) -> Wallet {
    Wallet { key: Pubkey::new_from_array([5; 32]), lamports }
}

#[test]
fn debit_takes_the_amount() {
    let mut w = wallet(100);
    assert_eq!(w.debit(30), Ok(()));
    assert_eq!(w, wallet(70));
    assert_eq!(w.debit(70), Ok(()));
    assert_eq!(w, wallet(0));
    assert_eq!(w.debit(0), Ok(()));
    assert_eq!(w, wallet(0));
}

#[test]
fn debit_beyond_the_balance_is_refused() {
    let mut w = wallet(100);
    assert_eq!(w.debit(101), Err(ErrorCode::InsufficientFunds));
    assert_eq!(w, wallet(100));
}

#[test]
fn credit_adds_the_amount() {
    let mut w = wallet(100);
    assert_eq!(w.credit(30), Ok(()));
    assert_eq!(w, wallet(130));
    assert_eq!(w.credit(u64::MAX - 130), Ok(()));
    assert_eq!(w, wallet(u64::MAX));
}

#[test]
fn credit_beyond_the_largest_balance_is_refused() {
    let mut w = wallet(u64::MAX - 5);
    assert_eq!(w.credit(6), Err(ErrorCode::Overflow));
    assert_eq!(w, wallet(u64::MAX - 5));
}
