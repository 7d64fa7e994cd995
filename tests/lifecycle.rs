use escrow::deal::Deal;
use escrow::error::ErrorCode;
use escrow::lifecycle::{check, close, create, deposit, withdraw, Terms};
use escrow::token::{transfer_checked, TokenAccount};

const PROGRAM: [u8; 32] = [7u8; 32];
const MAKER: [u8; 32] = [1u8; 32];
const TAKER: [u8; 32] = [2u8; 32];
const STRANGER: [u8; 32] = [3u8; 32];
const ASSET_X: [u8; 32] = [10u8; 32];
const ASSET_Y: [u8; 32] = [11u8; 32];
const RESERVE: u64 = 5_000;
const HOLDING_RESERVE: u64 = 2_000;

fn account(tag: u8, mint: [u8; 32], owner: [u8; 32], amount: u64) -> TokenAccount {
    TokenAccount { address: [tag; 32], mint, owner, amount, lamports: 0 }
}

fn terms() -> Terms {
    Terms {
        maker: MAKER,
        taker: TAKER,
        maker_amount: 100,
        taker_amount: 50,
        maker_asset: ASSET_X,
        taker_asset: ASSET_Y,
        reserve: RESERVE,
        holding_reserve: HOLDING_RESERVE,
    }
}

fn created_deal() -> (Option<Deal>, TokenAccount) {
    let mut slot = None;
    let mut maker_x = account(20, ASSET_X, MAKER, 1_000);
    assert_eq!(create(&PROGRAM, &mut slot, &terms(), &mut maker_x), Ok(()));
    (slot, maker_x)
}

fn fulfilled_deal() -> Deal {
    let (slot, _) = created_deal();
    let mut deal = slot.unwrap();
    let mut taker_y = account(21, ASSET_Y, TAKER, 50);
    assert_eq!(deposit(&PROGRAM, &mut deal, &TAKER, &mut taker_y), Ok(()));
    deal
}

#[test]
fn create_funds_maker_holding() {
    let (slot, maker_x) = created_deal();
    let deal = slot.unwrap();
    assert_eq!(deal.holding_a.amount, 100);
    assert_eq!(deal.holding_a.mint, ASSET_X);
    assert_eq!(deal.holding_b.amount, 0);
    assert_eq!(deal.holding_b.mint, ASSET_Y);
    assert_eq!(deal.holding_a.owner, deal.controller);
    assert_eq!(deal.holding_a.lamports, HOLDING_RESERVE);
    assert_eq!(deal.holding_b.lamports, HOLDING_RESERVE);
    assert_eq!(deal.controller_lamports, 0);
    assert_eq!(deal.reserve, RESERVE);
    assert_eq!(deal.maker_details.owed_amount, 100);
    assert_eq!(deal.taker_details.owed_amount, 50);
    assert_eq!(deal.details.maker, MAKER);
    assert_eq!(deal.details.taker, TAKER);
    assert!(!deal.details.fulfilled);
    assert_eq!(maker_x.amount, 900);
    assert_eq!(check(&PROGRAM, &deal), Ok(false));
    assert!(deal.custody_valid(&PROGRAM));
}

#[test]
fn deposit_fulfills_deal() {
    let (slot, _) = created_deal();
    let mut deal = slot.unwrap();
    let mut taker_y = account(21, ASSET_Y, TAKER, 80);
    assert_eq!(deposit(&PROGRAM, &mut deal, &TAKER, &mut taker_y), Ok(()));
    assert_eq!(taker_y.amount, 30);
    assert_eq!(deal.holding_b.amount, 50);
    assert!(deal.holding_a.amount >= deal.maker_details.owed_amount);
    assert!(deal.holding_b.amount >= deal.taker_details.owed_amount);
    assert!(deal.details.fulfilled);
    assert_eq!(check(&PROGRAM, &deal), Ok(true));
}

#[test]
fn maker_withdraws_taker_deposit() {
    let mut deal = fulfilled_deal();
    let mut maker_y = account(22, ASSET_Y, MAKER, 0);
    assert_eq!(withdraw(&PROGRAM, &mut deal, &MAKER, &mut maker_y), Ok(()));
    assert_eq!(maker_y.amount, 50);
    assert_eq!(deal.holding_b.amount, 0);
    assert_eq!(deal.holding_a.amount, 100);
}

#[test]
fn taker_withdraws_maker_deposit() {
    let mut deal = fulfilled_deal();
    let mut taker_x = account(23, ASSET_X, TAKER, 0);
    assert_eq!(withdraw(&PROGRAM, &mut deal, &TAKER, &mut taker_x), Ok(()));
    assert_eq!(taker_x.amount, 100);
    assert_eq!(deal.holding_a.amount, 0);
    assert_eq!(deal.holding_b.amount, 50);
}

#[test]
fn close_after_both_withdrawals() {
    let mut deal = fulfilled_deal();
    let mut maker_y = account(22, ASSET_Y, MAKER, 0);
    let mut taker_x = account(23, ASSET_X, TAKER, 0);
    assert_eq!(withdraw(&PROGRAM, &mut deal, &MAKER, &mut maker_y), Ok(()));
    assert_eq!(withdraw(&PROGRAM, &mut deal, &TAKER, &mut taker_x), Ok(()));
    let mut slot = Some(deal);
    let mut maker_lamports = 1_000u64;
    assert_eq!(close(&PROGRAM, &mut slot, &MAKER, &mut maker_lamports), Ok(RESERVE + 2 * HOLDING_RESERVE));
    assert!(slot.is_none());
    assert_eq!(maker_lamports, 1_000 + RESERVE + 2 * HOLDING_RESERVE);
}

#[test]
fn close_returns_controller_residue() {
    let (slot, _) = created_deal();
    let mut deal = slot.unwrap();
    deal.holding_a.amount = 0;
    deal.controller_lamports = 777;
    let mut slot = Some(deal);
    let mut maker_lamports = 0u64;
    assert_eq!(close(&PROGRAM, &mut slot, &MAKER, &mut maker_lamports), Ok(RESERVE + 2 * HOLDING_RESERVE + 777));
    assert_eq!(maker_lamports, RESERVE + 2 * HOLDING_RESERVE + 777);
    assert!(slot.is_none());
}

#[test]
fn close_refuses_refund_overflow() {
    let (slot, _) = created_deal();
    let mut deal = slot.unwrap();
    deal.holding_a.amount = 0;
    let mut slot = Some(deal);
    let mut maker_lamports = u64::MAX - RESERVE;
    assert_eq!(close(&PROGRAM, &mut slot, &MAKER, &mut maker_lamports), Err(ErrorCode::Overflow));
    assert_eq!(maker_lamports, u64::MAX - RESERVE);
    assert!(slot.is_some());
}

#[test]
fn close_with_funds_is_refused() {
    let (mut slot, _) = created_deal();
    let mut maker_lamports = 0u64;
    assert_eq!(close(&PROGRAM, &mut slot, &MAKER, &mut maker_lamports), Err(ErrorCode::AccountContainsFund));
    assert_eq!(maker_lamports, 0);
    let deal = slot.unwrap();
    assert_eq!(deal.holding_a.amount, 100);
    assert_eq!(check(&PROGRAM, &deal), Ok(false));
}

#[test]
fn second_withdrawal_moves_nothing() {
    let mut deal = fulfilled_deal();
    let mut maker_y = account(22, ASSET_Y, MAKER, 0);
    assert_eq!(withdraw(&PROGRAM, &mut deal, &MAKER, &mut maker_y), Ok(()));
    assert_eq!(withdraw(&PROGRAM, &mut deal, &MAKER, &mut maker_y), Ok(()));
    assert_eq!(maker_y.amount, 50);
    assert_eq!(deal.holding_b.amount, 0);
}

#[test]
fn create_refuses_existing_deal() {
    let (mut slot, _) = created_deal();
    let mut maker_x = account(20, ASSET_X, MAKER, 1_000);
    assert_eq!(create(&PROGRAM, &mut slot, &terms(), &mut maker_x), Err(ErrorCode::DealExists));
    assert_eq!(maker_x.amount, 1_000);
}

#[test]
fn create_refuses_same_parties() {
    let mut slot = None;
    let mut maker_x = account(20, ASSET_X, MAKER, 1_000);
    let t = Terms { taker: MAKER, ..terms() };
    assert_eq!(create(&PROGRAM, &mut slot, &t, &mut maker_x), Err(ErrorCode::InvalidUser));
    assert!(slot.is_none());
}

#[test]
fn create_refuses_short_balance() {
    let mut slot = None;
    let mut maker_x = account(20, ASSET_X, MAKER, 99);
    assert_eq!(create(&PROGRAM, &mut slot, &terms(), &mut maker_x), Err(ErrorCode::InsufficientBalance));
    assert!(slot.is_none());
    assert_eq!(maker_x.amount, 99);
}

#[test]
fn create_refuses_wrong_asset() {
    let mut slot = None;
    let mut maker_y = account(20, ASSET_Y, MAKER, 1_000);
    assert_eq!(create(&PROGRAM, &mut slot, &terms(), &mut maker_y), Err(ErrorCode::TypeMismatch));
    assert!(slot.is_none());
}

#[test]
fn create_refuses_foreign_source() {
    let mut slot = None;
    let mut other_x = account(20, ASSET_X, STRANGER, 1_000);
    assert_eq!(create(&PROGRAM, &mut slot, &terms(), &mut other_x), Err(ErrorCode::OwnerMismatch));
    assert!(slot.is_none());
}

#[test]
fn create_exact_balance() {
    let mut slot = None;
    let mut maker_x = account(20, ASSET_X, MAKER, 100);
    assert_eq!(create(&PROGRAM, &mut slot, &terms(), &mut maker_x), Ok(()));
    assert_eq!(maker_x.amount, 0);
    assert_eq!(slot.unwrap().holding_a.amount, 100);
}

#[test]
fn deposit_by_maker_is_refused() {
    let (slot, _) = created_deal();
    let mut deal = slot.unwrap();
    let mut maker_y = account(22, ASSET_Y, MAKER, 50);
    assert_eq!(deposit(&PROGRAM, &mut deal, &MAKER, &mut maker_y), Err(ErrorCode::InvalidUser));
    assert_eq!(maker_y.amount, 50);
    assert!(!deal.details.fulfilled);
}

#[test]
fn deposit_after_fulfilment_is_refused() {
    let mut deal = fulfilled_deal();
    let mut taker_y = account(21, ASSET_Y, TAKER, 50);
    assert_eq!(deposit(&PROGRAM, &mut deal, &TAKER, &mut taker_y), Err(ErrorCode::AlreadyFulfilled));
    assert_eq!(taker_y.amount, 50);
    assert_eq!(deal.holding_b.amount, 50);
}

#[test]
fn deposit_refuses_short_balance() {
    let (slot, _) = created_deal();
    let mut deal = slot.unwrap();
    let mut taker_y = account(21, ASSET_Y, TAKER, 49);
    assert_eq!(deposit(&PROGRAM, &mut deal, &TAKER, &mut taker_y), Err(ErrorCode::InsufficientBalance));
    assert_eq!(deal.holding_b.amount, 0);
    assert!(!deal.details.fulfilled);
}

#[test]
fn deposit_refuses_wrong_asset() {
    let (slot, _) = created_deal();
    let mut deal = slot.unwrap();
    let mut taker_x = account(21, ASSET_X, TAKER, 500);
    assert_eq!(deposit(&PROGRAM, &mut deal, &TAKER, &mut taker_x), Err(ErrorCode::TypeMismatch));
    assert_eq!(taker_x.amount, 500);
}

#[test]
fn deposit_refuses_tampered_proof() {
    let (slot, _) = created_deal();
    let mut deal = slot.unwrap();
    deal.taker_details.holding_proof = deal.taker_details.holding_proof.wrapping_sub(1);
    let mut taker_y = account(21, ASSET_Y, TAKER, 50);
    assert_eq!(deposit(&PROGRAM, &mut deal, &TAKER, &mut taker_y), Err(ErrorCode::InvalidDerivation));
    assert_eq!(taker_y.amount, 50);
}

#[test]
fn deposit_refuses_substituted_holding() {
    let (slot, _) = created_deal();
    let mut deal = slot.unwrap();
    deal.holding_b.address = [99u8; 32];
    let mut taker_y = account(21, ASSET_Y, TAKER, 50);
    assert_eq!(deposit(&PROGRAM, &mut deal, &TAKER, &mut taker_y), Err(ErrorCode::InvalidDerivation));
}

#[test]
fn withdraw_before_fulfilment_is_refused() {
    let (slot, _) = created_deal();
    let mut deal = slot.unwrap();
    let mut taker_x = account(23, ASSET_X, TAKER, 0);
    assert_eq!(withdraw(&PROGRAM, &mut deal, &TAKER, &mut taker_x), Err(ErrorCode::IncompleteDeal));
    assert_eq!(taker_x.amount, 0);
    assert_eq!(deal.holding_a.amount, 100);
    let mut stranger_x = account(24, ASSET_X, STRANGER, 0);
    assert_eq!(withdraw(&PROGRAM, &mut deal, &STRANGER, &mut stranger_x), Err(ErrorCode::IncompleteDeal));
}

#[test]
fn withdraw_by_stranger_is_refused() {
    let mut deal = fulfilled_deal();
    let mut stranger_x = account(24, ASSET_X, STRANGER, 0);
    assert_eq!(withdraw(&PROGRAM, &mut deal, &STRANGER, &mut stranger_x), Err(ErrorCode::InvalidUser));
    assert_eq!(stranger_x.amount, 0);
    assert_eq!(deal.holding_a.amount, 100);
    assert_eq!(deal.holding_b.amount, 50);
}

#[test]
fn withdraw_into_foreign_account_is_refused() {
    let mut deal = fulfilled_deal();
    let mut stranger_y = account(24, ASSET_Y, STRANGER, 0);
    assert_eq!(withdraw(&PROGRAM, &mut deal, &MAKER, &mut stranger_y), Err(ErrorCode::OwnerMismatch));
    assert_eq!(deal.holding_b.amount, 50);
}

#[test]
fn withdraw_into_wrong_asset_is_refused() {
    let mut deal = fulfilled_deal();
    let mut maker_x = account(22, ASSET_X, MAKER, 0);
    assert_eq!(withdraw(&PROGRAM, &mut deal, &MAKER, &mut maker_x), Err(ErrorCode::TypeMismatch));
    assert_eq!(deal.holding_b.amount, 50);
}

#[test]
fn withdraw_refuses_overflow() {
    let mut deal = fulfilled_deal();
    let mut maker_y = account(22, ASSET_Y, MAKER, u64::MAX - 10);
    assert_eq!(withdraw(&PROGRAM, &mut deal, &MAKER, &mut maker_y), Err(ErrorCode::Overflow));
    assert_eq!(maker_y.amount, u64::MAX - 10);
    assert_eq!(deal.holding_b.amount, 50);
}

#[test]
fn close_by_taker_is_refused() {
    let (slot, _) = created_deal();
    let mut deal = slot.unwrap();
    deal.holding_a.amount = 0;
    let mut slot = Some(deal);
    let mut taker_lamports = 0u64;
    assert_eq!(close(&PROGRAM, &mut slot, &TAKER, &mut taker_lamports), Err(ErrorCode::InvalidUser));
    assert_eq!(taker_lamports, 0);
    assert!(slot.is_some());
}

#[test]
fn close_without_deal_is_refused() {
    let mut slot: Option<Deal> = None;
    let mut maker_lamports = 0u64;
    assert_eq!(close(&PROGRAM, &mut slot, &MAKER, &mut maker_lamports), Err(ErrorCode::DealNotFound));
}

#[test]
fn close_before_any_deposit_taken_back() {
    let (slot, _) = created_deal();
    let mut deal = slot.unwrap();
    deal.holding_a.amount = 0;
    let mut slot = Some(deal);
    let mut maker_lamports = 0u64;
    assert_eq!(close(&PROGRAM, &mut slot, &MAKER, &mut maker_lamports), Ok(RESERVE + 2 * HOLDING_RESERVE));
    assert_eq!(maker_lamports, RESERVE + 2 * HOLDING_RESERVE);
    assert!(slot.is_none());
}

#[test]
fn check_refuses_tampered_record() {
    let (slot, _) = created_deal();
    let mut deal = slot.unwrap();
    deal.details.deal_proof = deal.details.deal_proof.wrapping_add(1);
    assert_eq!(check(&PROGRAM, &deal), Err(ErrorCode::InvalidDerivation));
}

#[test]
fn deal_under_other_program_is_refused() {
    let (slot, _) = created_deal();
    let deal = slot.unwrap();
    let other = [8u8; 32];
    assert_eq!(check(&other, &deal), Err(ErrorCode::InvalidDerivation));
    assert!(!deal.custody_valid(&other));
}

#[test]
fn transfer_moves_exact_amount() {
    let mut from = account(30, ASSET_X, MAKER, 70);
    let mut to = account(31, ASSET_X, TAKER, 5);
    assert_eq!(transfer_checked(&mut from, &mut to, &ASSET_X, 70, &MAKER), Ok(()));
    assert_eq!(from.amount, 0);
    assert_eq!(to.amount, 75);
}

#[test]
fn transfer_refuses_overflow() {
    let mut from = account(30, ASSET_X, MAKER, 70);
    let mut to = account(31, ASSET_X, TAKER, u64::MAX);
    assert_eq!(transfer_checked(&mut from, &mut to, &ASSET_X, 1, &MAKER), Err(ErrorCode::Overflow));
    assert_eq!(from.amount, 70);
    assert_eq!(to.amount, u64::MAX);
}

#[test]
fn transfer_refuses_destination_of_other_asset() {
    let mut from = account(30, ASSET_X, MAKER, 70);
    let mut to = account(31, ASSET_Y, TAKER, 0);
    assert_eq!(transfer_checked(&mut from, &mut to, &ASSET_X, 1, &MAKER), Err(ErrorCode::TypeMismatch));
}
