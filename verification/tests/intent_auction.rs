use stealth_swap::auction_account::{AuctionAccount, AuctionStatus};
use stealth_swap::create_auction::{create_auction_handler, CreateAuction, BOND_AMOUNT};
use stealth_swap::create_intent::{create_intent_handler, CreateIntent, CreateIntentArgs};
use stealth_swap::errors::ErrorCode;
use stealth_swap::intent::Intent;

fn intent_record() -> Intent {
    Intent {
        id: 7,
        user: 1,
        input_token: 10,
        output_token: 20,
        input_amount: 50,
        min_receive: 100,
        active: true,
    }
}

fn blank_auction() -> AuctionAccount {
    AuctionAccount {
        intent: 0,
        start_quote: 0,
        min_quote: 0,
        start_time: 0,
        end_time: 1,
        exclusive_window_secs: 0,
        bond_amount: 0,
        claimed_by: None,
        claim_price: None,
        claim_expiry: None,
        status: AuctionStatus::Cancelled,
    }
}

fn create_ctx() -> CreateIntent {
    CreateIntent {
        user: 1,
        intent: Intent {
            id: 0,
            user: 0,
            input_token: 0,
            output_token: 0,
            input_amount: 1,
            min_receive: 1,
            active: false,
        },
        user_token_account: 80,
        user_input_escrow: 0,
    }
}

fn args() -> CreateIntentArgs {
    CreateIntentArgs {
        input_token: 10,
        output_token: 20,
        input_amount: 50,
        min_receive: 100,
    }
}

#[test]
fn create_intent_escrows_the_deposit() {
    let mut ctx = create_ctx();
    let r = create_intent_handler(&mut ctx, args(), 7);
    assert_eq!(r, Ok(()));
    assert_eq!(ctx.user_token_account, 30);
    assert_eq!(ctx.user_input_escrow, 50);
    assert!(ctx.intent.active);
    assert_eq!(ctx.intent.id, 7);
    assert_eq!(ctx.intent.user, 1);
    assert_eq!(ctx.intent.input_token, 10);
    assert_eq!(ctx.intent.output_token, 20);
    assert_eq!(ctx.intent.input_amount, 50);
    assert_eq!(ctx.intent.min_receive, 100);
}

#[test]
fn create_intent_rejects_zero_input_amount() {
    let mut ctx = create_ctx();
    let mut a = args();
    a.input_amount = 0;
    assert_eq!(create_intent_handler(&mut ctx, a, 7), Err(ErrorCode::InvalidInputAmount));
    assert_eq!(ctx.user_token_account, 80);
    assert_eq!(ctx.user_input_escrow, 0);
}

#[test]
fn create_intent_rejects_zero_min_receive() {
    let mut ctx = create_ctx();
    let mut a = args();
    a.min_receive = 0;
    assert_eq!(create_intent_handler(&mut ctx, a, 7), Err(ErrorCode::InvalidMinReceive));
}

#[test]
fn create_intent_rejects_an_uncovered_deposit() {
    let mut ctx = create_ctx();
    ctx.user_token_account = 49;
    assert_eq!(create_intent_handler(&mut ctx, args(), 7), Err(ErrorCode::InsufficientBalance));
    assert_eq!(ctx.user_token_account, 49);
}

#[test]
fn create_intent_fails_closed_on_escrow_overflow() {
    let mut ctx = create_ctx();
    ctx.user_input_escrow = u64::MAX;
    assert_eq!(create_intent_handler(&mut ctx, args(), 7), Err(ErrorCode::MathOverflow));
    assert_eq!(ctx.user_input_escrow, u64::MAX);
}

#[test]
fn create_auction_derives_the_schedule() {
    let mut ctx = CreateAuction { user: 1, auction: blank_auction(), intent: intent_record() };
    let r = create_auction_handler(&mut ctx, 1000);
    assert_eq!(r, Ok(()));
    let a = ctx.auction;
    assert_eq!(a.intent, 7);
    // start quote is floor(100 * 110 / 100): a 10% premium over the floor
    assert_eq!(a.start_quote, 110);
    assert_eq!(a.min_quote, 100);
    assert_eq!(a.start_time, 1000);
    assert_eq!(a.end_time, 1120);
    assert_eq!(a.exclusive_window_secs, 30);
    assert_eq!(a.bond_amount, BOND_AMOUNT);
    assert_eq!(a.claimed_by, None);
    assert_eq!(a.claim_price, None);
    assert_eq!(a.claim_expiry, None);
    assert!(a.status == AuctionStatus::Started);
}

#[test]
fn create_auction_rounds_the_premium_down() {
    let mut intent = intent_record();
    intent.min_receive = 13;
    let mut ctx = CreateAuction { user: 1, auction: blank_auction(), intent };
    assert_eq!(create_auction_handler(&mut ctx, 0), Ok(()));
    // floor(13 * 110 / 100) = 14
    assert_eq!(ctx.auction.start_quote, 14);
}

#[test]
fn create_auction_rejects_an_inactive_intent() {
    let mut intent = intent_record();
    intent.active = false;
    let mut ctx = CreateAuction { user: 1, auction: blank_auction(), intent };
    assert_eq!(create_auction_handler(&mut ctx, 0), Err(ErrorCode::IntentInactive));
}

#[test]
fn create_auction_rejects_zero_min_receive_before_writing() {
    let mut intent = intent_record();
    intent.min_receive = 0;
    let mut ctx = CreateAuction { user: 1, auction: blank_auction(), intent };
    assert_eq!(create_auction_handler(&mut ctx, 0), Err(ErrorCode::InvalidMinReceive));
    // no auction record was touched
    assert_eq!(ctx.auction.start_quote, 0);
    assert!(ctx.auction.status == AuctionStatus::Cancelled);
}

#[test]
fn create_auction_rejects_zero_input_amount_before_writing() {
    let mut intent = intent_record();
    intent.input_amount = 0;
    let mut ctx = CreateAuction { user: 1, auction: blank_auction(), intent };
    assert_eq!(create_auction_handler(&mut ctx, 0), Err(ErrorCode::InvalidInputAmount));
    assert_eq!(ctx.auction.start_quote, 0);
}

#[test]
fn create_auction_fails_closed_on_premium_overflow() {
    let mut intent = intent_record();
    intent.min_receive = u64::MAX / 110 + 1;
    let mut ctx = CreateAuction { user: 1, auction: blank_auction(), intent };
    assert_eq!(create_auction_handler(&mut ctx, 0), Err(ErrorCode::MathOverflow));
}
