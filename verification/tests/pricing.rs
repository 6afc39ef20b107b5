use stealth_swap::auction_account::{AuctionAccount, AuctionStatus};
use stealth_swap::claim_auction::current_price;

fn schedule() -> AuctionAccount {
    AuctionAccount {
        intent: 7,
        start_quote: 110,
        min_quote: 100,
        start_time: 0,
        end_time: 120,
        exclusive_window_secs: 30,
        bond_amount: 1000000,
        claimed_by: None,
        claim_price: None,
        claim_expiry: None,
        status: AuctionStatus::Started,
    }
}

#[test]
fn price_at_start_is_start_quote() {
    let a = schedule();
    assert_eq!(current_price(&a, a.start_time), a.start_quote);
}

#[test]
fn price_at_end_is_min_quote() {
    let a = schedule();
    assert_eq!(current_price(&a, a.end_time), a.min_quote);
}

#[test]
fn price_before_start_is_start_quote() {
    let a = schedule();
    assert_eq!(current_price(&a, -50), 110);
}

#[test]
fn price_after_end_is_min_quote() {
    let a = schedule();
    assert_eq!(current_price(&a, 10_000), 100);
}

#[test]
fn price_decays_by_floor_of_linear_ramp() {
    let a = schedule();
    // decay at t = 60 is floor(10 * 60 / 120) = 5
    assert_eq!(current_price(&a, 60), 105);
    // decay at t = 30 is floor(10 * 30 / 120) = 2
    assert_eq!(current_price(&a, 30), 108);
    // decay at t = 119 is floor(10 * 119 / 120) = 9
    assert_eq!(current_price(&a, 119), 101);
}

#[test]
fn price_never_increases_over_time() {
    let a = schedule();
    let mut last = current_price(&a, -10);
    for t in -9..200 {
        let p = current_price(&a, t);
        assert!(p <= last, "price rose from {last} to {p} at t={t}");
        assert!(a.min_quote <= p && p <= a.start_quote);
        last = p;
    }
}

#[test]
fn flat_schedule_stays_at_floor() {
    let mut a = schedule();
    a.start_quote = 100;
    for t in [0, 1, 60, 119, 120] {
        assert_eq!(current_price(&a, t), 100);
    }
}

#[test]
fn wide_amounts_do_not_overflow_the_decay() {
    let mut a = schedule();
    a.start_quote = u64::MAX;
    a.min_quote = 0;
    assert_eq!(current_price(&a, 60), u64::MAX - u64::MAX / 2);
    assert_eq!(current_price(&a, 120), 0);
}
