use vstd::arithmetic::div_mod::{lemma_div_is_ordered, lemma_div_multiples_vanish};
use vstd::prelude::*;

use crate::auction_account::{AuctionAccount, AuctionStatus};
use crate::errors::ErrorCode;
use crate::intent::Intent;

verus! {

/// How long the quote decays, in seconds.
pub const AUCTION_DURATION_SECS: i64 = 120;

/// How long past `end_time` the claimant keeps the exclusive fill right.
pub const EXCLUSIVE_WINDOW_SECS: i64 = 30;

/// Collateral every claiming solver posts, in the host's native units.
pub const BOND_AMOUNT: u64 = 1000000;

/// The opening quote: the user's floor plus a 10% premium, rounded down.
pub open spec fn premium_quote(min_receive: int) -> int {
    min_receive * 110 / 100
}

/// The premium quote never falls below the floor it is derived from.
pub proof fn lemma_premium_at_least_floor(min_receive: int)
    requires
        0 <= min_receive,
    ensures
        premium_quote(min_receive) >= min_receive,
{
    assert(min_receive * 110 >= min_receive * 100 >= 0) by (nonlinear_arith)
        requires 0 <= min_receive;
    lemma_div_is_ordered(min_receive * 100, min_receive * 110, 100);
    lemma_div_multiples_vanish(min_receive, 100);
}

/// The state an auction creation touches: the requesting user, the auction
/// record to initialize, and the intent it sells.
#[derive(Clone, Copy, Debug)]
pub struct CreateAuction {
    /// The user asking for the auction.
    pub user: u64,
    /// The auction record; initialized on success.
    pub auction: AuctionAccount,
    /// The intent the auction is derived from.
    pub intent: Intent,
}

/// Success condition: the intent is still open with positive amounts, and
/// the premium computation fits in 64 bits.
pub open spec fn create_auction_ok(ctx: CreateAuction) -> bool {
    &&& ctx.intent.active
    &&& ctx.intent.min_receive > 0
    &&& ctx.intent.input_amount > 0
    &&& ctx.intent.min_receive * 110 <= u64::MAX
}

/// The first check that fails, in the order the handler applies them.
pub open spec fn create_auction_err(ctx: CreateAuction) -> ErrorCode {
    if !ctx.intent.active {
        ErrorCode::IntentInactive
    } else if ctx.intent.min_receive == 0 {
        ErrorCode::InvalidMinReceive
    } else if ctx.intent.input_amount == 0 {
        ErrorCode::InvalidInputAmount
    } else {
        ErrorCode::MathOverflow
    }
}

/// The schedule a successful creation writes: floor at the intent's
/// `min_receive`, opening quote a 10% premium over it, a fixed-length decay
/// window opening now, the fixed exclusive window and bond, and no claim.
pub open spec fn create_auction_after(ctx: CreateAuction, now: i64) -> CreateAuction {
    CreateAuction {
        auction: (AuctionAccount {
            intent: ctx.intent.id,
            start_quote: premium_quote(ctx.intent.min_receive as int) as u64,
            min_quote: ctx.intent.min_receive,
            start_time: now,
            end_time: (now + AUCTION_DURATION_SECS) as i64,
            exclusive_window_secs: EXCLUSIVE_WINDOW_SECS,
            bond_amount: BOND_AMOUNT,
            claimed_by: None,
            claim_price: None,
            claim_expiry: None,
            status: AuctionStatus::Started,
        }),
        ..ctx
    }
}

/// Derives and opens the Dutch auction for an intent. The host guarantees
/// one auction per intent (the record's slot is keyed by the intent id) and
/// samples `now` once; the bounds on `now` keep the schedule inside the
/// clock's domain. All-or-nothing: on any error nothing changes.
pub fn create_auction_handler(ctx: &mut CreateAuction, now: i64) -> (r: Result<(), ErrorCode>)
    requires
        0 <= now,
        now + AUCTION_DURATION_SECS + EXCLUSIVE_WINDOW_SECS <= i64::MAX,
    ensures
        r is Ok <==> create_auction_ok(*old(ctx)),
        r is Err ==> *final(ctx) == *old(ctx) && r == Err::<(), ErrorCode>(create_auction_err(*old(ctx))),
        r is Ok ==> *final(ctx) == create_auction_after(*old(ctx), now),
        r is Ok ==> final(ctx).auction.wf() && final(ctx).auction.status == AuctionStatus::Started,
        final(ctx).intent == old(ctx).intent,
{
    if !ctx.intent.active {
        return Err(ErrorCode::IntentInactive);
    }
    if ctx.intent.min_receive == 0 {
        return Err(ErrorCode::InvalidMinReceive);
    }
    if ctx.intent.input_amount == 0 {
        return Err(ErrorCode::InvalidInputAmount);
    }
    let raised = match ctx.intent.min_receive.checked_mul(110) {
        Some(v) => v,
        None => {
            return Err(ErrorCode::MathOverflow);
        },
    };
    let start_quote = raised / 100;

    proof {
        lemma_premium_at_least_floor(ctx.intent.min_receive as int);
    }
    ctx.auction = AuctionAccount {
        intent: ctx.intent.id,
        start_quote,
        min_quote: ctx.intent.min_receive,
        start_time: now,
        end_time: now + AUCTION_DURATION_SECS,
        exclusive_window_secs: EXCLUSIVE_WINDOW_SECS,
        bond_amount: BOND_AMOUNT,
        claimed_by: None,
        claim_price: None,
        claim_expiry: None,
        status: AuctionStatus::Started,
    };

    Ok(())
}

} // verus!
