//! An intent-based asset-swap settlement core: a user escrows input funds and
//! names a minimum acceptable output; solvers compete through a reverse
//! (Dutch) auction whose quote decays from a premium toward the user's floor;
//! the first solver to claim posts a bond and gains an exclusive right to fill
//! at the claimed price; fill performs the multi-leg exchange all-or-nothing,
//! releases the bond and deactivates the intent.
//!
//! Every operation takes the host-sampled time and the balances of the
//! accounts it touches as plain values, decides, and either commits every
//! effect or returns an error having changed nothing.

use vstd::prelude::*;

pub mod auction_account;
pub mod claim_auction;
pub mod create_auction;
pub mod create_intent;
pub mod errors;
pub mod fill_intent;
pub mod intent;

use crate::auction_account::AuctionStatus;
use crate::claim_auction::{claim_after, claim_err, claim_ok, price_at, AuctionClaimed, ClaimAuction};
use crate::create_auction::{
    create_auction_after, create_auction_err, create_auction_ok, CreateAuction,
    AUCTION_DURATION_SECS, EXCLUSIVE_WINDOW_SECS,
};
use crate::create_intent::{
    create_intent_after, create_intent_err, create_intent_ok, CreateIntent, CreateIntentArgs,
};
use crate::errors::ErrorCode;
use crate::fill_intent::{fill_after, fill_err, fill_ok, FillIntent, OrderConfig};

verus! {

/// Entry point: opens an intent for `user_id`, escrowing the input funds.
pub fn create_intent(ctx: &mut CreateIntent, args: CreateIntentArgs, user_id: u64) -> (r: Result<(), ErrorCode>)
    ensures
        r is Ok <==> create_intent_ok(*old(ctx), args),
        r is Err ==> *final(ctx) == *old(ctx)
            && r == Err::<(), ErrorCode>(create_intent_err(*old(ctx), args)),
        r is Ok ==> *final(ctx) == create_intent_after(*old(ctx), args, user_id),
{
    create_intent::create_intent_handler(ctx, args, user_id)
}

/// Entry point: derives and opens the Dutch auction for an intent, with
/// `now` sampled once by the host at operation entry.
pub fn create_auction(ctx: &mut CreateAuction, now: i64) -> (r: Result<(), ErrorCode>)
    requires
        0 <= now,
        now + AUCTION_DURATION_SECS + EXCLUSIVE_WINDOW_SECS <= i64::MAX,
    ensures
        r is Ok <==> create_auction_ok(*old(ctx)),
        r is Err ==> *final(ctx) == *old(ctx)
            && r == Err::<(), ErrorCode>(create_auction_err(*old(ctx))),
        r is Ok ==> *final(ctx) == create_auction_after(*old(ctx), now),
{
    create_auction::create_auction_handler(ctx, now)
}

/// Entry point: settles an awarded auction's intent, all legs at once, with
/// `now` sampled once by the host at operation entry.
pub fn fill_intent(ctx: &mut FillIntent, order: OrderConfig, now: i64) -> (r: Result<(), ErrorCode>)
    requires
        old(ctx).auction.wf(),
    ensures
        r is Ok <==> fill_ok(*old(ctx), order, now),
        r is Err ==> *final(ctx) == *old(ctx)
            && r == Err::<(), ErrorCode>(fill_err(*old(ctx), order, now)),
        r is Ok ==> *final(ctx) == fill_after(*old(ctx), order, now),
{
    fill_intent::fill_intent_handler(ctx, order, now)
}

/// Entry point: claims an auction for the calling solver, with `now`
/// sampled once by the host at operation entry.
pub fn claim_auction(ctx: &mut ClaimAuction, now: i64) -> (r: Result<AuctionClaimed, ErrorCode>)
    requires
        old(ctx).auction.wf(),
    ensures
        r is Ok <==> claim_ok(*old(ctx), now),
        r is Err ==> *final(ctx) == *old(ctx)
            && r == Err::<AuctionClaimed, ErrorCode>(claim_err(*old(ctx), now)),
        r is Ok ==> *final(ctx) == claim_after(*old(ctx), now),
        r is Ok ==> final(ctx).auction.claim_price == Some(price_at(old(ctx).auction, now as int) as u64)
            && final(ctx).auction.status == AuctionStatus::Awarded,
{
    claim_auction::handler(ctx, now)
}

} // verus!
