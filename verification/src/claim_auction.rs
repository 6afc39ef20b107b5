use vstd::arithmetic::div_mod::{lemma_div_is_ordered, lemma_div_pos_is_pos};
use vstd::arithmetic::mul::{lemma_mul_inequality, lemma_mul_upper_bound};
use vstd::prelude::*;

use crate::auction_account::{AuctionAccount, AuctionStatus};
use crate::errors::ErrorCode;
use crate::intent::Intent;

verus! {

/// The Dutch-auction quote at time `t`, as a mathematical function of the
/// schedule: `start_quote` up to `start_time`, `min_quote` from `end_time`
/// on, and in between `start_quote` less the decay accrued so far, where the
/// decay grows linearly from 0 to the full `start_quote - min_quote` range
/// (rounded down at each instant), never passing below `min_quote`.
pub open spec fn price_at(auction: AuctionAccount, t: int) -> int {
    if t <= auction.start_time {
        auction.start_quote as int
    } else if t >= auction.end_time {
        auction.min_quote as int
    } else {
        let decay = (auction.start_quote - auction.min_quote) * (t - auction.start_time)
            / (auction.end_time - auction.start_time);
        if auction.start_quote - decay < auction.min_quote {
            auction.min_quote as int
        } else {
            auction.start_quote - decay
        }
    }
}

/// The decay accrued strictly inside the window never exceeds the full
/// quote range, so the interior quote stays at or above the floor.
proof fn lemma_decay_bounds(range: int, elapsed: int, duration: int)
    requires
        0 <= range,
        0 < elapsed,
        elapsed < duration,
    ensures
        0 <= range * elapsed / duration,
        range * elapsed / duration <= range,
{
    lemma_div_pos_is_pos(range * elapsed, duration);
    lemma_mul_inequality(elapsed, duration, range);
    assert(range * elapsed == elapsed * range) by (nonlinear_arith);
    assert(range * duration == duration * range) by (nonlinear_arith);
    lemma_div_is_ordered(range * elapsed, range * duration, duration);
    assert(range * duration / duration == range) by (nonlinear_arith)
        requires 0 < duration;
}

/// The quote never leaves `[min_quote, start_quote]`.
pub proof fn lemma_price_in_range(auction: AuctionAccount, t: int)
    requires
        auction.wf(),
    ensures
        auction.min_quote <= price_at(auction, t) <= auction.start_quote,
{
    if auction.start_time < t < auction.end_time {
        lemma_decay_bounds(
            auction.start_quote - auction.min_quote,
            t - auction.start_time,
            auction.end_time - auction.start_time,
        );
    }
}

/// At the window's edges the quote equals the schedule's endpoints: the
/// opening quote at `start_time`, the floor at `end_time`.
pub proof fn lemma_price_boundaries(auction: AuctionAccount)
    requires
        auction.wf(),
    ensures
        price_at(auction, auction.start_time as int) == auction.start_quote,
        price_at(auction, auction.end_time as int) == auction.min_quote,
{
}

/// The quote is monotonically non-increasing in time: a later look at the
/// same auction never sees a higher price.
pub proof fn lemma_price_monotonic(auction: AuctionAccount, t1: int, t2: int)
    requires
        auction.wf(),
        t1 <= t2,
    ensures
        price_at(auction, t1) >= price_at(auction, t2),
{
    lemma_price_in_range(auction, t1);
    lemma_price_in_range(auction, t2);
    if auction.start_time < t1 && t2 < auction.end_time {
        let range = auction.start_quote - auction.min_quote;
        let duration = auction.end_time - auction.start_time;
        lemma_mul_inequality(t1 - auction.start_time, t2 - auction.start_time, range);
        assert(range * (t1 - auction.start_time) == (t1 - auction.start_time) * range)
            by (nonlinear_arith);
        assert(range * (t2 - auction.start_time) == (t2 - auction.start_time) * range)
            by (nonlinear_arith);
        lemma_div_is_ordered(
            range * (t1 - auction.start_time),
            range * (t2 - auction.start_time),
            duration,
        );
        lemma_decay_bounds(range, t1 - auction.start_time, duration);
        lemma_decay_bounds(range, t2 - auction.start_time, duration);
    }
}

/// The quote a solver claiming at `current_time` locks in. Matches
/// `price_at` exactly; the intermediate product is taken in a widened
/// domain so the decay computation cannot overflow.
pub fn current_price(auction: &AuctionAccount, current_time: i64) -> (price: u64)
    requires
        auction.wf(),
    ensures
        price == price_at(*auction, current_time as int),
        auction.min_quote <= price <= auction.start_quote,
{
    proof {
        lemma_price_in_range(*auction, current_time as int);
    }
    if current_time <= auction.start_time {
        return auction.start_quote;
    }

    if current_time >= auction.end_time {
        return auction.min_quote;
    }

    let elapsed = current_time - auction.start_time;
    let total_duration = auction.end_time - auction.start_time;
    let price_range = auction.start_quote - auction.min_quote;

    proof {
        lemma_decay_bounds(price_range as int, elapsed as int, total_duration as int);
        lemma_mul_upper_bound(price_range as int, u64::MAX as int, elapsed as int, i64::MAX as int);
    }
    let decay = (price_range as u128 * elapsed as u128) / total_duration as u128;
    let current = auction.start_quote - decay as u64;

    if current < auction.min_quote {
        auction.min_quote
    } else {
        current
    }
}

/// The state a claim touches: the claiming solver and its collateral
/// balance, the intent being sold, its auction, and the bond vault that
/// holds every posted bond. The host hands the balances in as plain values
/// and applies the committed result.
#[derive(Clone, Copy, Debug)]
pub struct ClaimAuction {
    /// The solver attempting the claim.
    pub solver: u64,
    /// The solver's collateral balance, in the host's native units.
    pub solver_lamports: u64,
    /// The intent the auction sells.
    pub intent: Intent,
    /// The auction being claimed.
    pub auction: AuctionAccount,
    /// Balance of the protocol's bond vault.
    pub bond_vault: u64,
}

/// Notification a successful claim emits.
#[derive(Clone, Copy, Debug)]
pub struct AuctionClaimed {
    /// Id of the intent being sold.
    pub intent: u64,
    /// Id of the intent whose auction was claimed (auctions are keyed 1:1
    /// by their intent, so this identifies the auction record).
    pub auction: u64,
    /// The solver now holding the exclusive fill right.
    pub solver: u64,
    /// The quote locked in at the moment of the claim.
    pub price_at_claim: u64,
    /// When the solver's exclusive right lapses.
    pub claim_expiry: i64,
}

/// Success condition: the intent is open, the auction is this intent's, no
/// solver has claimed it, it is in its window at `now`, and the solver can
/// post the bond without overflowing the vault. Under the auction invariant
/// the quote never falls below the floor, so the handler's defensive price
/// check cannot fail.
pub open spec fn claim_ok(ctx: ClaimAuction, now: i64) -> bool {
    &&& ctx.intent.active
    &&& ctx.auction.intent == ctx.intent.id
    &&& ctx.auction.claimed_by is None
    &&& ctx.auction.status == AuctionStatus::Started
    &&& ctx.auction.start_time <= now <= ctx.auction.end_time
    &&& ctx.solver_lamports >= ctx.auction.bond_amount
    &&& ctx.bond_vault + ctx.auction.bond_amount <= u64::MAX
}

/// The first check that fails, in the order the handler applies them.
/// A claim races only on `claimed_by`: the first claim to commit sets it,
/// and every later attempt fails here with `AuctionAlreadyClaimed` before
/// any state or time check can reinterpret the loss.
pub open spec fn claim_err(ctx: ClaimAuction, now: i64) -> ErrorCode {
    if !ctx.intent.active {
        ErrorCode::IntentInactive
    } else if ctx.auction.intent != ctx.intent.id {
        ErrorCode::IntentMismatch
    } else if ctx.auction.claimed_by is Some {
        ErrorCode::AuctionAlreadyClaimed
    } else if ctx.auction.status != AuctionStatus::Started {
        ErrorCode::AuctionNotStarted
    } else if now < ctx.auction.start_time {
        ErrorCode::AuctionNotStarted
    } else if now > ctx.auction.end_time {
        ErrorCode::AuctionExpired
    } else if ctx.solver_lamports < ctx.auction.bond_amount {
        ErrorCode::InsufficientBalance
    } else {
        ErrorCode::MathOverflow
    }
}

/// The state after a successful claim: the bond has moved from the solver
/// into the vault, and the auction records the solver, the quote observed
/// at `now`, the expiry of the exclusive right, and the `Awarded` status.
pub open spec fn claim_after(ctx: ClaimAuction, now: i64) -> ClaimAuction {
    ClaimAuction {
        solver_lamports: (ctx.solver_lamports - ctx.auction.bond_amount) as u64,
        bond_vault: (ctx.bond_vault + ctx.auction.bond_amount) as u64,
        auction: (AuctionAccount {
            claimed_by: Some(ctx.solver),
            claim_price: Some(price_at(ctx.auction, now as int) as u64),
            claim_expiry: Some((now + ctx.auction.exclusive_window_secs) as i64),
            status: AuctionStatus::Awarded,
            ..ctx.auction
        }),
        ..ctx
    }
}

/// Claims the auction for `ctx.solver` at the host-sampled time `now`:
/// locks in the current quote, posts the bond into the vault, and awards
/// the exclusive fill right. Exactly-once: the handler commits only from a
/// state with `claimed_by` empty, so under the host's single-writer
/// serialization the first claim to commit wins and every later attempt
/// fails with `AuctionAlreadyClaimed`. All-or-nothing: on any error nothing
/// changes.
pub fn handler(ctx: &mut ClaimAuction, now: i64) -> (r: Result<AuctionClaimed, ErrorCode>)
    requires
        old(ctx).auction.wf(),
    ensures
        r is Ok <==> claim_ok(*old(ctx), now),
        r is Err ==> *final(ctx) == *old(ctx)
            && r == Err::<AuctionClaimed, ErrorCode>(claim_err(*old(ctx), now)),
        r is Ok ==> *final(ctx) == claim_after(*old(ctx), now),
        r is Ok ==> final(ctx).auction.wf()
            && final(ctx).auction.claimed_by == Some(old(ctx).solver)
            && final(ctx).auction.claim_price == Some(price_at(old(ctx).auction, now as int) as u64)
            && final(ctx).auction.status == AuctionStatus::Awarded,
        final(ctx).intent == old(ctx).intent,
        final(ctx).solver_lamports + final(ctx).bond_vault
            == old(ctx).solver_lamports + old(ctx).bond_vault,
        r matches Ok(event) ==> event == (AuctionClaimed {
            intent: old(ctx).intent.id,
            auction: old(ctx).auction.intent,
            solver: old(ctx).solver,
            price_at_claim: price_at(old(ctx).auction, now as int) as u64,
            claim_expiry: (now + old(ctx).auction.exclusive_window_secs) as i64,
        }),
{
    if !ctx.intent.active {
        return Err(ErrorCode::IntentInactive);
    }
    if ctx.auction.intent != ctx.intent.id {
        return Err(ErrorCode::IntentMismatch);
    }
    if ctx.auction.claimed_by.is_some() {
        return Err(ErrorCode::AuctionAlreadyClaimed);
    }
    if ctx.auction.status != AuctionStatus::Started {
        return Err(ErrorCode::AuctionNotStarted);
    }

    if now < ctx.auction.start_time {
        return Err(ErrorCode::AuctionNotStarted);
    }
    if now > ctx.auction.end_time {
        return Err(ErrorCode::AuctionExpired);
    }

    // Defensive floor check; the schedule invariant keeps the quote at or
    // above the floor, so this branch is provably never taken (the error
    // enumeration in the contract omits it).
    let price_at_claim = current_price(&ctx.auction, now);
    if price_at_claim < ctx.auction.min_quote {
        return Err(ErrorCode::PriceBelowMinimum);
    }

    if ctx.solver_lamports < ctx.auction.bond_amount {
        return Err(ErrorCode::InsufficientBalance);
    }
    let vault_after = match ctx.bond_vault.checked_add(ctx.auction.bond_amount) {
        Some(v) => v,
        None => {
            return Err(ErrorCode::MathOverflow);
        },
    };

    let claim_expiry = now + ctx.auction.exclusive_window_secs;
    ctx.solver_lamports = ctx.solver_lamports - ctx.auction.bond_amount;
    ctx.bond_vault = vault_after;
    ctx.auction.claimed_by = Some(ctx.solver);
    ctx.auction.claim_price = Some(price_at_claim);
    ctx.auction.claim_expiry = Some(claim_expiry);
    ctx.auction.status = AuctionStatus::Awarded;

    Ok(AuctionClaimed {
        intent: ctx.intent.id,
        auction: ctx.auction.intent,
        solver: ctx.solver,
        price_at_claim,
        claim_expiry,
    })
}

/// A claim happens exactly once: after one claim commits, any later claim
/// on the same auction record — by any solver, at any time, with any
/// balances — fails, and (with the intent still open and correctly paired)
/// fails with `AuctionAlreadyClaimed`, leaving `claimed_by` untouched.
pub proof fn lemma_claim_exactly_once(first: ClaimAuction, now1: i64, second: ClaimAuction, now2: i64)
    requires
        first.auction.wf(),
        claim_ok(first, now1),
        second.auction == claim_after(first, now1).auction,
    ensures
        !claim_ok(second, now2),
        second.intent.active && second.auction.intent == second.intent.id
            ==> claim_err(second, now2) == ErrorCode::AuctionAlreadyClaimed,
{
}

} // verus!
