use vstd::prelude::*;

use crate::auction_account::{AuctionAccount, AuctionStatus};
use crate::errors::ErrorCode;
use crate::intent::Intent;

verus! {

/// The solver's view of the order it fills. Every field must match the
/// intent exactly; a stale or forged payload is rejected field by field.
#[derive(Clone, Copy, Debug)]
pub struct OrderConfig {
    /// Id of the intent this order fills.
    pub id: u64,
    /// Amount the solver takes from the escrow.
    pub input_amount: u64,
    /// The user's floor, as the solver believes it.
    pub min_receive: u64,
    /// Output the solver actually delivers to the user.
    pub receive_amount: u64,
    /// Token the solver receives.
    pub input_token: u64,
    /// Token the solver delivers.
    pub output_token: u64,
    /// The user the solver pays.
    pub user: u64,
}

/// The state a fill touches: the awarded solver and the user, the intent
/// and its auction, and the balances of every leg of the exchange. The host
/// hands the balances in as plain values and applies the committed result.
#[derive(Clone, Copy, Debug)]
pub struct FillIntent {
    /// The solver attempting the fill.
    pub solver: u64,
    /// The user who opened the intent.
    pub user: u64,
    /// The intent being settled.
    pub intent: Intent,
    /// The auction awarded for it.
    pub auction: AuctionAccount,
    /// Balance of the user's output-token account (receives the output).
    pub user_receive_ata: u64,
    /// Balance of the solver's input-token account (receives the escrow).
    pub solver_receive_ata: u64,
    /// Balance of the solver's output-token account (pays the output).
    pub solver_output_ata: u64,
    /// Balance of the escrow holding the intent's input funds.
    pub user_input_escrow: u64,
    /// Balance of the user's input-token account (receives any escrow
    /// residual when the escrow closes).
    pub user_token_account: u64,
    /// Balance of the protocol's bond vault.
    pub bond_vault: u64,
    /// The solver's collateral balance (receives the bond refund).
    pub solver_lamports: u64,
}

/// The order matches the intent field for field.
pub open spec fn order_matches(intent: Intent, order: OrderConfig) -> bool {
    &&& order.user == intent.user
    &&& order.input_token == intent.input_token
    &&& order.output_token == intent.output_token
    &&& order.input_amount == intent.input_amount
    &&& order.min_receive == intent.min_receive
}

/// Every balance a successful fill credits stays inside 64 bits.
pub open spec fn fill_fits(ctx: FillIntent, order: OrderConfig) -> bool {
    &&& ctx.user_receive_ata + order.receive_amount <= u64::MAX
    &&& ctx.solver_receive_ata + order.input_amount <= u64::MAX
    &&& ctx.user_token_account + (ctx.user_input_escrow - order.input_amount) <= u64::MAX
    &&& ctx.solver_lamports + ctx.auction.bond_amount <= u64::MAX
}

/// Success condition: the intent is open and paired with this auction, the
/// order matches the intent exactly, the offer clears both the user's floor
/// and the price locked in at claim time, every leg is funded, the caller
/// is the awarded solver, the exclusive window has not lapsed at `now`,
/// and no credited balance overflows.
pub open spec fn fill_ok(ctx: FillIntent, order: OrderConfig, now: i64) -> bool {
    &&& ctx.intent.active
    &&& ctx.auction.intent == ctx.intent.id
    &&& order_matches(ctx.intent, order)
    &&& order.receive_amount >= ctx.intent.min_receive
    &&& ctx.solver_output_ata >= order.receive_amount
    &&& ctx.user_input_escrow >= order.input_amount
    &&& ctx.auction.status == AuctionStatus::Awarded
    &&& ctx.auction.claimed_by == Some(ctx.solver)
    &&& (ctx.auction.claim_price matches Some(p) && order.receive_amount >= p)
    &&& now < ctx.auction.end_time + ctx.auction.exclusive_window_secs
    &&& ctx.bond_vault >= ctx.auction.bond_amount
    &&& fill_fits(ctx, order)
}

/// The first check that fails, in the order the handler applies them.
pub open spec fn fill_err(ctx: FillIntent, order: OrderConfig, now: i64) -> ErrorCode {
    if !ctx.intent.active {
        ErrorCode::IntentInactive
    } else if ctx.auction.intent != ctx.intent.id {
        ErrorCode::IntentMismatch
    } else if order.user != ctx.intent.user {
        ErrorCode::IntentUserMismatch
    } else if order.input_token != ctx.intent.input_token {
        ErrorCode::IntentInputTokenMismatch
    } else if order.output_token != ctx.intent.output_token {
        ErrorCode::IntentOutputTokenMismatch
    } else if order.input_amount != ctx.intent.input_amount {
        ErrorCode::IntentInputAmountMismatch
    } else if order.min_receive != ctx.intent.min_receive {
        ErrorCode::IntentMinReceiveMismatch
    } else if order.receive_amount < ctx.intent.min_receive {
        ErrorCode::InsufficientOutput
    } else if ctx.solver_output_ata < order.receive_amount {
        ErrorCode::InsufficientSolverBalance
    } else if ctx.user_input_escrow < order.input_amount {
        ErrorCode::InsufficientUserEscrow
    } else if ctx.auction.status != AuctionStatus::Awarded {
        ErrorCode::AuctionNotAwarded
    } else if ctx.auction.claimed_by != Some(ctx.solver) {
        ErrorCode::AuctionNotSolver
    } else if !(ctx.auction.claim_price matches Some(p) && order.receive_amount >= p) {
        ErrorCode::PriceBelowMinimum
    } else if now >= ctx.auction.end_time + ctx.auction.exclusive_window_secs {
        ErrorCode::TimeExceeded
    } else if ctx.bond_vault < ctx.auction.bond_amount {
        ErrorCode::InsufficientBalance
    } else {
        ErrorCode::MathOverflow
    }
}

/// The state after a successful fill, every leg applied at once:
/// the solver pays `receive_amount` of the output token to the user; the
/// escrow pays `input_amount` of the input token to the solver and closes,
/// returning any residual to the user's own account; the bond returns from
/// the vault to the solver; the auction ends; the intent deactivates.
pub open spec fn fill_after(ctx: FillIntent, order: OrderConfig, now: i64) -> FillIntent {
    FillIntent {
        intent: (Intent { active: false, ..ctx.intent }),
        auction: (AuctionAccount { status: AuctionStatus::Ended, ..ctx.auction }),
        user_receive_ata: (ctx.user_receive_ata + order.receive_amount) as u64,
        solver_output_ata: (ctx.solver_output_ata - order.receive_amount) as u64,
        solver_receive_ata: (ctx.solver_receive_ata + order.input_amount) as u64,
        user_input_escrow: 0u64,
        user_token_account: (ctx.user_token_account
            + (ctx.user_input_escrow - order.input_amount)) as u64,
        bond_vault: (ctx.bond_vault - ctx.auction.bond_amount) as u64,
        solver_lamports: (ctx.solver_lamports + ctx.auction.bond_amount) as u64,
        ..ctx
    }
}

/// Settles the intent at the host-sampled time `now`: validates the order
/// against the intent, the caller against the award, the offer against both
/// price floors and the exclusive window, then commits the whole multi-leg
/// exchange at once. At most once per intent: commit clears `active`, so a
/// repeated fill fails with `IntentInactive`. All-or-nothing: on any error
/// nothing changes.
pub fn fill_intent_handler(ctx: &mut FillIntent, order: OrderConfig, now: i64) -> (r: Result<(), ErrorCode>)
    requires
        old(ctx).auction.wf(),
    ensures
        r is Ok <==> fill_ok(*old(ctx), order, now),
        r is Err ==> *final(ctx) == *old(ctx)
            && r == Err::<(), ErrorCode>(fill_err(*old(ctx), order, now)),
        r is Ok ==> *final(ctx) == fill_after(*old(ctx), order, now),
        r is Ok ==> old(ctx).intent.active && !final(ctx).intent.active,
        r is Ok ==> final(ctx).auction.wf()
            && final(ctx).auction.status == AuctionStatus::Ended
            && final(ctx).auction.claimed_by == old(ctx).auction.claimed_by,
        old(ctx).auction.claimed_by != Some(old(ctx).solver) ==> r is Err,
        final(ctx).user_receive_ata + final(ctx).solver_output_ata
            == old(ctx).user_receive_ata + old(ctx).solver_output_ata,
        final(ctx).solver_receive_ata + final(ctx).user_input_escrow + final(ctx).user_token_account
            == old(ctx).solver_receive_ata + old(ctx).user_input_escrow + old(ctx).user_token_account,
        final(ctx).bond_vault + final(ctx).solver_lamports
            == old(ctx).bond_vault + old(ctx).solver_lamports,
{
    if !ctx.intent.active {
        return Err(ErrorCode::IntentInactive);
    }
    if ctx.auction.intent != ctx.intent.id {
        return Err(ErrorCode::IntentMismatch);
    }
    if order.user != ctx.intent.user {
        return Err(ErrorCode::IntentUserMismatch);
    }
    if order.input_token != ctx.intent.input_token {
        return Err(ErrorCode::IntentInputTokenMismatch);
    }
    if order.output_token != ctx.intent.output_token {
        return Err(ErrorCode::IntentOutputTokenMismatch);
    }
    if order.input_amount != ctx.intent.input_amount {
        return Err(ErrorCode::IntentInputAmountMismatch);
    }
    if order.min_receive != ctx.intent.min_receive {
        return Err(ErrorCode::IntentMinReceiveMismatch);
    }
    if order.receive_amount < ctx.intent.min_receive {
        return Err(ErrorCode::InsufficientOutput);
    }
    if ctx.solver_output_ata < order.receive_amount {
        return Err(ErrorCode::InsufficientSolverBalance);
    }
    if ctx.user_input_escrow < order.input_amount {
        return Err(ErrorCode::InsufficientUserEscrow);
    }
    if ctx.auction.status != AuctionStatus::Awarded {
        return Err(ErrorCode::AuctionNotAwarded);
    }
    let claimed_by = match ctx.auction.claimed_by {
        Some(s) => s,
        None => {
            return Err(ErrorCode::AuctionNotAwarded);
        },
    };
    if claimed_by != ctx.solver {
        return Err(ErrorCode::AuctionNotSolver);
    }
    let claim_price = match ctx.auction.claim_price {
        Some(p) => p,
        None => {
            return Err(ErrorCode::PriceBelowMinimum);
        },
    };
    if order.receive_amount < claim_price {
        return Err(ErrorCode::PriceBelowMinimum);
    }
    if now >= ctx.auction.end_time + ctx.auction.exclusive_window_secs {
        return Err(ErrorCode::TimeExceeded);
    }
    if ctx.bond_vault < ctx.auction.bond_amount {
        return Err(ErrorCode::InsufficientBalance);
    }

    let escrow_residual = ctx.user_input_escrow - order.input_amount;
    let user_receive_after = match ctx.user_receive_ata.checked_add(order.receive_amount) {
        Some(v) => v,
        None => {
            return Err(ErrorCode::MathOverflow);
        },
    };
    let solver_receive_after = match ctx.solver_receive_ata.checked_add(order.input_amount) {
        Some(v) => v,
        None => {
            return Err(ErrorCode::MathOverflow);
        },
    };
    let user_account_after = match ctx.user_token_account.checked_add(escrow_residual) {
        Some(v) => v,
        None => {
            return Err(ErrorCode::MathOverflow);
        },
    };
    let solver_lamports_after = match ctx.solver_lamports.checked_add(ctx.auction.bond_amount) {
        Some(v) => v,
        None => {
            return Err(ErrorCode::MathOverflow);
        },
    };

    ctx.solver_output_ata = ctx.solver_output_ata - order.receive_amount;
    ctx.user_receive_ata = user_receive_after;
    ctx.user_input_escrow = 0;
    ctx.solver_receive_ata = solver_receive_after;
    ctx.user_token_account = user_account_after;
    ctx.auction.status = AuctionStatus::Ended;
    ctx.bond_vault = ctx.bond_vault - ctx.auction.bond_amount;
    ctx.solver_lamports = solver_lamports_after;
    ctx.intent.active = false;

    Ok(())
}

/// A fill happens at most once per intent: after one fill commits, any
/// later fill on the intent it left behind — any order, any time, any
/// balances — fails with `IntentInactive`, because commit clears `active`
/// and nothing ever sets it again.
pub proof fn lemma_fill_at_most_once(
    first: FillIntent,
    order1: OrderConfig,
    now1: i64,
    second: FillIntent,
    order2: OrderConfig,
    now2: i64,
)
    requires
        fill_ok(first, order1, now1),
        second.intent == fill_after(first, order1, now1).intent,
    ensures
        !fill_ok(second, order2, now2),
        fill_err(second, order2, now2) == ErrorCode::IntentInactive,
{
}

/// Only the awarded solver can fill: with every check ahead of the award
/// passing, a caller other than `claimed_by` fails with `AuctionNotSolver`.
pub proof fn lemma_fill_wrong_solver(ctx: FillIntent, order: OrderConfig, now: i64)
    requires
        ctx.intent.active,
        ctx.auction.intent == ctx.intent.id,
        order_matches(ctx.intent, order),
        order.receive_amount >= ctx.intent.min_receive,
        ctx.solver_output_ata >= order.receive_amount,
        ctx.user_input_escrow >= order.input_amount,
        ctx.auction.status == AuctionStatus::Awarded,
        ctx.auction.claimed_by != Some(ctx.solver),
    ensures
        !fill_ok(ctx, order, now),
        fill_err(ctx, order, now) == ErrorCode::AuctionNotSolver,
{
}

/// The exclusive right is time-bounded: at or past
/// `end_time + exclusive_window_secs` no fill can succeed, whatever the
/// order, caller or balances; and with every check ahead of the deadline
/// passing, the failure is `TimeExceeded`.
pub proof fn lemma_fill_window_lapsed(ctx: FillIntent, order: OrderConfig, now: i64)
    requires
        now >= ctx.auction.end_time + ctx.auction.exclusive_window_secs,
    ensures
        !fill_ok(ctx, order, now),
        ctx.intent.active && ctx.auction.intent == ctx.intent.id
            && order_matches(ctx.intent, order)
            && order.receive_amount >= ctx.intent.min_receive
            && ctx.solver_output_ata >= order.receive_amount
            && ctx.user_input_escrow >= order.input_amount
            && ctx.auction.status == AuctionStatus::Awarded
            && ctx.auction.claimed_by == Some(ctx.solver)
            && (ctx.auction.claim_price matches Some(p) && order.receive_amount >= p)
            ==> fill_err(ctx, order, now) == ErrorCode::TimeExceeded,
{
}

} // verus!
