use vstd::prelude::*;

use crate::errors::ErrorCode;
use crate::intent::Intent;

verus! {

/// What the user submits to open an intent.
#[derive(Clone, Copy, Debug)]
pub struct CreateIntentArgs {
    /// Token the user pays.
    pub input_token: u64,
    /// Token the user wants to receive.
    pub output_token: u64,
    /// Amount to escrow, in smallest units of the input token.
    pub input_amount: u64,
    /// Least acceptable output, in smallest units of the output token.
    pub min_receive: u64,
}

/// The state an intent creation touches: the signing user, the intent record
/// to initialize, the user's input-token balance and the escrow uniquely
/// associated with the new intent. The host hands the balances in as plain
/// values and applies the committed result.
#[derive(Clone, Copy, Debug)]
pub struct CreateIntent {
    /// The user opening the intent.
    pub user: u64,
    /// The intent record; initialized on success.
    pub intent: Intent,
    /// Balance of the user's input-token account.
    pub user_token_account: u64,
    /// Balance of the escrow for this intent (zero for a fresh escrow).
    pub user_input_escrow: u64,
}

/// Success condition: both amounts are positive, the user can cover the
/// escrow deposit, and the escrow balance cannot overflow.
pub open spec fn create_intent_ok(ctx: CreateIntent, args: CreateIntentArgs) -> bool {
    &&& args.input_amount > 0
    &&& args.min_receive > 0
    &&& ctx.user_token_account >= args.input_amount
    &&& ctx.user_input_escrow + args.input_amount <= u64::MAX
}

/// The first check that fails, in the order the handler applies them.
pub open spec fn create_intent_err(ctx: CreateIntent, args: CreateIntentArgs) -> ErrorCode {
    if args.input_amount == 0 {
        ErrorCode::InvalidInputAmount
    } else if args.min_receive == 0 {
        ErrorCode::InvalidMinReceive
    } else if ctx.user_token_account < args.input_amount {
        ErrorCode::InsufficientBalance
    } else {
        ErrorCode::MathOverflow
    }
}

/// The state after a successful creation: the intent is initialized active
/// and the deposit has moved from the user's account into the escrow.
pub open spec fn create_intent_after(ctx: CreateIntent, args: CreateIntentArgs, id: u64) -> CreateIntent {
    CreateIntent {
        intent: (Intent {
            id,
            user: ctx.user,
            input_token: args.input_token,
            output_token: args.output_token,
            input_amount: args.input_amount,
            min_receive: args.min_receive,
            active: true,
        }),
        user_token_account: (ctx.user_token_account - args.input_amount) as u64,
        user_input_escrow: (ctx.user_input_escrow + args.input_amount) as u64,
        ..ctx
    }
}

/// Opens an intent: validates the request, initializes the record with
/// `active = true`, and moves `input_amount` from the user's account into
/// the escrow. All-or-nothing: on any error nothing changes.
pub fn create_intent_handler(ctx: &mut CreateIntent, args: CreateIntentArgs, id: u64) -> (r: Result<(), ErrorCode>)
    ensures
        r is Ok <==> create_intent_ok(*old(ctx), args),
        r is Err ==> *final(ctx) == *old(ctx) && r == Err::<(), ErrorCode>(create_intent_err(*old(ctx), args)),
        r is Ok ==> *final(ctx) == create_intent_after(*old(ctx), args, id),
        r is Ok ==> final(ctx).intent.wf() && final(ctx).intent.active,
        final(ctx).user_token_account + final(ctx).user_input_escrow
            == old(ctx).user_token_account + old(ctx).user_input_escrow,
{
    if args.input_amount == 0 {
        return Err(ErrorCode::InvalidInputAmount);
    }
    if args.min_receive == 0 {
        return Err(ErrorCode::InvalidMinReceive);
    }
    if ctx.user_token_account < args.input_amount {
        return Err(ErrorCode::InsufficientBalance);
    }
    let escrow_after = match ctx.user_input_escrow.checked_add(args.input_amount) {
        Some(v) => v,
        None => {
            return Err(ErrorCode::MathOverflow);
        },
    };

    ctx.intent = Intent {
        id,
        user: ctx.user,
        input_token: args.input_token,
        output_token: args.output_token,
        input_amount: args.input_amount,
        min_receive: args.min_receive,
        active: true,
    };
    ctx.user_token_account = ctx.user_token_account - args.input_amount;
    ctx.user_input_escrow = escrow_after;

    Ok(())
}

} // verus!
