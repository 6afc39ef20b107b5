use vstd::prelude::*;

verus! {

/// Lifecycle of an auction. The only legal transitions are
/// `Started -> Awarded -> Ended` and `Started -> Cancelled`.
#[derive(Clone, Copy, Debug, PartialEq, Eq, Structural)]
pub enum AuctionStatus {
    Started,
    Cancelled,
    Awarded,
    Ended,
}

/// The Dutch-auction schedule attached to one intent (1:1, keyed by the
/// intent's id). The quote starts at `start_quote` and decays linearly to
/// `min_quote` between `start_time` and `end_time`. The first solver to claim
/// posts `bond_amount` of collateral and is recorded in `claimed_by` together
/// with the price observed at claim time; only that solver may fill, and only
/// before `end_time + exclusive_window_secs`.
#[derive(Clone, Copy, Debug)]
pub struct AuctionAccount {
    /// Id of the intent this auction sells.
    pub intent: u64,
    /// Opening quote: a premium over the user's floor.
    pub start_quote: u64,
    /// Floor quote: the intent's `min_receive`.
    pub min_quote: u64,
    /// When the decay begins (seconds, host clock).
    pub start_time: i64,
    /// When the quote reaches the floor; claims close here.
    pub end_time: i64,
    /// How long past `end_time` the claimant keeps the exclusive fill right.
    pub exclusive_window_secs: i64,
    /// Collateral a claiming solver must post.
    pub bond_amount: u64,
    /// The solver holding the exclusive fill right, once claimed.
    pub claimed_by: Option<u64>,
    /// The quote at the moment of the claim, once claimed.
    pub claim_price: Option<u64>,
    /// When the exclusive right lapses, once claimed.
    pub claim_expiry: Option<i64>,
    /// Where in the lifecycle this auction stands.
    pub status: AuctionStatus,
}

impl AuctionAccount {
    /// Invariant of every auction the protocol creates and preserves:
    /// the schedule is ordered and overflow-free, and the claim fields are
    /// set exactly when the auction has been awarded (and stay set when it
    /// ends), with the recorded price inside the schedule's range.
    pub open spec fn wf(self) -> bool {
        &&& self.min_quote <= self.start_quote
        &&& 0 <= self.start_time
        &&& self.start_time < self.end_time
        &&& 0 <= self.exclusive_window_secs
        &&& self.end_time + self.exclusive_window_secs <= i64::MAX
        &&& (self.claimed_by is Some <==> (self.status == AuctionStatus::Awarded
            || self.status == AuctionStatus::Ended))
        &&& (self.claim_price is Some <==> self.claimed_by is Some)
        &&& (self.claim_expiry is Some <==> self.claimed_by is Some)
        &&& (self.claim_price matches Some(p)
            ==> self.min_quote <= p && p <= self.start_quote)
    }
}

} // verus!
