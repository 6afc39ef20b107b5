use vstd::prelude::*;

verus! {

/// A user's swap request: `input_amount` of `input_token` sits in an escrow
/// uniquely associated with this intent, and the user accepts any fill that
/// delivers at least `min_receive` of `output_token`.
///
/// Accounts and tokens are identified by plain numeric ids; custody and
/// addressing are the host's concern, the protocol logic only compares ids.
#[derive(Clone, Copy, Debug)]
pub struct Intent {
    /// Identifier of this intent; the escrow and the auction are keyed by it.
    pub id: u64,
    /// The user who escrowed the input funds.
    pub user: u64,
    /// Token the user pays.
    pub input_token: u64,
    /// Token the user wants to receive.
    pub output_token: u64,
    /// Amount escrowed, in smallest units of the input token.
    pub input_amount: u64,
    /// Least acceptable output, in smallest units of the output token.
    pub min_receive: u64,
    /// True until the intent is filled; flips to false exactly once.
    pub active: bool,
}

impl Intent {
    /// Invariant of every intent the protocol creates: both amounts are
    /// positive. `active` starts true and is cleared only by a successful fill.
    pub open spec fn wf(self) -> bool {
        &&& self.input_amount > 0
        &&& self.min_receive > 0
    }
}

} // verus!
