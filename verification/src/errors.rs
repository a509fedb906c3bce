use vstd::prelude::*;

verus! {

/// The failure taxonomy of the crowdfunding ledger. Every operation either
/// commits completely or aborts with one of these errors and no state change.
#[derive(Clone, Copy, Debug, PartialEq, Eq, Structural)]
pub enum Error {
    /// A goal or donation amount was not strictly positive.
    InvalidAmount,
    /// No campaign exists under the requested id.
    NotFound,
    /// A donation was attempted on a campaign that is no longer active.
    CampaignClosed,
    /// The caller is not the principal that the operation requires.
    Unauthorized,
    /// Accepting the donation would push the raised total past the
    /// representable range.
    ArithmeticOverflow,
}

} // verus!
