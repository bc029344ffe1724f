//! The reasons for which an operation on a campaign is refused.

use vstd::prelude::*;

verus! {

/// Why an operation was refused. A refused operation changes nothing.
#[derive(Clone, Copy, Debug, PartialEq, Eq, Structural)]
pub enum ErrorCode {
    /// The campaign has been settled; it accepts nothing further.
    CampaignFinalized,
    /// A target or a contribution of zero.
    InvalidAmount,
    /// Settlement was asked for while nothing had been collected.
    NothingToFinalize,
    /// The campaign already holds its full target.
    TargetAlreadyReached,
    /// A checked arithmetic step left the range of the amounts.
    MathOverflow,
    /// The caller is not the party the record names.
    Unauthorized,
}

} // verus!
