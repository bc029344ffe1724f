//! The campaign record: what is known of one campaign between operations.

use vstd::prelude::*;
use crate::identity::Identity;

verus! {

/// The record of one campaign.
///
/// `funds` is the value accounted as collected and owed to the beneficiary;
/// the value actually held in custody is kept by the ledger, not here.
#[derive(Clone, Copy, Debug, PartialEq, Eq)]
pub struct Campaign {
    /// Value accounted as collected so far.
    pub funds: u64,
    /// The most that the campaign accounts for. Fixed when it is opened.
    pub target: u64,
    /// The creator's own number for this campaign.
    pub campaign_id: u64,
    /// The creator. Receives what custody holds beyond the accounted funds.
    pub authority: Identity,
    /// The only party that may settle. Receives the accounted funds.
    pub beneficiary: Identity,
    /// Set once, by settlement.
    pub is_finalized: bool,
}

impl Campaign {
    /// The invariant of a record: a positive target, no more accounted than
    /// the target, and nothing accounted once the campaign is settled.
    pub open spec fn well_formed(self) -> bool {
        &&& self.target > 0
        &&& self.funds <= self.target
        &&& self.is_finalized ==> self.funds == 0
    }

    /// What the campaign still needs to reach its target.
    pub open spec fn remaining(self) -> int {
        self.target - self.funds
    }

    /// The part of an offered `amount` that the campaign accounts for: the
    /// amount itself, or what is still needed if that is less.
    pub open spec fn counted(self, amount: u64) -> int {
        if amount <= self.remaining() {
            amount as int
        } else {
            self.remaining()
        }
    }

    /// The record of a campaign that has just been opened.
    pub open spec fn opened(
        authority: Identity,
        beneficiary: Identity,
        campaign_id: u64,
        target: u64,
    ) -> Campaign {
        Campaign { funds: 0, target, campaign_id, authority, beneficiary, is_finalized: false }
    }

    /// Whether `other` is a later state of the same campaign: what is fixed
    /// at opening is the same in both.
    pub open spec fn same_campaign(self, other: Campaign) -> bool {
        &&& other.target == self.target
        &&& other.campaign_id == self.campaign_id
        &&& other.authority == self.authority
        &&& other.beneficiary == self.beneficiary
    }
}

} // verus!
