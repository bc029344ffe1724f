//! The three operations on a campaign: opening it, contributing to it and
//! settling it.
//!
//! Each operation works on the accounts it was handed, as plain values. It
//! either succeeds, changes the record and names the movement of value that
//! goes with the change, or it is refused with an [`ErrorCode`] and changes
//! nothing.

use vstd::prelude::*;
use crate::campaign::Campaign;
use crate::error::ErrorCode;
use crate::identity::{lemma_identity_by_bytes, Identity};
use crate::ledger::Transfer;

verus! {

/// The accounts of [`initialize`].
#[derive(Clone, Copy, Debug, PartialEq, Eq)]
pub struct Initialize {
    /// The party that opens the campaign and becomes its authority.
    pub creator: Identity,
    /// The party that the campaign collects for.
    pub beneficiary: Identity,
    /// The record to fill in.
    pub campaign: Campaign,
}

/// The accounts of [`deposit`].
#[derive(Clone, Copy, Debug, PartialEq, Eq)]
pub struct Deposit {
    /// The party that offers the contribution.
    pub donor: Identity,
    /// The record of the campaign contributed to.
    pub campaign: Campaign,
    /// The custody account of that campaign.
    pub vault_lamports: Identity,
}

/// The accounts of [`finalize`].
#[derive(Clone, Copy, Debug, PartialEq, Eq)]
pub struct Finalize {
    /// The party that asks for settlement.
    pub beneficiary: Identity,
    /// The party presented as the campaign's creator.
    pub authority: Identity,
    /// The record of the campaign to settle.
    pub campaign: Campaign,
    /// The custody account of that campaign.
    pub vault_lamports: Identity,
}

/// What [`deposit`] hands back when it succeeds.
#[derive(Clone, Copy, Debug, PartialEq, Eq)]
pub struct Contribution {
    /// The movement that belongs to the contribution: the counted part of
    /// the offer, from the donor into custody.
    pub transfer: Transfer,
    /// The part of the offer that was not counted and is not asked of the
    /// donor. Where it is positive the donor is owed a notice.
    pub excess: u64,
}

/// Why a contribution of `amount` to the campaign `c` is refused, if it is.
///
/// The tests are made in this order: a zero amount, a settled campaign,
/// accounted funds beyond the target, a target already reached.
pub open spec fn contribution_refused(c: Campaign, amount: u64) -> Option<ErrorCode> {
    if amount == 0 {
        Some(ErrorCode::InvalidAmount)
    } else if c.is_finalized {
        Some(ErrorCode::CampaignFinalized)
    } else if c.funds > c.target {
        Some(ErrorCode::MathOverflow)
    } else if c.funds == c.target {
        Some(ErrorCode::TargetAlreadyReached)
    } else {
        None
    }
}

/// The record after a contribution of `amount` was accepted: the accounted
/// funds grow by the counted part of the amount, and nothing else changes.
pub open spec fn contributed(c: Campaign, amount: u64) -> Campaign {
    Campaign { funds: (c.funds + c.counted(amount)) as u64, ..c }
}

/// Why settlement of the campaign `c` is refused, if it is, when `caller`
/// asks for it and presents `authority` as the campaign's creator.
///
/// The tests are made in this order: the two parties against the record, a
/// campaign already settled, nothing collected.
pub open spec fn settlement_refused(c: Campaign, caller: Identity, authority: Identity) -> Option<
    ErrorCode,
> {
    if caller != c.beneficiary || authority != c.authority {
        Some(ErrorCode::Unauthorized)
    } else if c.is_finalized {
        Some(ErrorCode::CampaignFinalized)
    } else if c.funds == 0 {
        Some(ErrorCode::NothingToFinalize)
    } else {
        None
    }
}

/// The record after settlement: settled for good, with nothing accounted
/// any more.
pub open spec fn settled(c: Campaign) -> Campaign {
    Campaign { funds: 0, is_finalized: true, ..c }
}

/// Opens a campaign: fills the record with the target, the creator's number
/// for it and the two parties, with nothing collected and not settled.
///
/// A target of zero is refused with `InvalidAmount`.
pub fn initialize(ctx: &mut Initialize, campaign_id: u64, target: u64) -> (r: Result<
    (),
    ErrorCode,
>)
    ensures
        r is Ok <==> target > 0,
        r is Ok ==> final(ctx).campaign == Campaign::opened(
            old(ctx).creator,
            old(ctx).beneficiary,
            campaign_id,
            target,
        ),
        r is Ok ==> final(ctx).campaign.well_formed(),
        r is Err ==> r == Err::<(), ErrorCode>(ErrorCode::InvalidAmount),
        r is Err ==> final(ctx).campaign == old(ctx).campaign,
        final(ctx).creator == old(ctx).creator,
        final(ctx).beneficiary == old(ctx).beneficiary,
{
    if target == 0 {
        return Err(ErrorCode::InvalidAmount);
    }
    ctx.campaign.funds = 0;
    ctx.campaign.target = target;
    ctx.campaign.campaign_id = campaign_id;
    ctx.campaign.authority = ctx.creator;
    ctx.campaign.beneficiary = ctx.beneficiary;
    ctx.campaign.is_finalized = false;
    Ok(())
}

/// Takes a contribution of `amount` for the campaign.
///
/// No more is counted than the campaign still needs: the accounted funds
/// grow by `amount`, or by what was missing to the target if that is less.
/// The result names the movement of exactly the counted part from the donor
/// into custody, and the part of the offer that was left out.
///
/// Refused, with the record unchanged: a zero amount (`InvalidAmount`), a
/// settled campaign (`CampaignFinalized`), a record that accounts for more
/// than its target (`MathOverflow`), a campaign that has reached its target
/// (`TargetAlreadyReached`).
pub fn deposit(ctx: &mut Deposit, amount: u64) -> (r: Result<Contribution, ErrorCode>)
    ensures
        match r {
            Ok(k) => {
                &&& contribution_refused(old(ctx).campaign, amount) is None
                &&& final(ctx).campaign == contributed(old(ctx).campaign, amount)
                &&& k.transfer.from == old(ctx).donor
                &&& k.transfer.to == old(ctx).vault_lamports
                &&& k.transfer.lamports == old(ctx).campaign.counted(amount)
                &&& k.excess == amount - old(ctx).campaign.counted(amount)
            },
            Err(e) => {
                &&& contribution_refused(old(ctx).campaign, amount) == Some(e)
                &&& final(ctx).campaign == old(ctx).campaign
            },
        },
        final(ctx).donor == old(ctx).donor,
        final(ctx).vault_lamports == old(ctx).vault_lamports,
        old(ctx).campaign.well_formed() ==> final(ctx).campaign.well_formed(),
{
    if amount == 0 {
        return Err(ErrorCode::InvalidAmount);
    }
    if ctx.campaign.is_finalized {
        return Err(ErrorCode::CampaignFinalized);
    }
    let remaining: u64 = match ctx.campaign.target.checked_sub(ctx.campaign.funds) {
        Some(left) => left,
        None => {
            return Err(ErrorCode::MathOverflow);
        },
    };
    if remaining == 0 {
        return Err(ErrorCode::TargetAlreadyReached);
    }
    let counted: u64 = if amount < remaining {
        amount
    } else {
        remaining
    };
    let funds: u64 = match ctx.campaign.funds.checked_add(counted) {
        Some(sum) => sum,
        None => {
            return Err(ErrorCode::MathOverflow);
        },
    };
    ctx.campaign.funds = funds;
    Ok(
        Contribution {
            transfer: Transfer { from: ctx.donor, to: ctx.vault_lamports, lamports: counted },
            excess: amount - counted,
        },
    )
}

/// Settles the campaign: marks the record settled, resets the accounted
/// funds to zero, and names the payment of all that was accounted, out of
/// custody, to the beneficiary.
///
/// Once that payment is made, custody is read again and [`sweep`] decides
/// what becomes of anything left in it.
///
/// Refused, with the record unchanged: a caller who is not the record's
/// beneficiary, or an authority that is not the record's (`Unauthorized`);
/// a campaign already settled (`CampaignFinalized`); a campaign that has
/// collected nothing (`NothingToFinalize`).
pub fn finalize(ctx: &mut Finalize) -> (r: Result<Transfer, ErrorCode>)
    ensures
        match r {
            Ok(payment) => {
                &&& settlement_refused(
                    old(ctx).campaign,
                    old(ctx).beneficiary,
                    old(ctx).authority,
                ) is None
                &&& final(ctx).campaign == settled(old(ctx).campaign)
                &&& payment.from == old(ctx).vault_lamports
                &&& payment.to == old(ctx).beneficiary
                &&& payment.lamports == old(ctx).campaign.funds
            },
            Err(e) => {
                &&& settlement_refused(
                    old(ctx).campaign,
                    old(ctx).beneficiary,
                    old(ctx).authority,
                ) == Some(e)
                &&& final(ctx).campaign == old(ctx).campaign
            },
        },
        final(ctx).beneficiary == old(ctx).beneficiary,
        final(ctx).authority == old(ctx).authority,
        final(ctx).vault_lamports == old(ctx).vault_lamports,
        old(ctx).campaign.well_formed() ==> final(ctx).campaign.well_formed(),
{
    proof {
        lemma_identity_by_bytes(ctx.beneficiary, ctx.campaign.beneficiary);
        lemma_identity_by_bytes(ctx.authority, ctx.campaign.authority);
    }
    if ctx.beneficiary != ctx.campaign.beneficiary {
        return Err(ErrorCode::Unauthorized);
    }
    if ctx.authority != ctx.campaign.authority {
        return Err(ErrorCode::Unauthorized);
    }
    if ctx.campaign.is_finalized {
        return Err(ErrorCode::CampaignFinalized);
    }
    let amount: u64 = ctx.campaign.funds;
    if amount == 0 {
        return Err(ErrorCode::NothingToFinalize);
    }
    ctx.campaign.is_finalized = true;
    ctx.campaign.funds = 0;
    Ok(Transfer { from: ctx.vault_lamports, to: ctx.beneficiary, lamports: amount })
}

/// Decides what becomes of the `remaining` value that custody still holds
/// after the beneficiary was paid: all of it goes to the authority, and an
/// empty custody asks for no movement.
pub fn sweep(ctx: &Finalize, remaining: u64) -> (r: Option<Transfer>)
    ensures
        r is Some <==> remaining > 0,
        r matches Some(t) ==> t.from == ctx.vault_lamports && t.to == ctx.authority && t.lamports
            == remaining,
{
    if remaining > 0 {
        Some(Transfer { from: ctx.vault_lamports, to: ctx.authority, lamports: remaining })
    } else {
        None
    }
}

} // verus!
