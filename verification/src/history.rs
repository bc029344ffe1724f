//! Histories of a campaign, and the laws that hold of every one of them.
//!
//! A history is a sequence of requests made of one campaign, each of which
//! is either carried out or refused. The functions here say, in terms of the
//! same specifications that [`deposit`](crate::lifecycle::deposit) and
//! [`finalize`](crate::lifecycle::finalize) ensure, what record a history
//! leaves behind.

use vstd::prelude::*;
use vstd::math::min;
use crate::campaign::Campaign;
use crate::error::ErrorCode;
use crate::identity::Identity;
use crate::lifecycle::{contributed, contribution_refused, settled, settlement_refused};

verus! {

/// A request made of an open campaign.
#[derive(Clone, Copy, Debug, PartialEq, Eq)]
pub enum Operation {
    /// A donor offers `amount`.
    Contribute { amount: u64 },
    /// `caller` asks for settlement and presents `authority` as the creator.
    Settle { caller: Identity, authority: Identity },
}

/// Why the campaign `c` refuses `op`, if it does.
pub open spec fn refused(c: Campaign, op: Operation) -> Option<ErrorCode> {
    match op {
        Operation::Contribute { amount } => contribution_refused(c, amount),
        Operation::Settle { caller, authority } => settlement_refused(c, caller, authority),
    }
}

/// The record after `op` was asked of `c`: changed as the operation says
/// where it is carried out, and `c` itself where it is refused.
pub open spec fn apply(c: Campaign, op: Operation) -> Campaign {
    if refused(c, op) is Some {
        c
    } else {
        match op {
            Operation::Contribute { amount } => contributed(c, amount),
            Operation::Settle { .. } => settled(c),
        }
    }
}

/// The record after all of `ops` were asked of `c`, in order.
pub open spec fn run(c: Campaign, ops: Seq<Operation>) -> Campaign
    decreases ops.len(),
{
    if ops.len() == 0 {
        c
    } else {
        apply(run(c, ops.drop_last()), ops.last())
    }
}

/// The sum of the amounts that the contributions in `ops` offer.
pub open spec fn offered(ops: Seq<Operation>) -> int
    decreases ops.len(),
{
    if ops.len() == 0 {
        0
    } else {
        offered(ops.drop_last()) + match ops.last() {
            Operation::Contribute { amount } => amount as int,
            Operation::Settle { .. } => 0,
        }
    }
}

/// The value that the history `ops` of `c` asks donors to move into custody:
/// the counted part of every contribution that was accepted.
pub open spec fn collected(c: Campaign, ops: Seq<Operation>) -> int
    decreases ops.len(),
{
    if ops.len() == 0 {
        0
    } else {
        let before = run(c, ops.drop_last());
        collected(c, ops.drop_last()) + match ops.last() {
            Operation::Contribute { amount } => if contribution_refused(before, amount) is None {
                before.counted(amount)
            } else {
                0
            },
            Operation::Settle { .. } => 0,
        }
    }
}

/// The value that the history `ops` of `c` asks to be paid out of custody to
/// the beneficiary: what was accounted at each settlement carried out.
pub open spec fn paid_out(c: Campaign, ops: Seq<Operation>) -> int
    decreases ops.len(),
{
    if ops.len() == 0 {
        0
    } else {
        let before = run(c, ops.drop_last());
        paid_out(c, ops.drop_last()) + match ops.last() {
            Operation::Contribute { .. } => 0,
            Operation::Settle { caller, authority } => if settlement_refused(
                before,
                caller,
                authority,
            ) is None {
                before.funds as int
            } else {
                0
            },
        }
    }
}

/// How many settlements the history `ops` of `c` carries out.
pub open spec fn settlements(c: Campaign, ops: Seq<Operation>) -> nat
    decreases ops.len(),
{
    if ops.len() == 0 {
        0
    } else {
        let before = run(c, ops.drop_last());
        settlements(c, ops.drop_last()) + match ops.last() {
            Operation::Contribute { .. } => 0nat,
            Operation::Settle { caller, authority } => if settlement_refused(
                before,
                caller,
                authority,
            ) is None {
                1nat
            } else {
                0nat
            },
        }
    }
}

/// A single operation, carried out or refused, keeps the record's invariant
/// and everything that was fixed when the campaign was opened.
pub proof fn lemma_apply_keeps_invariant(c: Campaign, op: Operation)
    ensures
        c.same_campaign(apply(c, op)),
        c.well_formed() ==> apply(c, op).well_formed(),
        c.is_finalized ==> apply(c, op) == c,
{
}

/// Whatever is asked of a campaign, its target, its number and its two
/// parties stay as they were, and a well-formed record stays well formed.
pub proof fn lemma_run_keeps_invariant(c: Campaign, ops: Seq<Operation>)
    ensures
        c.same_campaign(run(c, ops)),
        c.well_formed() ==> run(c, ops).well_formed(),
    decreases ops.len(),
{
    if ops.len() > 0 {
        lemma_run_keeps_invariant(c, ops.drop_last());
        lemma_apply_keeps_invariant(run(c, ops.drop_last()), ops.last());
    }
}

/// The accounted funds of a campaign lie between zero and its target after
/// every step of every history.
pub proof fn lemma_funds_within_target(c: Campaign, ops: Seq<Operation>)
    requires
        c.well_formed(),
    ensures
        forall|k: int|
            0 <= k <= ops.len() ==> 0 <= (#[trigger] run(c, ops.take(k))).funds <= c.target,
{
    assert forall|k: int| 0 <= k <= ops.len() implies 0 <= (#[trigger] run(
        c,
        ops.take(k),
    )).funds <= c.target by {
        lemma_run_keeps_invariant(c, ops.take(k));
    }
}

/// A settled campaign stays settled: if it is settled after `i` steps of a
/// history, it is settled after every later step.
pub proof fn lemma_finalized_never_reverts(c: Campaign, ops: Seq<Operation>, i: int, j: int)
    requires
        0 <= i <= j <= ops.len(),
        run(c, ops.take(i)).is_finalized,
    ensures
        run(c, ops.take(j)).is_finalized,
        run(c, ops.take(j)) == run(c, ops.take(i)),
    decreases j - i,
{
    if i < j {
        lemma_finalized_never_reverts(c, ops, i, j - 1);
        assert(ops.take(j).drop_last() =~= ops.take(j - 1));
        lemma_apply_keeps_invariant(run(c, ops.take(j - 1)), ops.take(j).last());
    }
}

/// No history settles a campaign more than once: it carries out one
/// settlement or none, one exactly when it turns an unsettled campaign into
/// a settled one, and none on a campaign that was settled before.
pub proof fn lemma_settled_at_most_once(c: Campaign, ops: Seq<Operation>)
    ensures
        settlements(c, ops) <= 1,
        c.is_finalized ==> settlements(c, ops) == 0,
        run(c, ops).is_finalized <==> c.is_finalized || settlements(c, ops) == 1,
    decreases ops.len(),
{
    if ops.len() > 0 {
        lemma_settled_at_most_once(c, ops.drop_last());
        lemma_apply_keeps_invariant(run(c, ops.drop_last()), ops.last());
    }
}

/// Settlement is refused the second time: once a request for settlement was
/// carried out, the same request is refused with `CampaignFinalized`, and
/// no request for settlement by anyone is carried out again.
pub proof fn lemma_second_settlement_refused(
    c: Campaign,
    caller: Identity,
    authority: Identity,
    later_caller: Identity,
    later_authority: Identity,
)
    requires
        settlement_refused(c, caller, authority) is None,
    ensures
        settlement_refused(settled(c), caller, authority) == Some(ErrorCode::CampaignFinalized),
        settlement_refused(settled(c), later_caller, later_authority) is Some,
{
}

/// The cap: while a campaign is not settled, what its history has added to
/// the accounted funds is the sum of all that was offered, or what was
/// missing to the target at the start if that is less; and donors were
/// asked to move exactly that much into custody, never the sum offered.
pub proof fn lemma_cap(c: Campaign, ops: Seq<Operation>)
    requires
        c.well_formed(),
        !run(c, ops).is_finalized,
    ensures
        run(c, ops).funds - c.funds == min(offered(ops), c.target - c.funds),
        collected(c, ops) == min(offered(ops), c.target - c.funds),
    decreases ops.len(),
{
    if ops.len() > 0 {
        let before = run(c, ops.drop_last());
        lemma_apply_keeps_invariant(before, ops.last());
        lemma_run_keeps_invariant(c, ops.drop_last());
        lemma_cap(c, ops.drop_last());
    }
}

/// The accounted funds follow the movements and nothing else: at the end
/// of any history they are what they were at its start, plus all that
/// donors were asked to move into custody, less all that was paid out to
/// the beneficiary. So custody that held at least the accounted funds at
/// the start holds at least the accounted funds ever after.
pub proof fn lemma_accounts_reconcile(c: Campaign, ops: Seq<Operation>)
    ensures
        run(c, ops).funds == c.funds + collected(c, ops) - paid_out(c, ops),
    decreases ops.len(),
{
    if ops.len() > 0 {
        lemma_accounts_reconcile(c, ops.drop_last());
    }
}

/// Only the beneficiary settles: a request by anyone else is refused with
/// `Unauthorized`, whatever the state of the campaign, and leaves the
/// record as it was.
pub proof fn lemma_stranger_cannot_settle(c: Campaign, caller: Identity, authority: Identity)
    requires
        caller != c.beneficiary,
    ensures
        settlement_refused(c, caller, authority) == Some(ErrorCode::Unauthorized),
        apply(c, Operation::Settle { caller, authority }) == c,
{
}

/// A contribution of zero is refused with `InvalidAmount`, whatever the
/// state of the campaign, and leaves the record as it was.
pub proof fn lemma_zero_contribution_refused(c: Campaign)
    ensures
        contribution_refused(c, 0) == Some(ErrorCode::InvalidAmount),
        apply(c, Operation::Contribute { amount: 0 }) == c,
{
}

} // verus!
