//! Donating to an open campaign.

use vstd::prelude::*;
use crate::campaign::{Campaign, CampaignView};
use crate::contribution::{Contribution, ContributionView};
use crate::errors::Errors;
use crate::escrow::{can_move, transfer};
use crate::identity::Identity;

verus! {

/// What a donation works on: the donor and the donor's balance, the campaign
/// with its key and its escrow balance, and the donor's contribution record
/// for this campaign, if there is one yet.
#[derive(Clone, Debug, PartialEq, Eq)]
pub struct Donate {
    pub signer: Identity,
    pub signer_balance: u64,
    pub campaign_key: Identity,
    pub campaign: Campaign,
    pub escrow: u64,
    pub contribution: Option<Contribution>,
}

/// A donation's context as the rules see it.
pub struct DonateView {
    pub signer: Seq<u8>,
    pub signer_balance: nat,
    pub campaign_key: Seq<u8>,
    pub campaign: CampaignView,
    pub escrow: nat,
    pub contribution: Option<ContributionView>,
}

impl View for Donate {
    type V = DonateView;

    open spec fn view(&self) -> DonateView {
        DonateView {
            signer: self.signer@,
            signer_balance: self.signer_balance as nat,
            campaign_key: self.campaign_key@,
            campaign: self.campaign@,
            escrow: self.escrow as nat,
            contribution: match self.contribution {
                Some(c) => Some(c@),
                None => None,
            },
        }
    }
}

impl CampaignView {
    /// What the campaign still needs to reach its goal.
    pub open spec fn remaining(self) -> nat {
        (self.goal - self.total_raised) as nat
    }

    /// How much of a requested donation is taken: the request, but never more
    /// than the campaign still needs.
    pub open spec fn applied(self, amount: nat) -> nat {
        if amount > self.remaining() {
            self.remaining()
        } else {
            amount
        }
    }

    /// The campaign after `applied` more has been raised. The completion flag
    /// is set in the same step in which the goal is reached.
    pub open spec fn with_donation(self, applied: nat) -> CampaignView {
        CampaignView {
            total_raised: self.total_raised + applied,
            funding_complete: self.funding_complete || self.total_raised + applied >= self.goal,
            ..self
        }
    }
}

impl DonateView {
    /// What the donor has pledged to the campaign so far.
    pub open spec fn pledged(self) -> nat {
        match self.contribution {
            Some(c) => c.amount,
            None => 0,
        }
    }

    /// Whether the contribution record, if there is one, is the donor's record
    /// for this campaign.
    pub open spec fn record_is_donors(self) -> bool {
        self.contribution matches Some(c) ==> c.campaign == self.campaign_key && c.contributor
            == self.signer
    }

    /// The reason for which a donation of `amount` at time `now` is rejected,
    /// if it is. The guards are tried in this order.
    pub open spec fn rejection(self, now: int, amount: nat) -> Option<Errors> {
        let applied = self.campaign.applied(amount);
        if !self.record_is_donors() {
            Some(Errors::Unauthorized)
        } else if now < self.campaign.start_time {
            Some(Errors::NotYetOpen)
        } else if now > self.campaign.end_time {
            Some(Errors::WindowClosed)
        } else if self.campaign.funding_complete {
            Some(Errors::AlreadyFunded)
        } else if amount == 0 {
            Some(Errors::InvalidAmount)
        } else if self.campaign.total_raised > self.campaign.goal {
            Some(Errors::ArithmeticOverflow)
        } else if !can_move(self.signer_balance, self.escrow, applied) {
            Some(Errors::ArithmeticOverflow)
        } else if self.pledged() + applied > u64::MAX {
            Some(Errors::ArithmeticOverflow)
        } else {
            None
        }
    }

    /// The context after a donation of `amount` has been accepted: the applied
    /// amount has moved from the donor to the escrow, and the campaign and the
    /// donor's record have both grown by it.
    pub open spec fn accepted(self, amount: nat) -> DonateView {
        let applied = self.campaign.applied(amount);
        DonateView {
            signer_balance: (self.signer_balance - applied) as nat,
            escrow: self.escrow + applied,
            campaign: self.campaign.with_donation(applied),
            contribution: Some(
                ContributionView {
                    campaign: self.campaign_key,
                    contributor: self.signer,
                    amount: self.pledged() + applied,
                },
            ),
            ..self
        }
    }
}

/// Donates `amount` to the campaign at time `now`.
///
/// The window is open from `start_time` to `end_time`, both included. A
/// donation is taken only up to what the campaign still needs; the surplus
/// stays with the donor. The donor's record is created by the first donation.
/// A rejected donation changes nothing.
pub fn donate(ctx: &mut Donate, now: i64, amount: u64) -> (res: Result<(), Errors>)
    ensures
        match old(ctx)@.rejection(now as int, amount as nat) {
            Some(e) => res == Err::<(), Errors>(e) && *final(ctx) == *old(ctx),
            None => res is Ok && final(ctx)@ == old(ctx)@.accepted(amount as nat),
        },
        final(ctx).signer_balance + final(ctx).escrow == old(ctx).signer_balance + old(
            ctx,
        ).escrow,
        res is Ok ==> final(ctx).campaign.total_raised <= final(ctx).campaign.goal,
        res is Ok ==> (final(ctx).campaign.funding_complete <==> final(ctx).campaign.total_raised
            == final(ctx).campaign.goal),
        old(ctx).campaign@.wf() ==> final(ctx).campaign@.wf(),
        old(ctx).campaign.funding_complete ==> final(ctx).campaign.funding_complete,
{
    let pledged: u64 = match ctx.contribution {
        Some(c) => {
            if !(c.campaign == ctx.campaign_key) || !(c.contributor == ctx.signer) {
                return Err(Errors::Unauthorized);
            }
            c.amount
        },
        None => 0,
    };
    if now < ctx.campaign.start_time {
        return Err(Errors::NotYetOpen);
    }
    if now > ctx.campaign.end_time {
        return Err(Errors::WindowClosed);
    }
    if ctx.campaign.funding_complete {
        return Err(Errors::AlreadyFunded);
    }
    if amount == 0 {
        return Err(Errors::InvalidAmount);
    }
    let remaining: u64 = match ctx.campaign.goal.checked_sub(ctx.campaign.total_raised) {
        Some(r) => r,
        None => { return Err(Errors::ArithmeticOverflow); },
    };
    let applied: u64 = if amount > remaining { remaining } else { amount };
    let (signer_balance, escrow) = match transfer(ctx.signer_balance, ctx.escrow, applied) {
        Ok(moved) => moved,
        Err(e) => { return Err(e); },
    };
    let new_pledge: u64 = match pledged.checked_add(applied) {
        Some(p) => p,
        None => { return Err(Errors::ArithmeticOverflow); },
    };
    ctx.signer_balance = signer_balance;
    ctx.escrow = escrow;
    ctx.campaign.total_raised = ctx.campaign.total_raised + applied;
    if ctx.campaign.total_raised >= ctx.campaign.goal {
        ctx.campaign.funding_complete = true;
    }
    ctx.contribution = Some(
        Contribution { campaign: ctx.campaign_key, contributor: ctx.signer, amount: new_pledge },
    );
    Ok(())
}

} // verus!
