//! Taking a donation back from a campaign that ended short of its goal.

use vstd::prelude::*;
use crate::campaign::{Campaign, CampaignView};
use crate::contribution::{Contribution, ContributionView};
use crate::errors::Errors;
use crate::escrow::{can_move, transfer};
use crate::identity::Identity;

verus! {

/// What a refund works on: the caller and the caller's balance, the campaign
/// with its key and its escrow balance, and the caller's contribution record
/// for this campaign, if there is one.
#[derive(Clone, Debug, PartialEq, Eq)]
pub struct CancelDonation {
    pub admin: Identity,
    pub admin_balance: u64,
    pub campaign_key: Identity,
    pub campaign: Campaign,
    pub escrow: u64,
    pub contribution: Option<Contribution>,
}

/// A refund's context as the rules see it.
pub struct CancelDonationView {
    pub admin: Seq<u8>,
    pub admin_balance: nat,
    pub campaign_key: Seq<u8>,
    pub campaign: CampaignView,
    pub escrow: nat,
    pub contribution: Option<ContributionView>,
}

impl View for CancelDonation {
    type V = CancelDonationView;

    open spec fn view(&self) -> CancelDonationView {
        CancelDonationView {
            admin: self.admin@,
            admin_balance: self.admin_balance as nat,
            campaign_key: self.campaign_key@,
            campaign: self.campaign@,
            escrow: self.escrow as nat,
            contribution: match self.contribution {
                Some(c) => Some(c@),
                None => None,
            },
        }
    }
}

impl CancelDonationView {
    /// Whether there is a contribution record and it is the caller's record
    /// for this campaign.
    pub open spec fn record_is_callers(self) -> bool {
        self.contribution matches Some(c) && c.campaign == self.campaign_key && c.contributor
            == self.admin
    }

    /// What the record says the caller has pledged.
    pub open spec fn pledged(self) -> nat {
        match self.contribution {
            Some(c) => c.amount,
            None => 0,
        }
    }

    /// The reason for which a refund at time `now` is rejected, if it is.
    /// Only a contributor may take a donation back, only after the window has
    /// closed, and only from a campaign that has not reached its goal. The
    /// guards are tried in this order.
    pub open spec fn rejection(self, now: int) -> Option<Errors> {
        if !self.record_is_callers() {
            Some(Errors::Unauthorized)
        } else if now <= self.campaign.end_time {
            Some(Errors::NotExpired)
        } else if self.campaign.funding_complete {
            Some(Errors::AlreadyFunded)
        } else if !can_move(self.escrow, self.admin_balance, self.pledged()) {
            Some(Errors::ArithmeticOverflow)
        } else if self.pledged() > self.campaign.total_raised {
            Some(Errors::ArithmeticOverflow)
        } else {
            None
        }
    }

    /// The context after the refund: exactly what the record held has moved
    /// from the escrow back to the caller, the campaign's total has gone down
    /// by as much, and the record is gone.
    pub open spec fn refunded(self) -> CancelDonationView {
        CancelDonationView {
            admin_balance: self.admin_balance + self.pledged(),
            escrow: (self.escrow - self.pledged()) as nat,
            campaign: CampaignView {
                total_raised: (self.campaign.total_raised - self.pledged()) as nat,
                ..self.campaign
            },
            contribution: None,
            ..self
        }
    }
}

/// Takes the caller's donation back at time `now`.
///
/// The window has closed only after `end_time`: at `end_time` itself it is
/// still open. A rejected refund changes nothing.
pub fn cancel_donation(ctx: &mut CancelDonation, now: i64) -> (res: Result<(), Errors>)
    ensures
        match old(ctx)@.rejection(now as int) {
            Some(e) => res == Err::<(), Errors>(e) && *final(ctx) == *old(ctx),
            None => res is Ok && final(ctx)@ == old(ctx)@.refunded(),
        },
        final(ctx).admin_balance + final(ctx).escrow == old(ctx).admin_balance + old(ctx).escrow,
        old(ctx).campaign.funding_complete ==> res is Err,
        res is Ok ==> final(ctx).admin_balance == old(ctx).admin_balance + old(ctx)@.pledged(),
        old(ctx).campaign@.wf() ==> final(ctx).campaign@.wf(),
        final(ctx).campaign.funding_complete == old(ctx).campaign.funding_complete,
{
    let pledged: u64 = match ctx.contribution {
        Some(c) => {
            if !(c.campaign == ctx.campaign_key) || !(c.contributor == ctx.admin) {
                return Err(Errors::Unauthorized);
            }
            c.amount
        },
        None => { return Err(Errors::Unauthorized); },
    };
    if now <= ctx.campaign.end_time {
        return Err(Errors::NotExpired);
    }
    if ctx.campaign.funding_complete {
        return Err(Errors::AlreadyFunded);
    }
    let (escrow, admin_balance) = match transfer(ctx.escrow, ctx.admin_balance, pledged) {
        Ok(moved) => moved,
        Err(e) => { return Err(e); },
    };
    let total_raised: u64 = match ctx.campaign.total_raised.checked_sub(pledged) {
        Some(t) => t,
        None => { return Err(Errors::ArithmeticOverflow); },
    };
    ctx.escrow = escrow;
    ctx.admin_balance = admin_balance;
    ctx.campaign.total_raised = total_raised;
    ctx.contribution = None;
    Ok(())
}

} // verus!
