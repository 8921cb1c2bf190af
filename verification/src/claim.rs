//! Claiming the funds of a campaign that has reached its goal.

use vstd::prelude::*;
use crate::campaign::{Campaign, CampaignView};
use crate::errors::Errors;
use crate::escrow::{can_move, transfer};
use crate::identity::Identity;

verus! {

/// What a claim works on: the caller and the caller's balance, and the
/// campaign with its escrow balance.
#[derive(Clone, Debug, PartialEq, Eq)]
pub struct ClaimDonation {
    pub admin: Identity,
    pub admin_balance: u64,
    pub campaign: Campaign,
    pub escrow: u64,
}

/// A claim's context as the rules see it.
pub struct ClaimDonationView {
    pub admin: Seq<u8>,
    pub admin_balance: nat,
    pub campaign: CampaignView,
    pub escrow: nat,
}

impl View for ClaimDonation {
    type V = ClaimDonationView;

    open spec fn view(&self) -> ClaimDonationView {
        ClaimDonationView {
            admin: self.admin@,
            admin_balance: self.admin_balance as nat,
            campaign: self.campaign@,
            escrow: self.escrow as nat,
        }
    }
}

impl ClaimDonationView {
    /// The reason for which a claim is rejected, if it is. Only the owner may
    /// claim, only once the goal is reached, and only once. The guards are
    /// tried in this order.
    pub open spec fn rejection(self) -> Option<Errors> {
        if self.campaign.owner != self.admin {
            Some(Errors::Unauthorized)
        } else if !self.campaign.funding_complete {
            Some(Errors::NotFunded)
        } else if self.campaign.funds_claimed {
            Some(Errors::AlreadyClaimed)
        } else if !can_move(self.escrow, self.admin_balance, self.campaign.total_raised) {
            Some(Errors::ArithmeticOverflow)
        } else {
            None
        }
    }

    /// The context after the claim: all that was raised has moved from the
    /// escrow to the owner, and the campaign is marked as claimed.
    pub open spec fn claimed(self) -> ClaimDonationView {
        ClaimDonationView {
            admin_balance: self.admin_balance + self.campaign.total_raised,
            escrow: (self.escrow - self.campaign.total_raised) as nat,
            campaign: CampaignView { funds_claimed: true, ..self.campaign },
            ..self
        }
    }
}

/// Claims all that the campaign has raised for its owner.
///
/// A rejected claim changes nothing.
pub fn claim_donation(ctx: &mut ClaimDonation) -> (res: Result<(), Errors>)
    ensures
        match old(ctx)@.rejection() {
            Some(e) => res == Err::<(), Errors>(e) && *final(ctx) == *old(ctx),
            None => res is Ok && final(ctx)@ == old(ctx)@.claimed(),
        },
        final(ctx).admin_balance + final(ctx).escrow == old(ctx).admin_balance + old(ctx).escrow,
        old(ctx).campaign@.wf() ==> final(ctx).campaign@.wf(),
        old(ctx).campaign.funding_complete ==> final(ctx).campaign.funding_complete,
        old(ctx).campaign.funds_claimed ==> final(ctx).campaign.funds_claimed,
        res is Ok ==> !old(ctx).campaign.funds_claimed && final(ctx).campaign.funds_claimed,
{
    if !(ctx.campaign.owner == ctx.admin) {
        return Err(Errors::Unauthorized);
    }
    if !ctx.campaign.funding_complete {
        return Err(Errors::NotFunded);
    }
    if ctx.campaign.funds_claimed {
        return Err(Errors::AlreadyClaimed);
    }
    let (escrow, admin_balance) = match transfer(
        ctx.escrow,
        ctx.admin_balance,
        ctx.campaign.total_raised,
    ) {
        Ok(moved) => moved,
        Err(e) => { return Err(e); },
    };
    ctx.escrow = escrow;
    ctx.admin_balance = admin_balance;
    ctx.campaign.funds_claimed = true;
    Ok(())
}

} // verus!
