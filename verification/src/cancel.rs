//! Cancelling a campaign before it starts.

use vstd::prelude::*;
use crate::campaign::{Campaign, CampaignView};
use crate::errors::Errors;
use crate::identity::Identity;

verus! {

/// What a cancellation works on: the caller, and the campaign record as the
/// store holds it. A record that is absent stands for a campaign that was
/// cancelled, or never created.
#[derive(Clone, Debug, PartialEq, Eq)]
pub struct CancelCampaign {
    pub admin: Identity,
    pub campaign: Option<Campaign>,
}

/// A cancellation's context as the rules see it.
pub struct CancelCampaignView {
    pub admin: Seq<u8>,
    pub campaign: Option<CampaignView>,
}

impl View for CancelCampaign {
    type V = CancelCampaignView;

    open spec fn view(&self) -> CancelCampaignView {
        CancelCampaignView {
            admin: self.admin@,
            campaign: match self.campaign {
                Some(c) => Some(c@),
                None => None,
            },
        }
    }
}

impl CancelCampaignView {
    /// The reason for which a cancellation at time `now` is rejected, if it
    /// is. Only the owner may cancel, and only before the window opens: at
    /// `start_time` itself it is too late.
    pub open spec fn rejection(self, now: int) -> Option<Errors> {
        match self.campaign {
            None => Some(Errors::Unauthorized),
            Some(c) => if c.owner != self.admin {
                Some(Errors::Unauthorized)
            } else if now >= c.start_time {
                Some(Errors::AlreadyStarted)
            } else {
                None
            },
        }
    }

    /// The context after the cancellation: the record is gone.
    pub open spec fn cancelled(self) -> CancelCampaignView {
        CancelCampaignView { campaign: None, ..self }
    }
}

/// Cancels the campaign at time `now`.
///
/// A cancelled campaign is closed: its record is removed and no value moves.
/// A rejected cancellation changes nothing.
pub fn cancel_campaign(ctx: &mut CancelCampaign, now: i64) -> (res: Result<(), Errors>)
    ensures
        match old(ctx)@.rejection(now as int) {
            Some(e) => res == Err::<(), Errors>(e) && *final(ctx) == *old(ctx),
            None => res is Ok && final(ctx)@ == old(ctx)@.cancelled(),
        },
{
    match &ctx.campaign {
        None => { return Err(Errors::Unauthorized); },
        Some(c) => {
            if !(c.owner == ctx.admin) {
                return Err(Errors::Unauthorized);
            }
            if now >= c.start_time {
                return Err(Errors::AlreadyStarted);
            }
        },
    }
    ctx.campaign = None;
    Ok(())
}

} // verus!
