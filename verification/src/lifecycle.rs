//! The phases that a campaign passes through, and which operation is open in which.

use vstd::prelude::*;
use crate::campaign::CampaignView;
use crate::cancel::CancelCampaignView;
use crate::claim::ClaimDonationView;
use crate::donate::DonateView;
use crate::ledger::{Event, Ledger};
use crate::refund::CancelDonationView;

verus! {

/// Where a campaign stands.
pub enum Phase {
    /// Created, and its window has not opened yet.
    Pending,
    /// Its window is open and its goal is not reached.
    Open,
    /// Its goal is reached and its funds are still in escrow.
    Funded,
    /// Its funds went to its owner.
    Claimed,
    /// Its window closed before its goal was reached.
    ExpiredUnfunded,
    /// Its record is gone.
    Cancelled,
}

impl CampaignView {
    /// Where the campaign stands at time `now`. The flags decide first, the
    /// time second.
    pub open spec fn phase(self, now: int) -> Phase {
        if self.funds_claimed {
            Phase::Claimed
        } else if self.funding_complete {
            Phase::Funded
        } else if now < self.start_time {
            Phase::Pending
        } else if now <= self.end_time {
            Phase::Open
        } else {
            Phase::ExpiredUnfunded
        }
    }
}

/// Where the campaign of a record slot stands at time `now`.
pub open spec fn phase_of(record: Option<CampaignView>, now: int) -> Phase {
    match record {
        Some(campaign) => campaign.phase(now),
        None => Phase::Cancelled,
    }
}

/// A donation is accepted only by an open campaign, and leaves it open or funded.
pub proof fn lemma_donation_needs_open(ctx: DonateView, now: int, amount: nat)
    requires
        ctx.campaign.wf(),
        ctx.rejection(now, amount) is None,
    ensures
        ctx.campaign.phase(now) == Phase::Open,
        ctx.accepted(amount).campaign.phase(now) == (if ctx.campaign.applied(amount)
            == ctx.campaign.remaining() {
            Phase::Funded
        } else {
            Phase::Open
        }),
{
}

/// A claim is accepted only by a funded campaign, and leaves it claimed.
pub proof fn lemma_claim_needs_funded(ctx: ClaimDonationView, now: int)
    requires
        ctx.rejection() is None,
    ensures
        ctx.campaign.phase(now) == Phase::Funded,
        ctx.claimed().campaign.phase(now) == Phase::Claimed,
{
}

/// A refund is accepted only by a campaign that expired short of its goal,
/// and leaves it so.
pub proof fn lemma_refund_needs_expired(ctx: CancelDonationView, now: int)
    requires
        ctx.campaign.wf(),
        ctx.rejection(now) is None,
    ensures
        ctx.campaign.phase(now) == Phase::ExpiredUnfunded,
        ctx.refunded().campaign.phase(now) == Phase::ExpiredUnfunded,
{
}

/// A cancellation is accepted only before the window opens, and leaves the
/// campaign cancelled. A campaign that has raised nothing is then pending.
pub proof fn lemma_cancellation_needs_pending(ctx: CancelCampaignView, now: int)
    requires
        ctx.rejection(now) is None,
    ensures
        ctx.campaign matches Some(campaign) && now < campaign.start_time && (campaign.wf()
            && campaign.total_raised == 0 ==> phase_of(ctx.campaign, now) == Phase::Pending),
        phase_of(ctx.cancelled().campaign, now) == Phase::Cancelled,
{
}

/// Whether every donation among the events is asked for before `time`.
pub open spec fn donations_before(events: Seq<Event>, time: int) -> bool {
    forall|i: int|
        0 <= i < events.len() ==> (#[trigger] events[i] matches Event::Donate { now, .. } ==> now
            < time)
}

/// Before its window opens a campaign raises nothing: whatever is asked of
/// the ledger of a new campaign, as long as every donation comes before the
/// start, nothing is raised, the escrow is empty and nobody has pledged. So
/// a cancellation has no value to move.
pub proof fn lemma_nothing_raised_before_start(
    key: Seq<u8>,
    campaign: CampaignView,
    events: Seq<Event>,
)
    requires
        campaign.wf(),
        campaign.total_raised == 0,
        donations_before(events, campaign.start_time),
    ensures
        Ledger::opened(key, campaign).run(events) == Ledger::opened(key, campaign),
    decreases events.len(),
{
    let opened = Ledger::opened(key, campaign);
    if events.len() > 0 {
        let earlier = events.drop_last();
        assert forall|i: int| 0 <= i < earlier.len() implies (#[trigger] earlier[i] matches Event::Donate {
            now,
            ..
        } ==> now < campaign.start_time) by {
            assert(earlier[i] == events[i]);
        }
        lemma_nothing_raised_before_start(key, campaign, earlier);
        assert(opened.run(earlier) == opened);
        assert(opened.pledges.dom() =~= Set::<Seq<u8>>::empty());
        match events.last() {
            Event::Donate { donor, balance, now, amount } => {
                assert(events[events.len() - 1] == events.last());
                assert(now < campaign.start_time);
            },
            Event::Claim { caller, balance } => {},
            Event::Refund { caller, balance, now } => {},
        }
    }
}

} // verus!
