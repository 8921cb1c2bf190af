//! The ledger of one campaign as a whole: the campaign, its escrow and every
//! contributor's pledge, and what holds of them whatever is asked of the ledger.
//!
//! The operations of this crate each work on the few records that they are
//! handed. This model puts the records of one campaign side by side, takes its
//! steps by the operations' own rules, and states what then holds of all of
//! them together.

use vstd::prelude::*;
use crate::campaign::CampaignView;
use crate::claim::ClaimDonationView;
use crate::contribution::ContributionView;
use crate::create::{created, creation_rejection};
use crate::donate::DonateView;
use crate::errors::Errors;
use crate::refund::CancelDonationView;

verus! {

/// The sum of all pledges.
pub open spec fn total_pledged(pledges: Map<Seq<u8>, nat>) -> nat
    decreases pledges.dom().len(),
    when pledges.dom().finite()
{
    if pledges.dom().len() == 0 {
        0
    } else {
        let who = pledges.dom().choose();
        pledges[who] + total_pledged(pledges.remove(who))
    }
}

/// The sum of all pledges is the pledge of any one contributor and the sum of
/// the others.
pub proof fn lemma_total_splits(pledges: Map<Seq<u8>, nat>, who: Seq<u8>)
    requires
        pledges.dom().finite(),
        pledges.dom().contains(who),
    ensures
        total_pledged(pledges) == pledges[who] + total_pledged(pledges.remove(who)),
    decreases pledges.dom().len(),
{
    let first = pledges.dom().choose();
    if first != who {
        let rest = pledges.remove(first);
        lemma_total_splits(rest, who);
        lemma_total_splits(pledges.remove(who), first);
        assert(rest.remove(who) =~= pledges.remove(who).remove(first));
    }
}

/// Setting one contributor's pledge gives the sum of the others and the new pledge.
pub proof fn lemma_total_with(pledges: Map<Seq<u8>, nat>, who: Seq<u8>, amount: nat)
    requires
        pledges.dom().finite(),
    ensures
        total_pledged(pledges.insert(who, amount)) == total_pledged(pledges.remove(who)) + amount,
{
    let set = pledges.insert(who, amount);
    lemma_total_splits(set, who);
    assert(set.remove(who) =~= pledges.remove(who));
}

/// One campaign with its escrow and the pledges made to it, each under its
/// contributor's identity.
pub struct Ledger {
    pub key: Seq<u8>,
    pub campaign: CampaignView,
    pub escrow: nat,
    pub pledges: Map<Seq<u8>, nat>,
}

/// Something asked of a ledger. A party comes with the balance that it holds
/// when it asks.
pub enum Event {
    Donate { donor: Seq<u8>, balance: nat, now: int, amount: nat },
    Claim { caller: Seq<u8>, balance: nat },
    Refund { caller: Seq<u8>, balance: nat, now: int },
}

impl Ledger {
    /// The ledger of a campaign that was just created: no escrow and no pledge.
    pub open spec fn opened(key: Seq<u8>, campaign: CampaignView) -> Ledger {
        Ledger { key, campaign, escrow: 0, pledges: Map::empty() }
    }

    /// What holds of a ledger at every point: the campaign is in order, the
    /// pledges add up to what the campaign has raised, and the escrow holds
    /// exactly that until it is claimed, and nothing afterwards.
    pub open spec fn wf(self) -> bool {
        &&& self.campaign.wf()
        &&& self.pledges.dom().finite()
        &&& total_pledged(self.pledges) == self.campaign.total_raised
        &&& self.escrow == if self.campaign.funds_claimed {
            0
        } else {
            self.campaign.total_raised
        }
    }

    /// The contribution record of `who`, if `who` has one.
    pub open spec fn record(self, who: Seq<u8>) -> Option<ContributionView> {
        if self.pledges.dom().contains(who) {
            Some(ContributionView { campaign: self.key, contributor: who, amount: self.pledges[who] })
        } else {
            None
        }
    }

    /// What a donation by `donor` works on.
    pub open spec fn donate_context(self, donor: Seq<u8>, balance: nat) -> DonateView {
        DonateView {
            signer: donor,
            signer_balance: balance,
            campaign_key: self.key,
            campaign: self.campaign,
            escrow: self.escrow,
            contribution: self.record(donor),
        }
    }

    /// What a claim by `caller` works on.
    pub open spec fn claim_context(self, caller: Seq<u8>, balance: nat) -> ClaimDonationView {
        ClaimDonationView {
            admin: caller,
            admin_balance: balance,
            campaign: self.campaign,
            escrow: self.escrow,
        }
    }

    /// What a refund to `caller` works on.
    pub open spec fn refund_context(self, caller: Seq<u8>, balance: nat) -> CancelDonationView {
        CancelDonationView {
            admin: caller,
            admin_balance: balance,
            campaign_key: self.key,
            campaign: self.campaign,
            escrow: self.escrow,
            contribution: self.record(caller),
        }
    }

    /// The ledger after a donation was asked for: changed as the donation
    /// says where it is accepted, and unchanged where it is rejected.
    pub open spec fn donate(self, donor: Seq<u8>, balance: nat, now: int, amount: nat) -> Ledger {
        let ctx = self.donate_context(donor, balance);
        if ctx.rejection(now, amount) is Some {
            self
        } else {
            let next = ctx.accepted(amount);
            Ledger {
                campaign: next.campaign,
                escrow: next.escrow,
                pledges: self.pledges.insert(donor, next.pledged()),
                ..self
            }
        }
    }

    /// The ledger after a claim was asked for.
    pub open spec fn claim(self, caller: Seq<u8>, balance: nat) -> Ledger {
        let ctx = self.claim_context(caller, balance);
        if ctx.rejection() is Some {
            self
        } else {
            let next = ctx.claimed();
            Ledger { campaign: next.campaign, escrow: next.escrow, ..self }
        }
    }

    /// The ledger after a refund was asked for.
    pub open spec fn refund(self, caller: Seq<u8>, balance: nat, now: int) -> Ledger {
        let ctx = self.refund_context(caller, balance);
        if ctx.rejection(now) is Some {
            self
        } else {
            let next = ctx.refunded();
            Ledger {
                campaign: next.campaign,
                escrow: next.escrow,
                pledges: self.pledges.remove(caller),
                ..self
            }
        }
    }

    /// The ledger after one event.
    pub open spec fn apply(self, event: Event) -> Ledger {
        match event {
            Event::Donate { donor, balance, now, amount } => self.donate(donor, balance, now, amount),
            Event::Claim { caller, balance } => self.claim(caller, balance),
            Event::Refund { caller, balance, now } => self.refund(caller, balance, now),
        }
    }

    /// The ledger after a sequence of events, the first one first.
    pub open spec fn run(self, events: Seq<Event>) -> Ledger
        decreases events.len(),
    {
        if events.len() == 0 {
            self
        } else {
            self.run(events.drop_last()).apply(events.last())
        }
    }
}

/// Every campaign that a creation brings about is in order, with nothing
/// raised and neither flag set, and the ledger that opens with it is in order.
pub proof fn lemma_creation_is_wf(
    key: Seq<u8>,
    owner: Seq<u8>,
    description: crate::campaign::Description,
    now: int,
    goal: nat,
    start_time: int,
    end_time: int,
)
    requires
        creation_rejection(now, goal, start_time, end_time) is None,
    ensures
        ({
            let campaign = created(owner, description, goal, start_time, end_time);
            &&& 0 < campaign.goal
            &&& campaign.start_time < campaign.end_time
            &&& now <= campaign.start_time
            &&& campaign.total_raised == 0
            &&& !campaign.funding_complete
            &&& !campaign.funds_claimed
            &&& campaign.wf()
            &&& Ledger::opened(key, campaign).wf()
        }),
{
    let campaign = created(owner, description, goal, start_time, end_time);
    assert(Ledger::opened(key, campaign).pledges.dom() =~= Set::<Seq<u8>>::empty());
}

/// A donation, accepted or not, keeps a ledger in order.
pub proof fn lemma_donate_keeps_wf(
    ledger: Ledger,
    donor: Seq<u8>,
    balance: nat,
    now: int,
    amount: nat,
)
    requires
        ledger.wf(),
    ensures
        ledger.donate(donor, balance, now, amount).wf(),
{
    let ctx = ledger.donate_context(donor, balance);
    if ctx.rejection(now, amount) is None {
        let pledged = ctx.accepted(amount).pledged();
        lemma_total_with(ledger.pledges, donor, pledged);
        if ledger.pledges.dom().contains(donor) {
            lemma_total_splits(ledger.pledges, donor);
        } else {
            assert(ledger.pledges.remove(donor) =~= ledger.pledges);
        }
    }
}

/// A claim, accepted or not, keeps a ledger in order.
pub proof fn lemma_claim_keeps_wf(ledger: Ledger, caller: Seq<u8>, balance: nat)
    requires
        ledger.wf(),
    ensures
        ledger.claim(caller, balance).wf(),
{
}

/// A refund, accepted or not, keeps a ledger in order.
pub proof fn lemma_refund_keeps_wf(ledger: Ledger, caller: Seq<u8>, balance: nat, now: int)
    requires
        ledger.wf(),
    ensures
        ledger.refund(caller, balance, now).wf(),
{
    let ctx = ledger.refund_context(caller, balance);
    if ctx.rejection(now) is None {
        lemma_total_splits(ledger.pledges, caller);
    }
}

/// Whatever is asked of a ledger that is in order, and in whatever sequence,
/// it stays in order: what was raised never exceeds the goal, the completion
/// flag is set exactly when the goal is reached, the pledges add up to what
/// was raised, and the escrow holds it until it is claimed.
pub proof fn lemma_run_keeps_wf(ledger: Ledger, events: Seq<Event>)
    requires
        ledger.wf(),
    ensures
        ledger.run(events).wf(),
        ledger.run(events).campaign.total_raised <= ledger.run(events).campaign.goal,
        ledger.run(events).campaign.funding_complete <==> ledger.run(events).campaign.total_raised
            == ledger.run(events).campaign.goal,
        total_pledged(ledger.run(events).pledges) == ledger.run(events).campaign.total_raised,
        !ledger.run(events).campaign.funds_claimed ==> ledger.run(events).escrow == ledger.run(
            events,
        ).campaign.total_raised,
    decreases events.len(),
{
    if events.len() > 0 {
        lemma_run_keeps_wf(ledger, events.drop_last());
        let before = ledger.run(events.drop_last());
        match events.last() {
            Event::Donate { donor, balance, now, amount } => {
                lemma_donate_keeps_wf(before, donor, balance, now, amount);
            },
            Event::Claim { caller, balance } => {
                lemma_claim_keeps_wf(before, caller, balance);
            },
            Event::Refund { caller, balance, now } => {
                lemma_refund_keeps_wf(before, caller, balance, now);
            },
        }
    }
}

/// No event changes a campaign's owner, goal, window or description.
pub proof fn lemma_run_keeps_terms(ledger: Ledger, events: Seq<Event>)
    ensures
        ledger.run(events).key == ledger.key,
        ledger.run(events).campaign.owner == ledger.campaign.owner,
        ledger.run(events).campaign.goal == ledger.campaign.goal,
        ledger.run(events).campaign.start_time == ledger.campaign.start_time,
        ledger.run(events).campaign.end_time == ledger.campaign.end_time,
        ledger.run(events).campaign.description == ledger.campaign.description,
    decreases events.len(),
{
    if events.len() > 0 {
        lemma_run_keeps_terms(ledger, events.drop_last());
    }
}

/// A donation that asks for more than an open campaign still needs is taken
/// up to the goal and no further: where it is accepted, the campaign has
/// raised exactly its goal and is complete in that same step. It is rejected
/// only where a balance or a pledge would leave its range.
pub proof fn lemma_surplus_is_never_taken(ctx: DonateView, now: int, surplus: nat)
    requires
        ctx.campaign.wf(),
        ctx.record_is_donors(),
        ctx.campaign.start_time <= now <= ctx.campaign.end_time,
        !ctx.campaign.funding_complete,
        surplus > 0,
    ensures
        ({
            let amount = ctx.campaign.remaining() + surplus;
            match ctx.rejection(now, amount) {
                None => {
                    &&& ctx.accepted(amount).campaign.total_raised == ctx.campaign.goal
                    &&& ctx.accepted(amount).campaign.funding_complete
                    &&& ctx.accepted(amount).escrow == ctx.escrow + ctx.campaign.remaining()
                    &&& ctx.accepted(amount).pledged() == ctx.pledged() + ctx.campaign.remaining()
                },
                Some(e) => e == Errors::ArithmeticOverflow,
            }
        }),
{
}

/// An accepted donation takes no more than was asked and no more than the
/// campaign needs. What it takes leaves the donor, reaches the escrow and is
/// added to the donor's pledge and to what the campaign has raised, all by the
/// same amount. The campaign is complete afterwards exactly if it has then
/// raised its goal.
pub proof fn lemma_donation_is_bounded(ctx: DonateView, now: int, amount: nat)
    requires
        ctx.rejection(now, amount) is None,
    ensures
        ctx.campaign.applied(amount) <= amount,
        ctx.campaign.applied(amount) <= ctx.campaign.remaining(),
        ctx.accepted(amount).signer_balance == ctx.signer_balance - ctx.campaign.applied(amount),
        ctx.accepted(amount).escrow == ctx.escrow + ctx.campaign.applied(amount),
        ctx.accepted(amount).pledged() == ctx.pledged() + ctx.campaign.applied(amount),
        ctx.accepted(amount).campaign.total_raised == ctx.campaign.total_raised
            + ctx.campaign.applied(amount),
        ctx.accepted(amount).campaign.total_raised <= ctx.campaign.goal,
        ctx.accepted(amount).campaign.funding_complete <==> ctx.accepted(
            amount,
        ).campaign.total_raised == ctx.campaign.goal,
{
}

/// A campaign that is complete stays complete, and one that is claimed stays
/// claimed, whatever is asked of its ledger afterwards.
pub proof fn lemma_flags_are_kept(ledger: Ledger, events: Seq<Event>)
    ensures
        ledger.campaign.funding_complete ==> ledger.run(events).campaign.funding_complete,
        ledger.campaign.funds_claimed ==> ledger.run(events).campaign.funds_claimed,
    decreases events.len(),
{
    if events.len() > 0 {
        lemma_flags_are_kept(ledger, events.drop_last());
    }
}

/// After an accepted claim the escrow is empty, and every later claim by
/// the owner is rejected as claimed already, whatever happened in between and
/// whatever the balances.
pub proof fn lemma_claim_is_once(
    ledger: Ledger,
    caller: Seq<u8>,
    balance: nat,
    events: Seq<Event>,
    later_balance: nat,
)
    requires
        ledger.wf(),
        ledger.claim_context(caller, balance).rejection() is None,
    ensures
        ledger.claim(caller, balance).escrow == 0,
        ledger.claim(caller, balance).campaign.funds_claimed,
        ledger.claim(caller, balance).run(events).claim_context(
            caller,
            later_balance,
        ).rejection() == Some(Errors::AlreadyClaimed),
        ledger.claim(caller, balance).run(events).escrow == 0,
{
    let claimed = ledger.claim(caller, balance);
    lemma_claim_keeps_wf(ledger, caller, balance);
    lemma_flags_are_kept(claimed, events);
    lemma_run_keeps_terms(claimed, events);
    lemma_run_keeps_wf(claimed, events);
}

/// A second claim, made right after an accepted one by the same caller, is
/// rejected as claimed already, whatever the balances then are.
pub proof fn lemma_second_claim_is_rejected(
    ctx: ClaimDonationView,
    later_balance: nat,
    later_escrow: nat,
)
    requires
        ctx.rejection() is None,
    ensures
        (ClaimDonationView {
            admin_balance: later_balance,
            escrow: later_escrow,
            ..ctx.claimed()
        }).rejection() == Some(Errors::AlreadyClaimed),
{
}

/// An accepted refund returns exactly what the contributor's record held:
/// the contributor has that much more, the escrow and the campaign's total
/// that much less, and the record is gone.
pub proof fn lemma_refund_is_exact(ledger: Ledger, caller: Seq<u8>, balance: nat, now: int)
    requires
        ledger.wf(),
        ledger.refund_context(caller, balance).rejection(now) is None,
    ensures
        ledger.pledges.dom().contains(caller),
        now > ledger.campaign.end_time,
        ledger.refund_context(caller, balance).refunded().admin_balance == balance
            + ledger.pledges[caller],
        ledger.refund(caller, balance, now).escrow == ledger.escrow - ledger.pledges[caller],
        ledger.refund(caller, balance, now).campaign.total_raised == ledger.campaign.total_raised
            - ledger.pledges[caller],
        !ledger.refund(caller, balance, now).pledges.dom().contains(caller),
{
}

/// Once a campaign is complete no refund is accepted, then or ever after.
pub proof fn lemma_no_refund_once_complete(
    ledger: Ledger,
    events: Seq<Event>,
    caller: Seq<u8>,
    balance: nat,
    now: int,
)
    requires
        ledger.campaign.funding_complete,
    ensures
        ledger.refund_context(caller, balance).rejection(now) is Some,
        ledger.run(events).refund_context(caller, balance).rejection(now) is Some,
        ledger.run(events).refund(caller, balance, now) == ledger.run(events),
{
    lemma_flags_are_kept(ledger, events);
}

} // verus!
