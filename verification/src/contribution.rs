//! The record of what one contributor has pledged to one campaign.

use vstd::prelude::*;
use crate::identity::Identity;

verus! {

/// One contributor's cumulative pledge to one campaign. The ledger holds at
/// most one such record for each pair of campaign and contributor.
#[derive(Clone, Copy, Debug, PartialEq, Eq)]
pub struct Contribution {
    pub campaign: Identity,
    pub contributor: Identity,
    pub amount: u64,
}

/// A contribution as the rules see it.
pub struct ContributionView {
    pub campaign: Seq<u8>,
    pub contributor: Seq<u8>,
    pub amount: nat,
}

impl View for Contribution {
    type V = ContributionView;

    open spec fn view(&self) -> ContributionView {
        ContributionView {
            campaign: self.campaign@,
            contributor: self.contributor@,
            amount: self.amount as nat,
        }
    }
}

} // verus!
