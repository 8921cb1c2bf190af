//! An escrow ledger for crowdfunding campaigns: the campaign and contribution
//! records, the rules by which they change, and the balance moves that go with them.

pub mod campaign;
pub mod cancel;
pub mod claim;
pub mod contribution;
pub mod create;
pub mod donate;
pub mod errors;
pub mod escrow;
pub mod identity;
pub mod ledger;
pub mod lifecycle;
pub mod refund;

pub use campaign::{Campaign, CampaignView, Description};
pub use cancel::{cancel_campaign, CancelCampaign, CancelCampaignView};
pub use claim::{claim_donation, ClaimDonation, ClaimDonationView};
pub use contribution::{Contribution, ContributionView};
pub use create::{create_campaign, CreateCampaign};
pub use donate::{donate, Donate, DonateView};
pub use errors::Errors;
pub use escrow::transfer;
pub use identity::Identity;
pub use ledger::{Event, Ledger};
pub use lifecycle::Phase;
pub use refund::{cancel_donation, CancelDonation, CancelDonationView};
