//! The reasons for which the ledger rejects an operation.

use vstd::prelude::*;

verus! {

/// Why an operation was rejected. A rejected operation changes nothing.
#[derive(Clone, Copy, Debug, PartialEq, Eq, Structural)]
pub enum Errors {
    /// At creation, the window starts in the past or does not end after its start.
    InvalidWindow,
    /// At creation, the goal is zero.
    InvalidGoal,
    /// A donation of zero.
    InvalidAmount,
    /// A donation before the window opens.
    NotYetOpen,
    /// A donation after the window has closed.
    WindowClosed,
    /// A campaign cancelled at or after its start.
    AlreadyStarted,
    /// A donation to, or a refund from, a campaign that has reached its goal.
    AlreadyFunded,
    /// A claim on a campaign that has not reached its goal.
    NotFunded,
    /// A claim on a campaign whose funds were claimed before.
    AlreadyClaimed,
    /// A refund while the window has not yet closed.
    NotExpired,
    /// The caller is not the owner, or not the contributor, that the operation asks for.
    Unauthorized,
    /// An amount or a balance would leave the range of its type.
    ArithmeticOverflow,
}

} // verus!
