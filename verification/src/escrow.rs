//! Moving value between two balances.

use vstd::prelude::*;
use crate::errors::Errors;

verus! {

/// Whether `amount` can leave a balance of `from` and reach a balance of `to`
/// with both staying in range.
pub open spec fn can_move(from: nat, to: nat, amount: nat) -> bool {
    amount <= from && to + amount <= u64::MAX
}

/// Moves `amount` from one balance to another and returns the two new
/// balances, the source first. Nothing is created or destroyed: what leaves
/// the one reaches the other. A move that would take the source below zero or
/// the destination out of range is rejected.
pub fn transfer(from: u64, to: u64, amount: u64) -> (res: Result<(u64, u64), Errors>)
    ensures
        can_move(from as nat, to as nat, amount as nat) ==> res == Ok::<(u64, u64), Errors>(
            ((from - amount) as u64, (to + amount) as u64),
        ),
        !can_move(from as nat, to as nat, amount as nat) ==> res == Err::<(u64, u64), Errors>(
            Errors::ArithmeticOverflow,
        ),
        res matches Ok((left, arrived)) ==> left + arrived == from + to,
{
    match from.checked_sub(amount) {
        Some(left) => match to.checked_add(amount) {
            Some(arrived) => Ok((left, arrived)),
            None => Err(Errors::ArithmeticOverflow),
        },
        None => Err(Errors::ArithmeticOverflow),
    }
}

} // verus!
