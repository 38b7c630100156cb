use vstd::prelude::*;

use crate::action::ActionKind;

verus! {

/// The closed set of domain-rule violations reported by the fallible
/// factories of this crate.
///
/// Every fallible constructor surfaces the first violated invariant as one of
/// these kinds and stops; none aggregates several violations, and none ever
/// returns a partially-valid value alongside an error.
#[derive(Debug, Clone, Copy, PartialEq, Eq, Structural)]
pub enum DomainError {
    /// A rank value outside `2..=14`.
    InvalidRank(u8),
    /// A seat number outside `1..=max` for the table it was checked against.
    InvalidSeatNo { max: u8, actual: u8 },
    /// A bet or raise declared without an amount.
    MissingActionAmount(ActionKind),
    /// A fold, check or call declared with an amount.
    UnexpectedActionAmount(ActionKind),
    /// A table configured outside the hard seat ceiling `2..=6`.
    InvalidMaxSeats(u8),
    /// A start threshold below 2 or above the table's own seat count.
    InvalidMinPlayersToStart,
    /// A big blind smaller than the small blind.
    InvalidBlindStructure,
    /// Fewer active seats than the table requires to start a hand.
    NotEnoughActiveSeats { minimum: u8, actual: usize },
    /// A seat roster longer than the table's seat count.
    TooManySeats { max: u8, actual: usize },
    /// Two roster entries claiming the same seat number.
    DuplicateSeat,
}

} // verus!
