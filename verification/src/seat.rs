use vstd::prelude::*;

use crate::error::DomainError;

verus! {

/// A bounds-checked seat number.
///
/// Validity is always relative to a specific table's seat count, never to a
/// global constant: the factory takes the table's `max_seats` alongside the
/// candidate value.
#[derive(Debug, Clone, Copy, PartialEq, Eq, PartialOrd, Ord, Hash, Structural)]
pub struct SeatNo(u8);

impl SeatNo {
    /// The numeric seat number this identifier carries.
    pub closed spec fn spec_value(self) -> u8 {
        self.0
    }

    /// Accepts `value` iff `1 <= value <= max_seats`.
    pub fn new(value: u8, max_seats: u8) -> (r: Result<Self, DomainError>)
        ensures
            r is Ok <==> 1 <= value <= max_seats,
            r matches Ok(n) ==> n.spec_value() == value,
            r matches Err(e) ==> e == (DomainError::InvalidSeatNo {
                max: max_seats,
                actual: value,
            }),
    {
        if value == 0 || value > max_seats {
            Err(DomainError::InvalidSeatNo { max: max_seats, actual: value })
        } else {
            Ok(Self(value))
        }
    }

    /// The numeric seat number.
    pub fn value(self) -> (r: u8)
        ensures
            r == self.spec_value(),
    {
        self.0
    }
}

/// A seat's participation state; transitions between these states are owned
/// by the surrounding game engine, not by this crate.
#[derive(Debug, Clone, Copy, PartialEq, Eq, Structural)]
pub enum SeatStatus {
    Active,
    SittingOut,
    Busted,
}

/// Per-seat game data: identity, chips behind, chips committed during the
/// current betting round, and participation status.
#[derive(Debug, Clone, PartialEq, Eq)]
pub struct SeatState {
    pub seat_no: SeatNo,
    pub stack: u32,
    pub committed_in_round: u32,
    pub status: SeatStatus,
}

impl SeatState {
    /// Seats a player: the given stack behind, nothing committed yet, status
    /// active. Total; the seat number was already validated by `SeatNo::new`.
    pub fn new(seat_no: SeatNo, stack: u32) -> (r: Self)
        ensures
            r == (SeatState {
                seat_no,
                stack,
                committed_in_round: 0u32,
                status: SeatStatus::Active,
            }),
    {
        Self { seat_no, stack, committed_in_round: 0, status: SeatStatus::Active }
    }

    /// Whether this seat is currently eligible to act.
    pub fn is_active(&self) -> (r: bool)
        ensures
            r == (self.status == SeatStatus::Active),
    {
        self.status == SeatStatus::Active
    }
}

} // verus!
