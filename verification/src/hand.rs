use vstd::prelude::*;

use crate::cards::Card;
use crate::config::TableConfig;
use crate::error::DomainError;
use crate::seat::SeatNo;
use crate::seat::SeatState;
use crate::seat::SeatStatus;

verus! {

/// A betting round within a hand.
#[derive(Debug, Clone, Copy, PartialEq, Eq, Structural)]
pub enum Street {
    Preflop,
    Flop,
    Turn,
    River,
}

/// The stage a hand is in; `Betting` carries its street. Transitions between
/// phases are owned by the surrounding game engine, not by this crate.
#[derive(Debug, Clone, Copy, PartialEq, Eq, Structural)]
pub enum HandPhase {
    Dealing,
    Betting(Street),
    Showdown,
    Complete,
}

#[verifier::external_type_specification]
#[verifier::external_body]
pub struct ExUuid(uuid::Uuid);

/// Relies on uuid::Uuid's derived Clone: Uuid is a plain copyable value, so
/// the clone equals the original.
pub assume_specification[ <uuid::Uuid as core::clone::Clone>::clone ](u: &uuid::Uuid) -> (r:
    uuid::Uuid)
    ensures
        r == *u,
;

/// Relies on uuid::Uuid::new_v4 for a freshly generated identifier. Nothing
/// is promised of the value: it comes from the process's randomness.
#[verifier::external_body]
fn fresh_uuid() -> uuid::Uuid {
    uuid::Uuid::new_v4()
}

/// The number of roster entries whose status is active.
pub open spec fn count_active(seats: Seq<SeatState>) -> nat
    decreases seats.len(),
{
    if seats.len() == 0 {
        0
    } else {
        count_active(seats.drop_last()) + if seats.last().status == SeatStatus::Active {
            1nat
        } else {
            0nat
        }
    }
}

/// Whether two roster entries claim the same seat number.
pub open spec fn has_duplicate_seat(seats: Seq<SeatState>) -> bool {
    exists|i: int, j: int|
        0 <= i < j < seats.len() && (#[trigger] seats[i]).seat_no == (#[trigger] seats[j]).seat_no
}

/// The outcome `HandState::new` reports for a roster and a configuration:
/// the first failing check in the fixed order configuration validity,
/// active-seat count, roster length, duplicate seats — or success.
pub open spec fn spec_roster_check(seats: Seq<SeatState>, config: TableConfig) -> Result<
    (),
    DomainError,
> {
    if config.spec_validate() is Err {
        Err(config.spec_validate()->Err_0)
    } else if count_active(seats) < config.min_players_to_start {
        Err(DomainError::NotEnoughActiveSeats {
            minimum: config.min_players_to_start,
            actual: count_active(seats) as usize,
        })
    } else if seats.len() > config.max_seats {
        Err(DomainError::TooManySeats { max: config.max_seats, actual: seats.len() as usize })
    } else if has_duplicate_seat(seats) {
        Err(DomainError::DuplicateSeat)
    } else {
        Ok(())
    }
}

/// One hand's full snapshot: identifiers, positions, phase, pot, board and
/// the per-seat roster. Built only through `HandState::new`; subsequent
/// gameplay mutation belongs to the external betting engine, which owns the
/// value exclusively while it plays the hand.
#[derive(Debug, Clone, PartialEq, Eq)]
pub struct HandState {
    pub hand_id: uuid::Uuid,
    pub table_id: uuid::Uuid,
    pub hand_no: u64,
    pub button_seat: SeatNo,
    pub acting_seat: SeatNo,
    pub phase: HandPhase,
    pub pot: u32,
    pub board: Vec<Card>,
    pub seats: Vec<SeatState>,
}

/// Counts the roster entries whose status is active.
fn count_active_seats(seats: &Vec<SeatState>) -> (r: usize)
    ensures
        r == count_active(seats@),
{
    let mut count: usize = 0;
    let mut i: usize = 0;
    while i < seats.len()
        invariant
            i <= seats@.len(),
            count <= i,
            count == count_active(seats@.take(i as int)),
        decreases seats@.len() - i,
    {
        if seats[i].is_active() {
            count = count + 1;
        }
        i = i + 1;
        proof {
            assert(seats@.take(i as int).drop_last() =~= seats@.take(i as int - 1));
            assert(seats@.take(i as int).last() == seats@[i as int - 1]);
        }
    }
    proof {
        assert(seats@.take(seats@.len() as int) =~= seats@);
    }
    count
}

/// Whether any two roster entries claim the same seat number.
fn roster_has_duplicate(seats: &Vec<SeatState>) -> (r: bool)
    ensures
        r == has_duplicate_seat(seats@),
{
    let mut i: usize = 0;
    while i < seats.len()
        invariant
            i <= seats@.len(),
            forall|p: int, q: int|
                0 <= p < i && p < q < seats@.len() ==> (#[trigger] seats@[p]).seat_no != (
                #[trigger] seats@[q]).seat_no,
        decreases seats@.len() - i,
    {
        let mut j: usize = i + 1;
        while j < seats.len()
            invariant
                i < seats@.len(),
                i < j <= seats@.len(),
                forall|q: int|
                    i < q < j ==> seats@[i as int].seat_no != (#[trigger] seats@[q]).seat_no,
            decreases seats@.len() - j,
        {
            if seats[i].seat_no == seats[j].seat_no {
                return true;
            }
            j = j + 1;
        }
        i = i + 1;
    }
    false
}

impl HandState {
    /// Validates the configuration and the roster in a fixed order —
    /// configuration checks first, then the active-seat count against
    /// `min_players_to_start`, then the roster length against `max_seats`,
    /// then seat-number uniqueness — and reports the first failure verbatim.
    ///
    /// On success it opens the hand: a freshly generated `hand_id`, phase
    /// `Dealing`, an empty pot and board, and every other field stored as
    /// given. `config` is only consulted for validation; the snapshot does
    /// not retain it. Whether `button_seat` and `acting_seat` occur in the
    /// roster is deliberately not checked here: that discipline is left to
    /// the engine driving the hand.
    pub fn new(
        table_id: uuid::Uuid,
        hand_no: u64,
        button_seat: SeatNo,
        acting_seat: SeatNo,
        seats: Vec<SeatState>,
        config: &TableConfig,
    ) -> (r: Result<Self, DomainError>)
        ensures
            r is Ok <==> spec_roster_check(seats@, *config) is Ok,
            r matches Err(e) ==> spec_roster_check(seats@, *config) == Err::<(), DomainError>(e),
            r matches Ok(h) ==> h.table_id == table_id && h.hand_no == hand_no && h.button_seat
                == button_seat && h.acting_seat == acting_seat && h.phase == HandPhase::Dealing
                && h.pot == 0 && h.board@ == Seq::<Card>::empty() && h.seats@ == seats@,
    {
        match config.validate() {
            Ok(()) => {},
            Err(e) => {
                return Err(e);
            },
        }

        let active_count = count_active_seats(&seats);
        if active_count < config.min_players_to_start as usize {
            return Err(DomainError::NotEnoughActiveSeats {
                minimum: config.min_players_to_start,
                actual: active_count,
            });
        }

        if seats.len() > config.max_seats as usize {
            return Err(DomainError::TooManySeats {
                max: config.max_seats,
                actual: seats.len(),
            });
        }

        if roster_has_duplicate(&seats) {
            return Err(DomainError::DuplicateSeat);
        }

        Ok(Self {
            hand_id: fresh_uuid(),
            table_id,
            hand_no,
            button_seat,
            acting_seat,
            phase: HandPhase::Dealing,
            pot: 0,
            board: Vec::with_capacity(5),
            seats,
        })
    }
}

} // verus!
