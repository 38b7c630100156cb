use vstd::prelude::*;

use crate::error::DomainError;

verus! {

/// Hard ceiling on `max_seats` for any table of this family, regardless of
/// configuration; also the baseline table's seat count.
pub const DEFAULT_MAX_SEATS: u8 = 6;

/// Baseline number of active seats required to start a hand.
pub const DEFAULT_MIN_PLAYERS_TO_START: u8 = 2;

/// Baseline stack a newly seated player starts with.
pub const DEFAULT_STARTING_STACK: u32 = 10_000;

/// Baseline small blind.
pub const DEFAULT_SMALL_BLIND: u32 = 50;

/// Baseline big blind.
pub const DEFAULT_BIG_BLIND: u32 = 100;

/// Baseline per-action timeout, consumed by an external scheduler.
pub const DEFAULT_ACTION_TIMEOUT_MS: u64 = 2_000;

/// Table-wide ruleset: seat count, start threshold, stakes and timeout.
///
/// Created once per table and treated as immutable; `HandState::new`
/// revalidates it every time a hand is built from it.
#[derive(Debug, Clone, PartialEq, Eq, Structural)]
pub struct TableConfig {
    pub max_seats: u8,
    pub min_players_to_start: u8,
    pub starting_stack: u32,
    pub small_blind: u32,
    pub big_blind: u32,
    pub action_timeout_ms: u64,
}

impl TableConfig {
    /// The outcome `validate` reports: the first failing check in the fixed
    /// order seat ceiling, start threshold, blind structure — or success.
    pub open spec fn spec_validate(self) -> Result<(), DomainError> {
        if !(2 <= self.max_seats <= DEFAULT_MAX_SEATS) {
            Err(DomainError::InvalidMaxSeats(self.max_seats))
        } else if self.min_players_to_start < 2 || self.min_players_to_start > self.max_seats {
            Err(DomainError::InvalidMinPlayersToStart)
        } else if self.big_blind < self.small_blind {
            Err(DomainError::InvalidBlindStructure)
        } else {
            Ok(())
        }
    }

    /// Whether all three cross-field checks pass.
    pub open spec fn wf(self) -> bool {
        self.spec_validate() is Ok
    }

    /// The fixed baseline configuration; always valid.
    pub fn default_v0() -> (r: Self)
        ensures
            r == (TableConfig {
                max_seats: DEFAULT_MAX_SEATS,
                min_players_to_start: DEFAULT_MIN_PLAYERS_TO_START,
                starting_stack: DEFAULT_STARTING_STACK,
                small_blind: DEFAULT_SMALL_BLIND,
                big_blind: DEFAULT_BIG_BLIND,
                action_timeout_ms: DEFAULT_ACTION_TIMEOUT_MS,
            }),
            r.wf(),
    {
        Self {
            max_seats: DEFAULT_MAX_SEATS,
            min_players_to_start: DEFAULT_MIN_PLAYERS_TO_START,
            starting_stack: DEFAULT_STARTING_STACK,
            small_blind: DEFAULT_SMALL_BLIND,
            big_blind: DEFAULT_BIG_BLIND,
            action_timeout_ms: DEFAULT_ACTION_TIMEOUT_MS,
        }
    }

    /// Runs the three cross-field checks in their fixed order and reports
    /// the first failure; later checks are not reached (short-circuit, never
    /// accumulate-all-errors).
    pub fn validate(&self) -> (r: Result<(), DomainError>)
        ensures
            r == self.spec_validate(),
    {
        if self.max_seats < 2 || self.max_seats > DEFAULT_MAX_SEATS {
            return Err(DomainError::InvalidMaxSeats(self.max_seats));
        }

        if self.min_players_to_start < 2 || self.min_players_to_start > self.max_seats {
            return Err(DomainError::InvalidMinPlayersToStart);
        }

        if self.big_blind < self.small_blind {
            return Err(DomainError::InvalidBlindStructure);
        }

        Ok(())
    }
}

} // verus!
