use vstd::prelude::*;

use crate::error::DomainError;

verus! {

/// The category of a player's declared move.
#[derive(Debug, Clone, Copy, PartialEq, Eq, Hash, Structural)]
pub enum ActionKind {
    Fold,
    Check,
    Call,
    Bet,
    Raise,
}

impl ActionKind {
    /// Whether this kind of action must be paired with an amount.
    pub open spec fn needs_amount(self) -> bool {
        self == ActionKind::Bet || self == ActionKind::Raise
    }
}

/// A player's declared move: a kind paired with an amount exactly when the
/// kind calls for one.
///
/// No further semantics (such as an amount against a stack) are checked here;
/// that belongs to the betting engine consuming these values.
#[derive(Debug, Clone, Copy, PartialEq, Eq)]
pub struct Action {
    pub kind: ActionKind,
    pub amount: Option<u32>,
}

impl Action {
    /// Pairing invariant: an amount is present iff the kind is a bet or raise.
    pub open spec fn wf(self) -> bool {
        self.kind.needs_amount() <==> self.amount is Some
    }

    /// Accepts the pair iff a bet or raise comes with an amount and any other
    /// kind comes without one; on success the pair is stored unchanged.
    pub fn new(kind: ActionKind, amount: Option<u32>) -> (r: Result<Self, DomainError>)
        ensures
            r is Ok <==> (kind.needs_amount() <==> amount is Some),
            r matches Ok(a) ==> a == (Action { kind, amount }) && a.wf(),
            kind.needs_amount() && amount is None ==> r == Err::<Action, DomainError>(
                DomainError::MissingActionAmount(kind),
            ),
            !kind.needs_amount() && amount is Some ==> r == Err::<Action, DomainError>(
                DomainError::UnexpectedActionAmount(kind),
            ),
    {
        let needs_amount = matches!(kind, ActionKind::Bet | ActionKind::Raise);

        if needs_amount && amount.is_none() {
            return Err(DomainError::MissingActionAmount(kind));
        }

        if !needs_amount && amount.is_some() {
            return Err(DomainError::UnexpectedActionAmount(kind));
        }

        Ok(Self { kind, amount })
    }
}

} // verus!
