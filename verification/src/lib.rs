//! Validated value model for a poker-style table/hand domain.
//!
//! Every entity with invariants is built through a fallible factory, so that
//! any value observable by callers is already valid: card ranks lie in
//! `2..=14`, decks hold exactly the 52 distinct cards, actions pair their kind
//! with an amount exactly when one is required, seat numbers respect a table's
//! seat count, and a hand snapshot is only created from a roster that passes
//! the table configuration's cross-field checks.

pub mod action;
pub mod cards;
pub mod config;
pub mod error;
pub mod hand;
pub mod seat;

pub use action::Action;
pub use action::ActionKind;
pub use cards::Card;
pub use cards::Deck;
pub use cards::Rank;
pub use cards::Suit;
pub use config::TableConfig;
pub use error::DomainError;
pub use hand::HandPhase;
pub use hand::HandState;
pub use hand::Street;
pub use seat::SeatNo;
pub use seat::SeatState;
pub use seat::SeatStatus;
