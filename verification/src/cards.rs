use vstd::prelude::*;

use crate::error::DomainError;

verus! {

/// A card suit.
#[derive(Debug, Clone, Copy, PartialEq, Eq, Hash, Structural)]
pub enum Suit {
    Clubs,
    Diamonds,
    Hearts,
    Spades,
}

/// A card rank; the only observable values are 2 (deuce) through 14 (ace).
#[derive(Debug, Clone, Copy, PartialEq, Eq, Hash, Structural)]
pub struct Rank(u8);

impl Rank {
    /// The numeric value this rank carries.
    pub closed spec fn spec_value(self) -> u8 {
        self.0
    }

    /// Range invariant: every rank handed out by `Rank::new` lies in `2..=14`.
    pub open spec fn wf(self) -> bool {
        2 <= self.spec_value() <= 14
    }

    /// Accepts `value` iff it lies in `2..=14`.
    pub fn new(value: u8) -> (r: Result<Self, DomainError>)
        ensures
            r is Ok <==> 2 <= value <= 14,
            r matches Ok(k) ==> k.spec_value() == value && k.wf(),
            r matches Err(e) ==> e == DomainError::InvalidRank(value),
    {
        if 2 <= value && value <= 14 {
            Ok(Self(value))
        } else {
            Err(DomainError::InvalidRank(value))
        }
    }

    /// The numeric value, in `2..=14` for any rank built by `Rank::new`.
    pub fn value(self) -> (r: u8)
        ensures
            r == self.spec_value(),
    {
        self.0
    }
}

/// A playing card: a rank and a suit.
#[derive(Debug, Clone, Copy, PartialEq, Eq, Hash, Structural)]
pub struct Card {
    pub rank: Rank,
    pub suit: Suit,
}

impl Card {
    /// Total constructor: pairs an already-validated rank with a suit.
    pub fn new(rank: Rank, suit: Suit) -> (r: Self)
        ensures
            r == (Card { rank, suit }),
    {
        Self { rank, suit }
    }
}

/// The suit dealt in block `b` of thirteen consecutive deck positions:
/// suit-major order clubs, diamonds, hearts, spades.
pub open spec fn suit_of_block(b: int) -> Suit {
    if b == 0 {
        Suit::Clubs
    } else if b == 1 {
        Suit::Diamonds
    } else if b == 2 {
        Suit::Hearts
    } else {
        Suit::Spades
    }
}

/// A full ordered 52-card deck: exactly one card for each (suit, rank) pair.
#[derive(Debug, Clone, PartialEq, Eq)]
pub struct Deck {
    cards: Vec<Card>,
}

impl View for Deck {
    type V = Seq<Card>;

    closed spec fn view(&self) -> Seq<Card> {
        self.cards@
    }
}

impl Deck {
    /// Deterministically enumerates all 52 cards: suits in blocks of thirteen
    /// positions in suit-major order, ranks ascending `2..=14` within each
    /// block. Never fails: the ranks it feeds to `Rank::new` are provably in
    /// range.
    pub fn standard_52() -> (r: Self)
        ensures
            r@.len() == 52,
            forall|i: int| 0 <= i < 52 ==> (#[trigger] r@[i]).suit == suit_of_block(i / 13),
            forall|i: int| 0 <= i < 52 ==> (#[trigger] r@[i]).rank.spec_value() == i % 13 + 2,
    {
        let mut cards: Vec<Card> = Vec::with_capacity(52);
        let mut i: usize = 0;
        while i < 52
            invariant
                i <= 52,
                cards@.len() == i,
                forall|j: int| 0 <= j < i ==> (#[trigger] cards@[j]).suit == suit_of_block(
                    j / 13,
                ),
                forall|j: int| 0 <= j < i ==> (#[trigger] cards@[j]).rank.spec_value() == j % 13
                    + 2,
            decreases 52 - i,
        {
            let block = i / 13;
            let suit = if block == 0 {
                Suit::Clubs
            } else if block == 1 {
                Suit::Diamonds
            } else if block == 2 {
                Suit::Hearts
            } else {
                Suit::Spades
            };
            let value = (i % 13 + 2) as u8;
            let rank = Rank::new(value).unwrap();
            cards.push(Card::new(rank, suit));
            i = i + 1;
        }
        Self { cards }
    }

    /// Read-only view of the cards, in deck order.
    pub fn cards(&self) -> (r: &[Card])
        ensures
            r@ == self@,
    {
        self.cards.as_slice()
    }
}

/// Whether `cards` holds a card of suit `s` whose rank value is `v`.
pub open spec fn holds_card(cards: Seq<Card>, s: Suit, v: int) -> bool {
    exists|i: int|
        0 <= i < cards.len() && (#[trigger] cards[i]).suit == s && cards[i].rank.spec_value() == v
}

/// Deck completeness: any deck laid out as `Deck::standard_52` guarantees
/// holds 52 pairwise-distinct cards and contains every combination of a suit
/// with a rank value in `2..=14`.
pub proof fn lemma_standard_deck_complete(deck: Deck)
    requires
        deck@.len() == 52,
        forall|i: int| 0 <= i < 52 ==> (#[trigger] deck@[i]).suit == suit_of_block(i / 13),
        forall|i: int| 0 <= i < 52 ==> (#[trigger] deck@[i]).rank.spec_value() == i % 13 + 2,
    ensures
        forall|i: int, j: int| 0 <= i < j < 52 ==> deck@[i] != deck@[j],
        forall|s: Suit, v: int| 2 <= v <= 14 ==> #[trigger] holds_card(deck@, s, v),
{
    assert forall|i: int, j: int| 0 <= i < j < 52 implies deck@[i] != deck@[j] by {
        if deck@[i] == deck@[j] {
            assert(suit_of_block(i / 13) == suit_of_block(j / 13));
            assert(0 <= i / 13 <= 3 && 0 <= j / 13 <= 3) by (nonlinear_arith)
                requires
                    0 <= i < 52,
                    0 <= j < 52,
            ;
            assert(i / 13 == j / 13);
            assert(i % 13 == j % 13);
            assert(i == 13 * (i / 13) + i % 13) by (nonlinear_arith);
            assert(j == 13 * (j / 13) + j % 13) by (nonlinear_arith);
            assert(false);
        }
    };
    assert forall|s: Suit, v: int| 2 <= v <= 14 implies #[trigger] holds_card(deck@, s, v) by {
        let b: int = if s == Suit::Clubs {
            0
        } else if s == Suit::Diamonds {
            1
        } else if s == Suit::Hearts {
            2
        } else {
            3
        };
        let i = 13 * b + (v - 2);
        assert(0 <= i < 52);
        assert(i / 13 == b && i % 13 == v - 2) by (nonlinear_arith)
            requires
                i == 13 * b + (v - 2),
                0 <= b <= 3,
                2 <= v <= 14,
        ;
        assert(deck@[i].suit == s && deck@[i].rank.spec_value() == v);
    };
}

} // verus!
