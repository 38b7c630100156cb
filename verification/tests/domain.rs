use poker_domain::Action;
use poker_domain::ActionKind;
use poker_domain::Card;
use poker_domain::Deck;
use poker_domain::DomainError;
use poker_domain::HandPhase;
use poker_domain::HandState;
use poker_domain::Rank;
use poker_domain::SeatNo;
use poker_domain::SeatState;
use poker_domain::SeatStatus;
use poker_domain::Suit;
use poker_domain::TableConfig;

#[test]
fn action_validation_requires_amount_for_raise() {
    let err = Action::new(ActionKind::Raise, None).expect_err("raise must require an amount");
    assert!(matches!(err, DomainError::MissingActionAmount(_)));
}

#[test]
fn hand_state_rejects_duplicate_seats() {
    let cfg = TableConfig::default_v0();
    let seat_no = SeatNo::new(1, cfg.max_seats).expect("seat is valid");
    let duplicate = vec![
        SeatState::new(seat_no, cfg.starting_stack),
        SeatState::new(seat_no, cfg.starting_stack),
    ];

    let err = HandState::new(uuid::Uuid::new_v4(), 1, seat_no, seat_no, duplicate, &cfg)
        .expect_err("duplicate seats must fail");

    assert!(matches!(err, DomainError::DuplicateSeat));
}

#[test]
fn rank_accepts_exactly_two_through_fourteen() {
    assert_eq!(Rank::new(2).unwrap().value(), 2);
    assert_eq!(Rank::new(14).unwrap().value(), 14);
    assert!(matches!(Rank::new(0), Err(DomainError::InvalidRank(0))));
    assert!(matches!(Rank::new(1), Err(DomainError::InvalidRank(1))));
    assert!(matches!(Rank::new(15), Err(DomainError::InvalidRank(15))));
}

#[test]
fn seat_no_accepts_exactly_one_through_max() {
    assert_eq!(SeatNo::new(1, 6).unwrap().value(), 1);
    assert_eq!(SeatNo::new(6, 6).unwrap().value(), 6);
    assert!(matches!(
        SeatNo::new(0, 6),
        Err(DomainError::InvalidSeatNo { max: 6, actual: 0 })
    ));
    assert!(matches!(
        SeatNo::new(7, 6),
        Err(DomainError::InvalidSeatNo { max: 6, actual: 7 })
    ));
}

#[test]
fn action_pairs_amount_with_kind() {
    let bet = Action::new(ActionKind::Bet, Some(100)).unwrap();
    assert_eq!(bet.kind, ActionKind::Bet);
    assert_eq!(bet.amount, Some(100));

    let fold = Action::new(ActionKind::Fold, None).unwrap();
    assert_eq!(fold.kind, ActionKind::Fold);
    assert_eq!(fold.amount, None);

    assert!(Action::new(ActionKind::Check, None).is_ok());
    assert!(Action::new(ActionKind::Call, None).is_ok());
    assert!(Action::new(ActionKind::Raise, Some(250)).is_ok());

    assert!(matches!(
        Action::new(ActionKind::Bet, None),
        Err(DomainError::MissingActionAmount(ActionKind::Bet))
    ));
    assert!(matches!(
        Action::new(ActionKind::Check, Some(10)),
        Err(DomainError::UnexpectedActionAmount(ActionKind::Check))
    ));
    assert!(matches!(
        Action::new(ActionKind::Call, Some(10)),
        Err(DomainError::UnexpectedActionAmount(ActionKind::Call))
    ));
    assert!(matches!(
        Action::new(ActionKind::Fold, Some(10)),
        Err(DomainError::UnexpectedActionAmount(ActionKind::Fold))
    ));
}

#[test]
fn standard_deck_has_all_52_distinct_cards() {
    let deck = Deck::standard_52();
    let cards = deck.cards();
    assert_eq!(cards.len(), 52);

    for i in 0..cards.len() {
        for j in (i + 1)..cards.len() {
            assert_ne!(cards[i], cards[j]);
        }
    }

    let suits = [Suit::Clubs, Suit::Diamonds, Suit::Hearts, Suit::Spades];
    for suit in suits {
        for value in 2..=14u8 {
            let wanted = Card::new(Rank::new(value).unwrap(), suit);
            assert!(cards.iter().any(|c| *c == wanted));
        }
    }
}

#[test]
fn standard_deck_is_suit_major_and_rank_ascending() {
    let deck = Deck::standard_52();
    let cards = deck.cards();
    assert_eq!(cards[0], Card::new(Rank::new(2).unwrap(), Suit::Clubs));
    assert_eq!(cards[12], Card::new(Rank::new(14).unwrap(), Suit::Clubs));
    assert_eq!(cards[13], Card::new(Rank::new(2).unwrap(), Suit::Diamonds));
    assert_eq!(cards[26], Card::new(Rank::new(2).unwrap(), Suit::Hearts));
    assert_eq!(cards[39], Card::new(Rank::new(2).unwrap(), Suit::Spades));
    assert_eq!(cards[51], Card::new(Rank::new(14).unwrap(), Suit::Spades));
}

#[test]
fn default_config_is_the_documented_baseline() {
    let cfg = TableConfig::default_v0();
    assert_eq!(cfg.max_seats, 6);
    assert_eq!(cfg.min_players_to_start, 2);
    assert_eq!(cfg.starting_stack, 10_000);
    assert_eq!(cfg.small_blind, 50);
    assert_eq!(cfg.big_blind, 100);
    assert_eq!(cfg.action_timeout_ms, 2_000);
    assert!(cfg.validate().is_ok());
}

#[test]
fn config_reports_first_failing_check() {
    // Both the seat ceiling and the blind structure are broken: the seat
    // ceiling is checked first and wins.
    let cfg = TableConfig {
        max_seats: 10,
        min_players_to_start: 2,
        starting_stack: 10_000,
        small_blind: 100,
        big_blind: 50,
        action_timeout_ms: 2_000,
    };
    assert!(matches!(cfg.validate(), Err(DomainError::InvalidMaxSeats(10))));
}

#[test]
fn config_rejects_bad_start_threshold_and_blinds() {
    let low_threshold = TableConfig { min_players_to_start: 1, ..TableConfig::default_v0() };
    assert!(matches!(
        low_threshold.validate(),
        Err(DomainError::InvalidMinPlayersToStart)
    ));

    let threshold_above_seats = TableConfig {
        max_seats: 3,
        min_players_to_start: 4,
        ..TableConfig::default_v0()
    };
    assert!(matches!(
        threshold_above_seats.validate(),
        Err(DomainError::InvalidMinPlayersToStart)
    ));

    let inverted_blinds = TableConfig {
        small_blind: 200,
        big_blind: 100,
        ..TableConfig::default_v0()
    };
    assert!(matches!(
        inverted_blinds.validate(),
        Err(DomainError::InvalidBlindStructure)
    ));

    let single_seat = TableConfig { max_seats: 1, ..TableConfig::default_v0() };
    assert!(matches!(single_seat.validate(), Err(DomainError::InvalidMaxSeats(1))));
}

#[test]
fn seat_state_starts_active_with_nothing_committed() {
    let seat_no = SeatNo::new(3, 6).unwrap();
    let seat = SeatState::new(seat_no, 5_000);
    assert_eq!(seat.seat_no.value(), 3);
    assert_eq!(seat.stack, 5_000);
    assert_eq!(seat.committed_in_round, 0);
    assert_eq!(seat.status, SeatStatus::Active);
    assert!(seat.is_active());

    let mut benched = SeatState::new(seat_no, 5_000);
    benched.status = SeatStatus::SittingOut;
    assert!(!benched.is_active());
    benched.status = SeatStatus::Busted;
    assert!(!benched.is_active());
}

#[test]
fn hand_state_opens_a_fresh_hand() {
    let cfg = TableConfig::default_v0();
    let seat1 = SeatNo::new(1, cfg.max_seats).unwrap();
    let seat2 = SeatNo::new(2, cfg.max_seats).unwrap();
    let seats = vec![
        SeatState::new(seat1, cfg.starting_stack),
        SeatState::new(seat2, cfg.starting_stack),
    ];
    let table_id = uuid::Uuid::new_v4();

    let hand = HandState::new(table_id, 1, seat1, seat1, seats.clone(), &cfg)
        .expect("two active distinct seats must start a hand");

    assert_eq!(hand.table_id, table_id);
    assert_eq!(hand.hand_no, 1);
    assert_eq!(hand.button_seat, seat1);
    assert_eq!(hand.acting_seat, seat1);
    assert_eq!(hand.phase, HandPhase::Dealing);
    assert_eq!(hand.pot, 0);
    assert!(hand.board.is_empty());
    assert_eq!(hand.seats, seats);
}

#[test]
fn hand_state_generates_distinct_hand_ids() {
    let cfg = TableConfig::default_v0();
    let seat1 = SeatNo::new(1, cfg.max_seats).unwrap();
    let seat2 = SeatNo::new(2, cfg.max_seats).unwrap();
    let roster = || {
        vec![
            SeatState::new(seat1, cfg.starting_stack),
            SeatState::new(seat2, cfg.starting_stack),
        ]
    };
    let table_id = uuid::Uuid::new_v4();

    let first = HandState::new(table_id, 1, seat1, seat1, roster(), &cfg).unwrap();
    let second = HandState::new(table_id, 2, seat1, seat1, roster(), &cfg).unwrap();
    assert_ne!(first.hand_id, second.hand_id);
}

#[test]
fn hand_state_rejects_insufficient_active_players() {
    let cfg = TableConfig::default_v0();
    let seat1 = SeatNo::new(1, cfg.max_seats).unwrap();
    let seat2 = SeatNo::new(2, cfg.max_seats).unwrap();
    let mut sitting_out = SeatState::new(seat2, cfg.starting_stack);
    sitting_out.status = SeatStatus::SittingOut;
    let seats = vec![SeatState::new(seat1, cfg.starting_stack), sitting_out];

    let err = HandState::new(uuid::Uuid::new_v4(), 1, seat1, seat1, seats, &cfg)
        .expect_err("one active seat is below the start threshold");
    assert!(matches!(
        err,
        DomainError::NotEnoughActiveSeats { minimum: 2, actual: 1 }
    ));
}

#[test]
fn hand_state_rejects_too_many_seats() {
    let cfg = TableConfig { max_seats: 2, ..TableConfig::default_v0() };
    let seat1 = SeatNo::new(1, 3).unwrap();
    let seat2 = SeatNo::new(2, 3).unwrap();
    let seat3 = SeatNo::new(3, 3).unwrap();
    let seats = vec![
        SeatState::new(seat1, cfg.starting_stack),
        SeatState::new(seat2, cfg.starting_stack),
        SeatState::new(seat3, cfg.starting_stack),
    ];

    let err = HandState::new(uuid::Uuid::new_v4(), 1, seat1, seat1, seats, &cfg)
        .expect_err("three seats exceed a two-seat table");
    assert!(matches!(err, DomainError::TooManySeats { max: 2, actual: 3 }));
}

#[test]
fn hand_state_does_not_cross_check_button_or_acting_seat() {
    // Known gap, preserved on purpose: the factory never verifies that
    // button_seat and acting_seat occur in the roster; that discipline is
    // left to the engine driving the hand.
    let cfg = TableConfig::default_v0();
    let seat1 = SeatNo::new(1, cfg.max_seats).unwrap();
    let seat2 = SeatNo::new(2, cfg.max_seats).unwrap();
    let outside_roster = SeatNo::new(5, cfg.max_seats).unwrap();
    let seats = vec![
        SeatState::new(seat1, cfg.starting_stack),
        SeatState::new(seat2, cfg.starting_stack),
    ];

    let hand = HandState::new(uuid::Uuid::new_v4(), 1, outside_roster, outside_roster, seats, &cfg)
        .expect("membership of button and acting seat is not checked");
    assert_eq!(hand.button_seat, outside_roster);
    assert_eq!(hand.acting_seat, outside_roster);
}

#[test]
fn hand_state_propagates_config_errors_first() {
    // The roster is fine; the configuration alone is broken, and its error
    // comes through verbatim.
    let cfg = TableConfig { big_blind: 10, ..TableConfig::default_v0() };
    let seat1 = SeatNo::new(1, cfg.max_seats).unwrap();
    let seat2 = SeatNo::new(2, cfg.max_seats).unwrap();
    let seats = vec![
        SeatState::new(seat1, cfg.starting_stack),
        SeatState::new(seat2, cfg.starting_stack),
    ];

    let err = HandState::new(uuid::Uuid::new_v4(), 1, seat1, seat1, seats, &cfg)
        .expect_err("an invalid config must fail hand construction");
    assert!(matches!(err, DomainError::InvalidBlindStructure));
}
