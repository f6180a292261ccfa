use std::cmp::Ordering;

use skat_engine::{
    card::{Card, deck},
    game::{Game, GameKind, grand::GrandGame, null::NullGame, suit::SuitGame, value::GameValue},
    rank::Rank,
    suit::Suit,
};

fn card(rank: Rank, suit: Suit) -> Card {
    Card { rank, suit }
}

#[test]
fn card_is_trump_by_game() {
    let suit = Game::Suit(SuitGame { trump_suit: Suit::Spades });
    assert!(card(Rank::N7, Suit::Spades).is_trump(&suit));
    assert!(card(Rank::Jack, Suit::Hearts).is_trump(&suit));
    assert!(!card(Rank::Ace, Suit::Hearts).is_trump(&suit));
    assert!(card(Rank::Jack, Suit::Hearts).is_trump(&Game::Grand(GrandGame {})));
    assert!(!card(Rank::N7, Suit::Spades).is_trump(&Game::Grand(GrandGame {})));
    assert!(!card(Rank::Jack, Suit::Hearts).is_trump(&Game::Null(NullGame {})));
}

#[test]
fn card_characters() {
    assert_eq!(card(Rank::Jack, Suit::Clubs).char(), '\u{1F0DB}');
    assert_eq!(card(Rank::N10, Suit::Hearts).char(), '\u{1F0BA}');
    assert_eq!(card(Rank::Ace, Suit::Spades).char(), '\u{1F0A1}');
    assert_eq!(card(Rank::Queen, Suit::Diamonds).char(), '\u{1F0CD}');
    assert_eq!(card(Rank::N7, Suit::Diamonds).char(), '\u{1F0C7}');
}

#[test]
fn deck_points_add_up_to_120() {
    let total: u32 = deck().iter().map(|c| c.rank.point_value() as u32).sum();
    assert_eq!(total, 120);
    assert_eq!(Rank::Ace.point_value(), 11);
    assert_eq!(Rank::N10.point_value(), 10);
    assert_eq!(Rank::Jack.point_value(), 2);
    assert_eq!(Rank::N9.point_value(), 0);
}

#[test]
fn rank_order_depends_on_game_kind() {
    assert_eq!(Rank::N10.compare(&Rank::King, GameKind::Grand), Ordering::Greater);
    assert_eq!(Rank::N10.compare(&Rank::King, GameKind::Null), Ordering::Less);
    assert_eq!(Rank::Jack.compare(&Rank::Ace, GameKind::Suit), Ordering::Greater);
    assert_eq!(Rank::Jack.compare(&Rank::Ace, GameKind::Null), Ordering::Less);
    assert_eq!(Rank::N8.compare(&Rank::N8, GameKind::Null), Ordering::Equal);
}

#[test]
fn names_and_base_values() {
    assert_eq!(Suit::Diamonds.base_value(), 9);
    assert_eq!(Suit::Hearts.base_value(), 10);
    assert_eq!(Suit::Spades.base_value(), 11);
    assert_eq!(Suit::Clubs.base_value(), 12);
    assert_eq!(Suit::Clubs.name(), "Clubs");
    assert_eq!(Suit::Diamonds.name(), "Diamonds");
    assert_eq!(Rank::N10.name(), "10");
    assert_eq!(Rank::Queen.name(), "Queen");
    assert_eq!(*GameValue::GRAND, 24);
    assert_eq!(*GameValue::NULL_OVERT_HAND, 59);
}

#[test]
fn deck_order() {
    let cards = deck();
    assert_eq!(cards[0], card(Rank::N7, Suit::Diamonds));
    assert_eq!(cards[7], card(Rank::Ace, Suit::Diamonds));
    assert_eq!(cards[12], card(Rank::Jack, Suit::Hearts));
    assert_eq!(cards[31], card(Rank::Ace, Suit::Clubs));
}
