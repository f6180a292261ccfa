use skat_engine::{
    card::Card,
    game::{Game, grand::GrandGame, null::NullGame, suit::SuitGame},
    hand::Hand,
    rank::Rank,
    suit::Suit,
};

fn card(rank: Rank, suit: Suit) -> Card {
    Card { rank, suit }
}

#[test]
fn empty_hand_has_no_cards() {
    assert!(Hand::empty().cards.is_empty());
}

#[test]
fn grand_hand_sorts_jacks_then_suits() {
    let hand = Hand {
        cards: vec![
            card(Rank::N7, Suit::Diamonds),
            card(Rank::Jack, Suit::Hearts),
            card(Rank::Ace, Suit::Clubs),
            card(Rank::Jack, Suit::Clubs),
            card(Rank::N10, Suit::Clubs),
            card(Rank::Ace, Suit::Hearts),
            card(Rank::King, Suit::Spades),
        ],
    };
    let sorted = hand.sorted(&Game::Grand(GrandGame {}));
    assert_eq!(
        sorted.cards,
        vec![
            card(Rank::Jack, Suit::Clubs),
            card(Rank::Jack, Suit::Hearts),
            card(Rank::Ace, Suit::Clubs),
            card(Rank::N10, Suit::Clubs),
            card(Rank::Ace, Suit::Hearts),
            card(Rank::King, Suit::Spades),
            card(Rank::N7, Suit::Diamonds),
        ]
    );
}

#[test]
fn suit_hand_sorts_jacks_then_trumps_then_suits() {
    let mut hand = Hand {
        cards: vec![
            card(Rank::Ace, Suit::Clubs),
            card(Rank::N7, Suit::Spades),
            card(Rank::Jack, Suit::Diamonds),
            card(Rank::King, Suit::Spades),
            card(Rank::N9, Suit::Hearts),
        ],
    };
    hand.sort(&Game::Suit(SuitGame { trump_suit: Suit::Spades }));
    assert_eq!(
        hand.cards,
        vec![
            card(Rank::Jack, Suit::Diamonds),
            card(Rank::King, Suit::Spades),
            card(Rank::N7, Suit::Spades),
            card(Rank::Ace, Suit::Clubs),
            card(Rank::N9, Suit::Hearts),
        ]
    );
}

#[test]
fn null_hand_sorts_by_suit_and_null_rank() {
    let hand = Hand {
        cards: vec![
            card(Rank::Ace, Suit::Diamonds),
            card(Rank::N10, Suit::Clubs),
            card(Rank::Jack, Suit::Clubs),
            card(Rank::N7, Suit::Hearts),
        ],
    };
    let sorted = hand.sorted(&Game::Null(NullGame {}));
    assert_eq!(
        sorted.cards,
        vec![
            card(Rank::Jack, Suit::Clubs),
            card(Rank::N10, Suit::Clubs),
            card(Rank::N7, Suit::Hearts),
            card(Rank::Ace, Suit::Diamonds),
        ]
    );
}

#[test]
fn sorting_twice_changes_nothing() {
    let game = Game::Suit(SuitGame { trump_suit: Suit::Diamonds });
    let hand = Hand {
        cards: vec![
            card(Rank::N8, Suit::Spades),
            card(Rank::Jack, Suit::Spades),
            card(Rank::Queen, Suit::Diamonds),
            card(Rank::N10, Suit::Hearts),
        ],
    };
    let once = hand.sorted(&game);
    let twice = once.clone().sorted(&game);
    assert_eq!(once.cards, twice.cards);
    assert_eq!(once.cards.len(), 4);
}
