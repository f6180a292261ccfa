use std::collections::HashSet;

use skat_engine::{
    card::{Card, deck},
    game::{Game, grand::GrandGame},
    rank::Rank,
    suit::Suit,
    utils::deal::{deal, deal_cards, dealt_hands_as_rust, display_cards_rust},
};

#[test]
fn test_invariants() {
    for _ in 0..100 {
        let (skat, hand1, hand2, hand3) = deal();

        let mut seen_cards = HashSet::new();

        for card in skat {
            assert!(seen_cards.insert(card));
        }

        for card in hand1.cards {
            assert!(seen_cards.insert(card));
        }

        for card in hand2.cards {
            assert!(seen_cards.insert(card));
        }

        for card in hand3.cards {
            assert!(seen_cards.insert(card));
        }

        for card in deck() {
            assert!(seen_cards.contains(&card))
        }
    }
}

#[test]
fn deal_gives_each_player_ten_cards() {
    let (_, hand1, hand2, hand3) = deal();
    assert_eq!(hand1.cards.len(), 10);
    assert_eq!(hand2.cards.len(), 10);
    assert_eq!(hand3.cards.len(), 10);
}

#[test]
fn deal_cards_deals_in_turn_after_the_skat() {
    let cards = deck();
    let (skat, hand1, hand2, hand3) = deal_cards(cards.clone());
    assert_eq!(skat, [cards[0], cards[1]]);
    assert_eq!(hand1.cards[0], cards[2]);
    assert_eq!(hand2.cards[0], cards[3]);
    assert_eq!(hand3.cards[0], cards[4]);
    assert_eq!(hand1.cards[9], cards[29]);
    assert_eq!(hand3.cards[9], cards[31]);
}

#[test]
fn deal_cards_drops_an_incomplete_round() {
    let cards = deck();
    let (skat, hand1, hand2, hand3) = deal_cards(cards[..7].to_vec());
    assert_eq!(skat, [cards[0], cards[1]]);
    assert_eq!(hand1.cards, vec![cards[2]]);
    assert_eq!(hand2.cards, vec![cards[3]]);
    assert_eq!(hand3.cards, vec![cards[4]]);
}

#[test]
fn deck_holds_32_distinct_cards() {
    let cards = deck();
    assert_eq!(cards.len(), 32);
    let distinct: HashSet<_> = cards.iter().cloned().collect();
    assert_eq!(distinct.len(), 32);
}

#[test]
fn deal_shuffles_the_deck() {
    let unshuffled = deal_cards(deck());
    let mut differs = false;
    for _ in 0..10 {
        let (skat, hand1, _, _) = deal();
        if skat != unshuffled.0 || hand1.cards != unshuffled.1.cards {
            differs = true;
        }
    }
    assert!(differs);
}

#[test]
fn dealt_hands_as_rust_code() {
    let jack = Card { rank: Rank::Jack, suit: Suit::Clubs };
    let ten = Card { rank: Rank::N10, suit: Suit::Hearts };
    assert_eq!(jack.display_rust(), "Card!(Jack of Clubs)");
    assert_eq!(display_cards_rust(&[ten, jack], ", "), "Card!(10 of Hearts), Card!(Jack of Clubs)");
    assert_eq!(display_cards_rust(&[], ", "), "");

    let cards = deck();
    let dealt = deal_cards(cards[..11].to_vec());
    let text = dealt_hands_as_rust(&Game::Grand(GrandGame {}), dealt);
    assert_eq!(
        text,
        "let skat = [Card!(7 of Diamonds), Card!(8 of Diamonds)];\n\
         let hand1 = [\n    Card!(7 of Hearts),\n    Card!(Queen of Diamonds),\n    Card!(9 of Diamonds),\n];\n\
         let hand2 = [\n    Card!(8 of Hearts),\n    Card!(10 of Diamonds),\n    Card!(King of Diamonds),\n];\n\
         let hand3 = [\n    Card!(Jack of Diamonds),\n    Card!(9 of Hearts),\n    Card!(Ace of Diamonds),\n];\n"
    );
}
