use skat_engine::{
    card::Card,
    game::{Game, GameKind, grand::GrandGame, null::NullGame, suit::SuitGame},
    rank::Rank,
    rules::GameRules,
    suit::Suit,
};

fn card(rank: Rank, suit: Suit) -> Card {
    Card { rank, suit }
}

#[test]
fn grand_jacks_are_the_only_trumps() {
    let game = GrandGame {};
    assert!(game.card_is_trump(card(Rank::Jack, Suit::Hearts)));
    assert!(!game.card_is_trump(card(Rank::Ace, Suit::Clubs)));
}

#[test]
fn grand_jack_does_not_follow_its_printed_suit() {
    let game = GrandGame {};
    assert!(!game.card_follows_suit(card(Rank::Ace, Suit::Diamonds), card(Rank::Jack, Suit::Diamonds)));
    assert!(game.card_follows_suit(card(Rank::Ace, Suit::Diamonds), card(Rank::N7, Suit::Diamonds)));
    assert!(game.card_follows_suit(card(Rank::Jack, Suit::Clubs), card(Rank::Jack, Suit::Diamonds)));
    assert!(!game.card_follows_suit(card(Rank::Jack, Suit::Clubs), card(Rank::Ace, Suit::Clubs)));
}

#[test]
fn grand_must_follow_suit_when_possible() {
    let game = GrandGame {};
    let trick = [card(Rank::Ace, Suit::Diamonds)];
    let only_jack = [card(Rank::Jack, Suit::Diamonds), card(Rank::Ace, Suit::Hearts)];
    assert!(game.can_play_card(&trick, &only_jack, card(Rank::Ace, Suit::Hearts)));
    let with_diamond = [card(Rank::N7, Suit::Diamonds), card(Rank::Ace, Suit::Hearts)];
    assert!(!game.can_play_card(&trick, &with_diamond, card(Rank::Ace, Suit::Hearts)));
    assert!(game.can_play_card(&trick, &with_diamond, card(Rank::N7, Suit::Diamonds)));
}

#[test]
fn any_card_may_lead_and_wins_an_empty_trick() {
    let games = [
        Game::Grand(GrandGame {}),
        Game::Null(NullGame {}),
        Game::Suit(SuitGame { trump_suit: Suit::Spades }),
    ];
    for game in games {
        let hand = [card(Rank::N7, Suit::Hearts), card(Rank::Jack, Suit::Clubs)];
        assert!(game.can_play_card(&[], &hand, card(Rank::N7, Suit::Hearts)));
        assert!(game.card_wins_trick(&[], card(Rank::N7, Suit::Hearts)));
    }
}

#[test]
fn grand_winning_cards() {
    let game = GrandGame {};
    let trick = [card(Rank::N10, Suit::Diamonds)];
    assert!(game.card_wins_trick(&trick, card(Rank::Ace, Suit::Diamonds)));
    assert!(!game.card_wins_trick(&trick, card(Rank::King, Suit::Diamonds)));
    assert!(game.card_wins_trick(&trick, card(Rank::Jack, Suit::Diamonds)));
    assert!(!game.card_wins_trick(&trick, card(Rank::Ace, Suit::Hearts)));

    let trick = [card(Rank::N10, Suit::Diamonds), card(Rank::Jack, Suit::Spades)];
    assert!(game.card_wins_trick(&trick, card(Rank::Jack, Suit::Clubs)));
    assert!(!game.card_wins_trick(&trick, card(Rank::Jack, Suit::Hearts)));
    assert!(!game.card_wins_trick(&trick, card(Rank::Ace, Suit::Diamonds)));
}

#[test]
fn null_has_no_trumps_and_its_own_rank_order() {
    let game = NullGame {};
    let trick = [card(Rank::N10, Suit::Diamonds)];
    assert!(game.card_follows_suit(card(Rank::N10, Suit::Diamonds), card(Rank::Jack, Suit::Diamonds)));
    assert!(game.card_wins_trick(&trick, card(Rank::Jack, Suit::Diamonds)));
    assert!(!game.card_wins_trick(&trick, card(Rank::N9, Suit::Diamonds)));
    assert!(!game.card_wins_trick(&trick, card(Rank::Ace, Suit::Clubs)));
    let hand = [card(Rank::Jack, Suit::Diamonds), card(Rank::Ace, Suit::Clubs)];
    assert!(!game.can_play_card(&trick, &hand, card(Rank::Ace, Suit::Clubs)));
    let hand = [card(Rank::Ace, Suit::Clubs)];
    assert!(game.can_play_card(&trick, &hand, card(Rank::Ace, Suit::Clubs)));
}

#[test]
fn suit_game_trumps_and_winners() {
    let game = SuitGame { trump_suit: Suit::Hearts };
    assert!(game.card_is_trump(card(Rank::N7, Suit::Hearts)));
    assert!(game.card_is_trump(card(Rank::Jack, Suit::Clubs)));
    assert!(!game.card_is_trump(card(Rank::Ace, Suit::Spades)));

    let trick = [card(Rank::Ace, Suit::Spades)];
    assert!(game.card_wins_trick(&trick, card(Rank::N7, Suit::Hearts)));
    assert!(!game.card_wins_trick(&trick, card(Rank::King, Suit::Spades)));

    let trick = [card(Rank::Ace, Suit::Spades), card(Rank::N7, Suit::Hearts)];
    assert!(game.card_wins_trick(&trick, card(Rank::Queen, Suit::Hearts)));
    assert!(game.card_wins_trick(&trick, card(Rank::Jack, Suit::Diamonds)));
    assert!(!game.card_wins_trick(&trick, card(Rank::N10, Suit::Spades)));

    let trick = [card(Rank::Jack, Suit::Clubs)];
    assert!(!game.card_wins_trick(&trick, card(Rank::Ace, Suit::Hearts)));
    assert!(!game.card_wins_trick(&trick, card(Rank::Jack, Suit::Spades)));
}

#[test]
fn suit_game_trump_lead_must_be_followed_with_a_trump() {
    let game = SuitGame { trump_suit: Suit::Hearts };
    let trick = [card(Rank::Jack, Suit::Clubs)];
    let hand = [card(Rank::N7, Suit::Hearts), card(Rank::Ace, Suit::Spades)];
    assert!(!game.can_play_card(&trick, &hand, card(Rank::Ace, Suit::Spades)));
    assert!(game.can_play_card(&trick, &hand, card(Rank::N7, Suit::Hearts)));
    assert!(!game.card_follows_suit(card(Rank::Ace, Suit::Spades), card(Rank::Jack, Suit::Spades)));
}

#[test]
fn game_dispatches_to_its_rules() {
    let game = Game::Suit(SuitGame { trump_suit: Suit::Hearts });
    assert_eq!(game.kind(), GameKind::Suit);
    assert_eq!(Game::Grand(GrandGame {}).kind(), GameKind::Grand);
    assert_eq!(Game::Null(NullGame {}).kind(), GameKind::Null);
    let trick = [card(Rank::Ace, Suit::Spades)];
    assert!(game.card_wins_trick(&trick, card(Rank::N7, Suit::Hearts)));
    assert!(!Game::Grand(GrandGame {}).card_wins_trick(&trick, card(Rank::N7, Suit::Hearts)));
}
