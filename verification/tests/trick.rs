use skat_engine::{
    card::Card,
    game::{Game, grand::GrandGame},
    rank::Rank,
    state::player::PlayerId,
    suit::Suit,
    trick::{PlayCardOutcome, Trick},
};

fn card(rank: Rank, suit: Suit) -> Card {
    Card { rank, suit }
}

#[test]
fn empty_trick() {
    let trick = Trick::empty();
    assert!(trick.cards().is_empty());
    assert_eq!(trick.leading_card(), None);
    assert_eq!(trick.top_card(), None);
    assert_eq!(trick.currently_winning_player(), None);
}

#[test]
fn trick_plays_out_and_completes() {
    let game = Game::Grand(GrandGame {});
    let hand = [card(Rank::N10, Suit::Hearts)];

    let (trick, outcome) =
        Trick::empty().try_play_card(&game, PlayerId::SECOND, &hand, card(Rank::N10, Suit::Hearts));
    assert!(matches!(outcome, PlayCardOutcome::CardPlayed));
    assert_eq!(trick.leading_card(), Some(card(Rank::N10, Suit::Hearts)));
    assert_eq!(trick.currently_winning_player(), Some(PlayerId::SECOND));

    let hand = [card(Rank::Ace, Suit::Hearts), card(Rank::N7, Suit::Hearts)];
    let (trick, outcome) = trick.try_play_card(&game, PlayerId::THIRD, &hand, card(Rank::Ace, Suit::Hearts));
    assert!(matches!(outcome, PlayCardOutcome::CardPlayed));
    assert_eq!(trick.top_card(), Some(card(Rank::Ace, Suit::Hearts)));
    assert_eq!(trick.currently_winning_player(), Some(PlayerId::THIRD));

    let hand = [card(Rank::King, Suit::Hearts)];
    let (trick, outcome) = trick.try_play_card(&game, PlayerId::FIRST, &hand, card(Rank::King, Suit::Hearts));
    assert!(trick.cards().is_empty());
    match outcome {
        PlayCardOutcome::TrickComplete(won) => {
            assert_eq!(won.winning_player, PlayerId::THIRD);
            assert_eq!(
                won.cards,
                [
                    card(Rank::N10, Suit::Hearts),
                    card(Rank::Ace, Suit::Hearts),
                    card(Rank::King, Suit::Hearts),
                ]
            );
        }
        _ => panic!("the third card completes the trick"),
    }
}

#[test]
fn trick_refuses_a_card_that_does_not_follow_suit() {
    let game = Game::Grand(GrandGame {});
    let (trick, _) =
        Trick::empty().try_play_card(&game, PlayerId::FIRST, &[], card(Rank::N10, Suit::Hearts));
    let hand = [card(Rank::N7, Suit::Hearts), card(Rank::Ace, Suit::Clubs)];
    let (trick, outcome) = trick.try_play_card(&game, PlayerId::SECOND, &hand, card(Rank::Ace, Suit::Clubs));
    assert!(matches!(outcome, PlayCardOutcome::InvalidCard));
    assert_eq!(trick.cards(), &vec![card(Rank::N10, Suit::Hearts)]);
    assert_eq!(trick.currently_winning_player(), Some(PlayerId::FIRST));
}
