use skat_engine::{
    card::Card,
    game::{Game, grand::GrandGame, null::NullGame},
    hand::Hand,
    rank::Rank,
    state::{
        game::GameState,
        player::{PlayerId, PlayerState},
    },
    suit::Suit,
};

fn card(rank: Rank, suit: Suit) -> Card {
    Card { rank, suit }
}

fn player(cards: &[Card]) -> PlayerState {
    PlayerState::new(Hand { cards: cards.to_vec() })
}

fn small_grand() -> GameState {
    GameState::new(
        Game::Grand(GrandGame {}),
        [card(Rank::N7, Suit::Hearts), card(Rank::N8, Suit::Hearts)],
        [
            player(&[card(Rank::Jack, Suit::Clubs), card(Rank::N7, Suit::Diamonds)]),
            player(&[card(Rank::N8, Suit::Diamonds), card(Rank::N9, Suit::Diamonds)]),
            player(&[card(Rank::N10, Suit::Diamonds), card(Rank::Ace, Suit::Diamonds)]),
        ],
        PlayerId::FIRST,
        PlayerId::FIRST,
    )
}

fn cards_in_play(state: &GameState) -> usize {
    let hands: usize = [PlayerId::FIRST, PlayerId::SECOND, PlayerId::THIRD]
        .iter()
        .map(|id| state.player(*id).hand.cards.len())
        .sum();
    let tricks = if state.last_won_trick().is_some() { 3 } else { 0 };
    hands + state.current_trick().cards().len() + tricks
}

#[test]
fn refused_card_changes_nothing() {
    let mut state = small_grand();
    state.play_card(card(Rank::N7, Suit::Diamonds)).unwrap();
    assert_eq!(state.current_player_id(), PlayerId::SECOND);
    // The second player holds diamonds only, so any of them may follow.
    let mut state2 = small_grand();
    state2.play_card(card(Rank::Jack, Suit::Clubs)).unwrap();
    state2.play_card(card(Rank::N8, Suit::Diamonds)).unwrap();
    assert_eq!(state2.current_player_id(), PlayerId::THIRD);
    assert_eq!(state.current_player().hand.cards.len(), 2);
}

#[test]
fn card_that_must_follow_suit_is_refused() {
    let mut state = GameState::new(
        Game::Null(NullGame {}),
        [card(Rank::N7, Suit::Hearts), card(Rank::N8, Suit::Hearts)],
        [
            player(&[card(Rank::N9, Suit::Spades)]),
            player(&[card(Rank::N10, Suit::Spades), card(Rank::Ace, Suit::Clubs)]),
            player(&[card(Rank::King, Suit::Clubs)]),
        ],
        PlayerId::FIRST,
        PlayerId::SECOND,
    );
    state.play_card(card(Rank::N9, Suit::Spades)).unwrap();
    assert!(state.play_card(card(Rank::Ace, Suit::Clubs)).is_err());
    assert_eq!(state.current_player_id(), PlayerId::SECOND);
    assert_eq!(state.current_player().hand.cards.len(), 2);
    assert_eq!(state.current_trick().cards().len(), 1);
}

#[test]
fn card_not_on_hand_is_ignored() {
    let mut state = small_grand();
    assert_eq!(state.play_card(card(Rank::Ace, Suit::Clubs)), Ok(()));
    assert_eq!(state.current_player_id(), PlayerId::FIRST);
    assert_eq!(state.current_player().hand.cards.len(), 2);
    assert!(state.current_trick().cards().is_empty());
}

#[test]
fn completed_trick_goes_to_its_winner() {
    let mut state = small_grand();
    assert!(state.last_won_trick().is_none());
    let before = cards_in_play(&state);
    state.play_card(card(Rank::N7, Suit::Diamonds)).unwrap();
    state.play_card(card(Rank::N9, Suit::Diamonds)).unwrap();
    state.play_card(card(Rank::N10, Suit::Diamonds)).unwrap();
    let won = state.last_won_trick().unwrap();
    assert_eq!(won.winning_player, PlayerId::THIRD);
    assert_eq!(
        won.cards,
        [card(Rank::N7, Suit::Diamonds), card(Rank::N9, Suit::Diamonds), card(Rank::N10, Suit::Diamonds)]
    );
    assert_eq!(state.current_player_id(), PlayerId::THIRD);
    assert!(state.current_trick().cards().is_empty());
    assert_eq!(cards_in_play(&state), before);
}

#[test]
fn skat_is_known_to_the_soloist_only() {
    let mut state = small_grand();
    let ctx = state.get_bot_context();
    assert!(ctx.is_soloist());
    assert_eq!(ctx.skat, Some([card(Rank::N7, Suit::Hearts), card(Rank::N8, Suit::Hearts)]));
    state.play_card(card(Rank::Jack, Suit::Clubs)).unwrap();
    let ctx = state.get_bot_context();
    assert!(!ctx.is_soloist());
    assert_eq!(ctx.skat, None);
    assert_eq!(ctx.player_id, PlayerId::SECOND);
}

#[test]
fn game_is_over_when_the_hands_are_played_out() {
    let mut state = small_grand();
    assert!(!state.is_game_over());
    for card_to_play in [
        card(Rank::Jack, Suit::Clubs),
        card(Rank::N8, Suit::Diamonds),
        card(Rank::N10, Suit::Diamonds),
        card(Rank::N7, Suit::Diamonds),
        card(Rank::N9, Suit::Diamonds),
        card(Rank::Ace, Suit::Diamonds),
    ] {
        state.play_card(card_to_play).unwrap();
    }
    assert!(state.is_game_over());
}
