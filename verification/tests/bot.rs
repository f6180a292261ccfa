use skat_engine::{
    bot::{Bot, grand::GrandBot, null::NullBot},
    card::Card,
    game::{Game, grand::GrandGame, null::NullGame},
    hand::Hand,
    rank::Rank,
    state::{
        game::GameState,
        player::{PlayerId, PlayerState},
    },
    suit::Suit,
};

fn card(rank: Rank, suit: Suit) -> Card {
    Card { rank, suit }
}

fn player(cards: &[Card]) -> PlayerState {
    PlayerState::new(Hand { cards: cards.to_vec() })
}

fn small_grand() -> GameState {
    GameState::new(
        Game::Grand(GrandGame {}),
        [card(Rank::N7, Suit::Hearts), card(Rank::N8, Suit::Hearts)],
        [
            player(&[card(Rank::Jack, Suit::Clubs), card(Rank::N7, Suit::Diamonds)]),
            player(&[card(Rank::N8, Suit::Diamonds), card(Rank::N9, Suit::Diamonds)]),
            player(&[card(Rank::N10, Suit::Diamonds), card(Rank::Ace, Suit::Diamonds)]),
        ],
        PlayerId::FIRST,
        PlayerId::FIRST,
    )
}

#[test]
fn bot_context_knows_what_is_out_of_play() {
    let mut state = small_grand();
    let ctx = state.get_bot_context();
    assert_eq!(ctx.playable_cards().len(), 2);
    assert_eq!(
        ctx.all_known_out_of_play_cards(),
        vec![card(Rank::N7, Suit::Hearts), card(Rank::N8, Suit::Hearts)]
    );
    let unknown = ctx.all_unknown_cards();
    assert_eq!(unknown.len(), 28);
    assert!(!unknown.contains(&card(Rank::N7, Suit::Hearts)));
    assert!(!unknown.contains(&card(Rank::Jack, Suit::Clubs)));
    assert!(unknown.contains(&card(Rank::N8, Suit::Diamonds)));

    state.play_card(card(Rank::Jack, Suit::Clubs)).unwrap();
    let ctx = state.get_bot_context();
    assert_eq!(ctx.all_known_out_of_play_cards(), vec![card(Rank::Jack, Suit::Clubs)]);
    assert_eq!(ctx.all_unknown_cards().len(), 29);
}

#[test]
fn highest_jack_is_guaranteed_to_win() {
    let state = small_grand();
    let ctx = state.get_bot_context();
    assert_eq!(ctx.find_card_guaranteed_to_win_trick(), vec![card(Rank::Jack, Suit::Clubs)]);
    assert_eq!(GrandBot.play_card(state.get_bot_context()), card(Rank::Jack, Suit::Clubs));
}

#[test]
fn grand_bot_plays_first_playable_card_when_it_cannot_win() {
    let mut state = small_grand();
    state.play_card(card(Rank::Jack, Suit::Clubs)).unwrap();
    let ctx = state.get_bot_context();
    assert!(ctx.find_card_guaranteed_to_win_trick().is_empty());
    assert_eq!(GrandBot.play_card(ctx), card(Rank::N8, Suit::Diamonds));
}

#[test]
fn grand_bot_prefers_a_winning_card() {
    let mut state = small_grand();
    state.play_card(card(Rank::N7, Suit::Diamonds)).unwrap();
    state.play_card(card(Rank::N8, Suit::Diamonds)).unwrap();
    // The third player ends the trick; the ace wins it, and so does the ten,
    // but the ten comes first.
    assert_eq!(GrandBot.play_card(state.get_bot_context()), card(Rank::N10, Suit::Diamonds));
}

#[test]
fn null_bot_plays_low_when_following_and_discards_high() {
    let mut state = GameState::new(
        Game::Null(NullGame {}),
        [card(Rank::N7, Suit::Hearts), card(Rank::N8, Suit::Hearts)],
        [
            player(&[card(Rank::Ace, Suit::Spades), card(Rank::N7, Suit::Spades), card(Rank::Jack, Suit::Spades)]),
            player(&[card(Rank::Ace, Suit::Hearts), card(Rank::N8, Suit::Clubs), card(Rank::Ace, Suit::Clubs)]),
            player(&[card(Rank::King, Suit::Spades), card(Rank::N9, Suit::Spades), card(Rank::Queen, Suit::Clubs)]),
        ],
        PlayerId::FIRST,
        PlayerId::FIRST,
    );
    let lead = NullBot.play_card(state.get_bot_context());
    assert_eq!(lead, card(Rank::N7, Suit::Spades));
    state.play_card(lead).unwrap();
    let discard = NullBot.play_card(state.get_bot_context());
    assert_eq!(discard, card(Rank::Ace, Suit::Clubs));
    state.play_card(discard).unwrap();
    let follow = NullBot.play_card(state.get_bot_context());
    assert_eq!(follow, card(Rank::N9, Suit::Spades));
}
