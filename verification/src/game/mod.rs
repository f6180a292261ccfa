use vstd::prelude::*;

use crate::{
    card::Card,
    game::{grand::GrandGame, null::NullGame, suit::SuitGame},
    rules::GameRules,
};

pub mod grand;
pub mod null;
pub mod suit;
pub mod value;

verus! {

/// The game being played.
#[derive(Clone, Copy, Debug, PartialEq, Eq, Structural)]
pub enum Game {
    /// A regular suit game. All jacks and each card of the chosen suit are
    /// trumps. The objective is for the soloist to win more than half the
    /// available points.
    Suit(SuitGame),
    /// A grand game. Only jacks are trumps. The objective is for the soloist to
    /// win more than half the available points.
    Grand(GrandGame),
    /// A null game. There are no trumps. The objective is for the soloist to
    /// win zero tricks.
    Null(NullGame),
}

/// The kind of game being played.
#[derive(Clone, Copy, Debug, PartialEq, Eq, Structural)]
pub enum GameKind {
    Suit,
    Grand,
    Null,
}

impl Game {
    pub open spec fn spec_kind(self) -> GameKind {
        match self {
            Game::Suit(_) => GameKind::Suit,
            Game::Grand(_) => GameKind::Grand,
            Game::Null(_) => GameKind::Null,
        }
    }

    /// Whether the card is a trump in this game.
    pub open spec fn spec_is_trump(self, card: Card) -> bool {
        match self {
            Game::Suit(g) => g.spec_card_is_trump(card),
            Game::Grand(g) => g.spec_card_is_trump(card),
            Game::Null(_) => false,
        }
    }

    pub fn kind(&self) -> (r: GameKind)
        ensures
            r == self.spec_kind(),
    {
        match self {
            Game::Suit(_) => GameKind::Suit,
            Game::Grand(_) => GameKind::Grand,
            Game::Null(_) => GameKind::Null,
        }
    }
}

/// A player who holds a card can always play one: the leading card is free,
/// and on a led trick either some card follows suit, and may be played, or
/// none does, and then every card may be played.
pub proof fn lemma_some_card_is_playable(game: Game, trick: Seq<Card>, hand: Seq<Card>)
    requires
        hand.len() > 0,
    ensures
        exists|i: int| 0 <= i < hand.len() && game.spec_can_play_card(trick, hand, #[trigger] hand[i]),
{
    if trick.len() == 0 {
        assert(game.spec_can_play_card(trick, hand, hand[0]));
    } else if exists|i: int| 0 <= i < hand.len() && game.spec_follows_suit(trick[0], #[trigger] hand[i]) {
        let i = choose|i: int| 0 <= i < hand.len() && game.spec_follows_suit(trick[0], #[trigger] hand[i]);
        assert(game.spec_can_play_card(trick, hand, hand[i]));
    } else {
        assert(game.spec_can_play_card(trick, hand, hand[0]));
    }
}

/// Following suit is forced: when a card of the hand follows the suit led,
/// every card of the hand that may be played follows it.
pub proof fn lemma_following_suit_is_forced(game: Game, trick: Seq<Card>, hand: Seq<Card>, card: Card)
    requires
        trick.len() > 0,
        exists|i: int| 0 <= i < hand.len() && game.spec_follows_suit(trick[0], #[trigger] hand[i]),
        game.spec_can_play_card(trick, hand, card),
    ensures
        game.spec_follows_suit(trick[0], card),
{
}

/// A card that neither follows the suit led nor is a trump never wins a
/// trick that has been led.
pub proof fn lemma_off_suit_card_never_wins(game: Game, trick: Seq<Card>, card: Card)
    requires
        trick.len() > 0,
        !game.spec_follows_suit(trick[0], card),
        !game.spec_is_trump(card),
    ensures
        !game.spec_card_wins_trick(trick, card),
{
    assert(game.spec_strength(trick[0], trick[0]) >= 0);
}

/// A trump wins a trick in which no trump has been played yet.
pub proof fn lemma_trump_beats_plain_cards(game: Game, trick: Seq<Card>, card: Card)
    requires
        game.spec_is_trump(card),
        forall|i: int| 0 <= i < trick.len() ==> !game.spec_is_trump(#[trigger] trick[i]),
    ensures
        game.spec_card_wins_trick(trick, card),
{
}

impl GameRules for Game {
    open spec fn spec_follows_suit(&self, leading_card: Card, card: Card) -> bool {
        match self {
            Game::Suit(g) => g.spec_follows_suit(leading_card, card),
            Game::Grand(g) => g.spec_follows_suit(leading_card, card),
            Game::Null(g) => g.spec_follows_suit(leading_card, card),
        }
    }

    open spec fn spec_strength(&self, leading_card: Card, card: Card) -> int {
        match self {
            Game::Suit(g) => g.spec_strength(leading_card, card),
            Game::Grand(g) => g.spec_strength(leading_card, card),
            Game::Null(g) => g.spec_strength(leading_card, card),
        }
    }

    open spec fn spec_can_play_card(&self, trick: Seq<Card>, hand: Seq<Card>, card: Card) -> bool {
        match self {
            Game::Suit(g) => g.spec_can_play_card(trick, hand, card),
            Game::Grand(g) => g.spec_can_play_card(trick, hand, card),
            Game::Null(g) => g.spec_can_play_card(trick, hand, card),
        }
    }

    open spec fn spec_card_wins_trick(&self, trick: Seq<Card>, card: Card) -> bool {
        match self {
            Game::Suit(g) => g.spec_card_wins_trick(trick, card),
            Game::Grand(g) => g.spec_card_wins_trick(trick, card),
            Game::Null(g) => g.spec_card_wins_trick(trick, card),
        }
    }

    fn can_play_card(&self, trick: &[Card], hand: &[Card], card: Card) -> (r: bool) {
        match self {
            Game::Suit(suit_game) => suit_game.can_play_card(trick, hand, card),
            Game::Grand(grand_game) => grand_game.can_play_card(trick, hand, card),
            Game::Null(null_game) => null_game.can_play_card(trick, hand, card),
        }
    }

    fn card_wins_trick(&self, trick: &[Card], card: Card) -> (r: bool) {
        match self {
            Game::Suit(suit_game) => suit_game.card_wins_trick(trick, card),
            Game::Grand(grand_game) => grand_game.card_wins_trick(trick, card),
            Game::Null(null_game) => null_game.card_wins_trick(trick, card),
        }
    }
}

} // verus!
