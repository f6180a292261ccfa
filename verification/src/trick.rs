use vstd::prelude::*;

use crate::{card::Card, game::Game, rules::GameRules, state::player::PlayerId};

verus! {

/// The cards played on the current trick.
#[derive(Clone, Debug)]
pub struct Trick {
    cards: Vec<Card>,
    winning_player: PlayerId,
}

/// The mathematical value of a [Trick]: its cards in the order they were
/// played, and the player whose card is currently winning.
pub struct TrickView {
    pub cards: Seq<Card>,
    pub winning_player: PlayerId,
}

/// What playing a card does to a trick.
pub enum TrickStep {
    /// The card was played and the trick goes on.
    Played(TrickView),
    /// The card may not be played; the trick is unchanged.
    Invalid,
    /// The card completed the trick, which the given player won.
    Complete(PlayerId, Seq<Card>),
}

impl TrickView {
    /// A trick holds fewer than three cards, and it has a winning player
    /// exactly when it holds a card.
    pub open spec fn wf(self) -> bool {
        &&& self.cards.len() < 3
        &&& (self.cards.len() == 0) == (self.winning_player == PlayerId::NONE)
    }

    pub open spec fn empty() -> TrickView {
        TrickView { cards: Seq::empty(), winning_player: PlayerId::NONE }
    }

    /// The effect of `player`, holding `hand`, playing `card` on the trick.
    /// The leading card is always accepted; any other card must be allowed by
    /// the rules of the game, and takes the lead of the trick when it beats
    /// every card already played. The third card completes the trick.
    pub open spec fn play(self, game: Game, player: PlayerId, hand: Seq<Card>, card: Card) -> TrickStep {
        if self.cards.len() == 0 {
            TrickStep::Played(TrickView { cards: seq![card], winning_player: player })
        } else if !game.spec_can_play_card(self.cards, hand, card) {
            TrickStep::Invalid
        } else {
            let winner = if game.spec_card_wins_trick(self.cards, card) {
                player
            } else {
                self.winning_player
            };
            let cards = self.cards.push(card);
            if cards.len() == 3 {
                TrickStep::Complete(winner, cards)
            } else {
                TrickStep::Played(TrickView { cards, winning_player: winner })
            }
        }
    }
}

impl View for Trick {
    type V = TrickView;

    closed spec fn view(&self) -> TrickView {
        TrickView { cards: self.cards@, winning_player: self.winning_player }
    }
}

/// What came of playing a card on a trick.
pub enum PlayCardOutcome {
    CardPlayed,
    InvalidCard,
    TrickComplete(WonTrick),
}

/// A completed trick and the player who won it.
#[derive(Clone, Copy, Debug)]
pub struct WonTrick {
    pub winning_player: PlayerId,
    pub cards: [Card; 3],
}

/// The mathematical value of a won trick.
pub struct WonTrickView {
    pub winning_player: PlayerId,
    pub cards: Seq<Card>,
}

impl View for WonTrick {
    type V = WonTrickView;

    open spec fn view(&self) -> WonTrickView {
        WonTrickView { winning_player: self.winning_player, cards: self.cards@ }
    }
}

impl Trick {
    pub fn empty() -> (r: Self)
        ensures
            r@ == TrickView::empty(),
    {
        let r = Self { cards: Vec::with_capacity(3), winning_player: PlayerId::none() };
        assert(r@.cards =~= Seq::<Card>::empty());
        r
    }

    pub fn leading_card(&self) -> (r: Option<Card>)
        ensures
            r == (if self@.cards.len() == 0 { None } else { Some(self@.cards[0]) }),
    {
        if self.cards.len() == 0 {
            None
        } else {
            Some(self.cards[0])
        }
    }

    pub fn top_card(&self) -> (r: Option<Card>)
        ensures
            r == (if self@.cards.len() == 0 { None } else { Some(self@.cards.last()) }),
    {
        if self.cards.len() == 0 {
            None
        } else {
            Some(self.cards[self.cards.len() - 1])
        }
    }

    pub fn cards(&self) -> (r: &Vec<Card>)
        ensures
            r@ == self@.cards,
    {
        &self.cards
    }

    pub fn currently_winning_player(&self) -> (r: Option<PlayerId>)
        ensures
            r == (if self@.winning_player == PlayerId::NONE { None } else { Some(self@.winning_player) }),
    {
        self.winning_player.into_option()
    }

    /// Plays `card` from `hand` for `player`. Returns the trick to play on
    /// next (an empty one once the trick is complete) and what happened.
    pub fn try_play_card(self, game: &Game, player: PlayerId, hand: &[Card], card: Card) -> (r: (
        Self,
        PlayCardOutcome,
    ))
        requires
            self@.wf(),
            player != PlayerId::NONE,
        ensures
            r.0@.wf(),
            match self@.play(*game, player, hand@, card) {
                TrickStep::Played(next) => r.0@ == next && r.1 is CardPlayed,
                TrickStep::Invalid => r.0@ == self@ && r.1 is InvalidCard,
                TrickStep::Complete(winner, cards) => {
                    &&& r.0@ == TrickView::empty()
                    &&& r.1 matches PlayCardOutcome::TrickComplete(won)
                    &&& won.winning_player == winner
                    &&& won.cards@ == cards
                },
            },
    {
        let mut trick = self;
        if trick.cards.len() == 0 {
            trick.cards.push(card);
            trick.winning_player = player;
            assert(trick@.cards =~= seq![card]);
            return (trick, PlayCardOutcome::CardPlayed);
        }
        if !game.can_play_card(trick.cards.as_slice(), hand, card) {
            return (trick, PlayCardOutcome::InvalidCard);
        }
        if game.card_wins_trick(trick.cards.as_slice(), card) {
            trick.winning_player = player;
        }
        trick.cards.push(card);

        if trick.cards.len() == 3 {
            let cards = [trick.cards[0], trick.cards[1], trick.cards[2]];
            assert(cards@ =~= trick@.cards);
            return (
                Self::empty(),
                PlayCardOutcome::TrickComplete(
                    WonTrick { winning_player: trick.winning_player, cards },
                ),
            );
        }
        (trick, PlayCardOutcome::CardPlayed)
    }
}

} // verus!
