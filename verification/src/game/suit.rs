use std::cmp::Ordering;

use vstd::prelude::*;

use crate::{card::Card, game::{GameKind, grand::jack_position}, rank::{Rank, suit_order_position}, rules::GameRules, suit::Suit};

verus! {

/// A regular suit game. All jacks and each card of the chosen suit are trumps.
/// The objective is for the soloist to win more than half the available points.
#[derive(Clone, Copy, Debug, PartialEq, Eq, Structural)]
pub struct SuitGame {
    /// All jacks and each card of this suit are trumps.
    pub trump_suit: Suit,
}

impl SuitGame {
    pub open spec fn spec_card_is_trump(self, card: Card) -> bool {
        card.rank == Rank::Jack || card.suit == self.trump_suit
    }

    pub fn card_is_trump(&self, card: Card) -> (r: bool)
        ensures
            r == self.spec_card_is_trump(card),
    {
        card.rank == Rank::Jack || card.suit == self.trump_suit
    }

    /// A trump lead is followed by any trump; any other lead is followed by a
    /// card of its suit that is not a trump (a jack belongs to the trumps, not
    /// to the suit printed on it).
    pub fn card_follows_suit(&self, leading_card: Card, card: Card) -> (r: bool)
        ensures
            r == self.spec_follows_suit(leading_card, card),
    {
        if self.card_is_trump(leading_card) {
            self.card_is_trump(card)
        } else {
            !self.card_is_trump(card) && card.suit == leading_card.suit
        }
    }
}

impl GameRules for SuitGame {
    open spec fn spec_follows_suit(&self, leading_card: Card, card: Card) -> bool {
        if self.spec_card_is_trump(leading_card) {
            self.spec_card_is_trump(card)
        } else {
            !self.spec_card_is_trump(card) && card.suit == leading_card.suit
        }
    }

    /// Jacks beat everything and rank by the base value of their suit; the
    /// other trumps beat every non-trump and rank by their rank; a card
    /// following a non-trump lead ranks by its rank; any other card cannot win.
    open spec fn spec_strength(&self, leading_card: Card, card: Card) -> int {
        if card.rank == Rank::Jack {
            200 + card.suit.spec_base_value()
        } else if self.spec_card_is_trump(card) {
            100 + card.rank.spec_raw_rank(GameKind::Suit)
        } else if self.spec_follows_suit(leading_card, card) {
            card.rank.spec_raw_rank(GameKind::Suit) as int
        } else {
            -1
        }
    }

    open spec fn spec_can_play_card(&self, trick: Seq<Card>, hand: Seq<Card>, card: Card) -> bool {
        ||| trick.len() == 0
        ||| self.spec_follows_suit(trick[0], card)
        ||| forall|i: int| 0 <= i < hand.len() ==> !self.spec_follows_suit(trick[0], #[trigger] hand[i])
    }

    open spec fn spec_card_wins_trick(&self, trick: Seq<Card>, card: Card) -> bool {
        forall|i: int|
            0 <= i < trick.len() ==> self.spec_strength(trick[0], #[trigger] trick[i])
                < self.spec_strength(trick[0], card)
    }

    fn can_play_card(&self, trick: &[Card], hand: &[Card], card: Card) -> (r: bool) {
        // If there is no leading card, it is legal to play the card.
        if trick.len() == 0 {
            return true;
        }
        let leading_card = trick[0];

        // If the player follows suit, it is legal to play the card.
        if self.card_follows_suit(leading_card, card) {
            return true;
        }

        // If the player is able to follow suit but doesn't, it is illegal to
        // play the card.
        let mut i: usize = 0;
        while i < hand.len()
            invariant
                0 <= i <= hand@.len(),
                trick@.len() > 0,
                leading_card == trick@[0],
                !self.spec_follows_suit(leading_card, card),
                forall|j: int| 0 <= j < i ==> !self.spec_follows_suit(leading_card, #[trigger] hand@[j]),
            decreases hand@.len() - i,
        {
            if self.card_follows_suit(leading_card, hand[i]) {
                return false;
            }
            i += 1;
        }

        // If the player is unable to follow suit, it is legal to play the card.
        true
    }

    fn card_wins_trick(&self, trick: &[Card], card: Card) -> (r: bool) {
        // If there is no leading card, the card is the current winner of the
        // trick.
        if trick.len() == 0 {
            return true;
        }
        let leading_card = trick[0];

        let card_follows_suit = self.card_follows_suit(leading_card, card);
        let card_is_trump = self.card_is_trump(card);

        // If the card does not follow suit and is not trump, then it cannot
        // win the trick.
        if !card_follows_suit && !card_is_trump {
            assert(self.spec_strength(leading_card, trick@[0]) >= 0);
            return false;
        }

        // The card is winning if it beats every card of the trick that follows
        // suit or is a trump; the other cards cannot win.
        let mut i: usize = 0;
        while i < trick.len()
            invariant
                0 <= i <= trick@.len(),
                trick@.len() > 0,
                leading_card == trick@[0],
                card_is_trump == self.spec_card_is_trump(card),
                card_follows_suit == self.spec_follows_suit(leading_card, card),
                card_follows_suit || card_is_trump,
                forall|j: int|
                    0 <= j < i ==> self.spec_strength(leading_card, #[trigger] trick@[j])
                        < self.spec_strength(leading_card, card),
            decreases trick@.len() - i,
        {
            let trick_card = trick[i];
            let trick_card_is_trump = self.card_is_trump(trick_card);
            if trick_card_is_trump || self.card_follows_suit(leading_card, trick_card) {
                let beats = match (trick_card_is_trump, card_is_trump) {
                    // Between two trumps, a jack beats any other trump, two
                    // jacks rank by the base value of their suit, and two
                    // other trumps rank by their rank.
                    (true, true) => {
                        let trick_card_is_jack = trick_card.rank == Rank::Jack;
                        let card_is_jack = card.rank == Rank::Jack;
                        match (trick_card_is_jack, card_is_jack) {
                            (true, true) => trick_card.suit.base_value() < card.suit.base_value(),
                            (true, false) => false,
                            (false, true) => true,
                            (false, false) => match trick_card.rank.compare(&card.rank, GameKind::Suit) {
                                Ordering::Less => true,
                                _ => false,
                            },
                        }
                    },
                    // A trump beats any card that is not a trump.
                    (true, false) => false,
                    (false, true) => true,
                    // If neither card is trump, then the one with the higher
                    // rank wins.
                    (false, false) => match trick_card.rank.compare(&card.rank, GameKind::Suit) {
                        Ordering::Less => true,
                        _ => false,
                    },
                };
                if !beats {
                    return false;
                }
            }
            i += 1;
        }
        true
    }
}

/// Between two trumps of the trump suit that are not jacks, the card played
/// second wins the trick that the first one led exactly when its rank is
/// higher in the order 7, 8, 9, Queen, King, 10, Ace.
pub proof fn lemma_higher_plain_trump_wins(game: SuitGame, led: Rank, played: Rank)
    requires
        led != Rank::Jack,
        played != Rank::Jack,
    ensures
        game.spec_card_wins_trick(
            seq![Card { rank: led, suit: game.trump_suit }],
            Card { rank: played, suit: game.trump_suit },
        ) <==> suit_order_position(played) > suit_order_position(led),
{
    let trick = seq![Card { rank: led, suit: game.trump_suit }];
    let card = Card { rank: played, suit: game.trump_suit };
    assert(trick[0] == Card { rank: led, suit: game.trump_suit });
    assert(game.spec_card_wins_trick(trick, card) <==> game.spec_strength(trick[0], trick[0])
        < game.spec_strength(trick[0], card));
}

/// A trump lead, whether a jack or a card of the trump suit, is followed by
/// exactly the trumps: every jack and every card of the trump suit.
pub proof fn lemma_trump_lead_is_followed_by_trumps(game: SuitGame, leading_card: Card, card: Card)
    requires
        leading_card.rank == Rank::Jack || leading_card.suit == game.trump_suit,
    ensures
        game.spec_follows_suit(leading_card, card) <==> (card.rank == Rank::Jack || card.suit
            == game.trump_suit),
{
}

/// On a trump lead, a player who holds a trump may not play a card that is
/// not a trump.
pub proof fn lemma_trump_lead_forces_a_trump(game: SuitGame, trick: Seq<Card>, hand: Seq<Card>, card: Card, i: int)
    requires
        trick.len() > 0,
        trick[0].rank == Rank::Jack || trick[0].suit == game.trump_suit,
        0 <= i < hand.len(),
        hand[i].rank == Rank::Jack || hand[i].suit == game.trump_suit,
        card.rank != Rank::Jack,
        card.suit != game.trump_suit,
    ensures
        !game.spec_can_play_card(trick, hand, card),
{
    assert(game.spec_follows_suit(trick[0], hand[i]));
}

/// Jacks rank by suit (clubs over spades over hearts over diamonds) and
/// beat every other card; any other trump beats every card that is not a
/// trump.
pub proof fn lemma_suit_game_trumps_win(game: SuitGame, led: Card, played: Card)
    ensures
        played.rank == Rank::Jack && led.rank == Rank::Jack ==> (game.spec_card_wins_trick(seq![led], played)
            <==> jack_position(played.suit) < jack_position(led.suit)),
        played.rank == Rank::Jack && led.rank != Rank::Jack ==> game.spec_card_wins_trick(seq![led], played),
        played.rank != Rank::Jack && played.suit == game.trump_suit && led.rank != Rank::Jack
            && led.suit != game.trump_suit ==> game.spec_card_wins_trick(seq![led], played),
        played.rank != Rank::Jack && played.suit != game.trump_suit && (led.rank == Rank::Jack
            || led.suit == game.trump_suit) ==> !game.spec_card_wins_trick(seq![led], played),
{
    let trick = seq![led];
    assert(trick[0] == led);
    assert(game.spec_card_wins_trick(trick, played) <==> game.spec_strength(trick[0], trick[0])
        < game.spec_strength(trick[0], played));
}

} // verus!
