use std::cmp::Ordering;

use vstd::prelude::*;

use crate::{card::Card, game::GameKind, rank::null_order_position, rules::GameRules};

verus! {

/// A null game. There are no trumps. The objective is for the soloist to win
/// zero tricks.
#[derive(Clone, Copy, Debug, PartialEq, Eq, Structural)]
pub struct NullGame {}

impl NullGame {
    pub fn card_follows_suit(&self, leading_card: Card, card: Card) -> (r: bool)
        ensures
            r == self.spec_follows_suit(leading_card, card),
    {
        leading_card.suit == card.suit
    }
}

impl GameRules for NullGame {
    open spec fn spec_follows_suit(&self, leading_card: Card, card: Card) -> bool {
        leading_card.suit == card.suit
    }

    /// A card of the led suit ranks by its null rank; any other card cannot win.
    open spec fn spec_strength(&self, leading_card: Card, card: Card) -> int {
        if self.spec_follows_suit(leading_card, card) {
            card.rank.spec_raw_rank(GameKind::Null) as int
        } else {
            -1
        }
    }

    open spec fn spec_can_play_card(&self, trick: Seq<Card>, hand: Seq<Card>, card: Card) -> bool {
        ||| trick.len() == 0
        ||| self.spec_follows_suit(trick[0], card)
        ||| forall|i: int| 0 <= i < hand.len() ==> !self.spec_follows_suit(trick[0], #[trigger] hand[i])
    }

    open spec fn spec_card_wins_trick(&self, trick: Seq<Card>, card: Card) -> bool {
        forall|i: int|
            0 <= i < trick.len() ==> self.spec_strength(trick[0], #[trigger] trick[i])
                < self.spec_strength(trick[0], card)
    }

    fn can_play_card(&self, trick: &[Card], hand: &[Card], card: Card) -> (r: bool) {
        // If there is no leading card, it is legal to play the card.
        if trick.len() == 0 {
            return true;
        }
        let leading_card = trick[0];

        // If the player follows suit, it is legal to play the card.
        if self.card_follows_suit(leading_card, card) {
            return true;
        }

        // If the player is able to follow suit but doesn't, it is illegal to
        // play the card.
        let mut i: usize = 0;
        while i < hand.len()
            invariant
                0 <= i <= hand@.len(),
                trick@.len() > 0,
                leading_card == trick@[0],
                !self.spec_follows_suit(leading_card, card),
                forall|j: int| 0 <= j < i ==> !self.spec_follows_suit(leading_card, #[trigger] hand@[j]),
            decreases hand@.len() - i,
        {
            if self.card_follows_suit(leading_card, hand[i]) {
                return false;
            }
            i += 1;
        }

        // If the player is unable to follow suit, it is legal to play the card.
        true
    }

    fn card_wins_trick(&self, trick: &[Card], card: Card) -> (r: bool) {
        // If there is no leading card, the card is the current winner of the
        // trick.
        if trick.len() == 0 {
            return true;
        }
        let leading_card = trick[0];

        // If the card does not follow suit, it cannot win the trick.
        if !self.card_follows_suit(leading_card, card) {
            assert(self.spec_strength(leading_card, trick@[0]) >= 0);
            return false;
        }

        // If the card is a higher rank than each of the other suit-following
        // cards in the trick, then it is the current winner of the trick.
        let mut i: usize = 0;
        while i < trick.len()
            invariant
                0 <= i <= trick@.len(),
                trick@.len() > 0,
                leading_card == trick@[0],
                self.spec_follows_suit(leading_card, card),
                forall|j: int|
                    0 <= j < i ==> self.spec_strength(leading_card, #[trigger] trick@[j])
                        < self.spec_strength(leading_card, card),
            decreases trick@.len() - i,
        {
            let trick_card = trick[i];
            if trick_card.suit == leading_card.suit {
                match trick_card.rank.compare(&card.rank, GameKind::Null) {
                    Ordering::Less => {},
                    _ => {
                        return false;
                    },
                }
            }
            i += 1;
        }
        true
    }
}

/// Between two cards of the same suit, the card played second wins the
/// trick that the first one led exactly when its rank is higher in the null
/// order 7, 8, 9, 10, Jack, Queen, King, Ace; a card of another suit never
/// wins it.
pub proof fn lemma_higher_card_of_the_suit_wins(game: NullGame, led: Card, played: Card)
    ensures
        played.suit == led.suit ==> (game.spec_card_wins_trick(seq![led], played)
            <==> null_order_position(played.rank) > null_order_position(led.rank)),
        played.suit != led.suit ==> !game.spec_card_wins_trick(seq![led], played),
{
    let trick = seq![led];
    assert(trick[0] == led);
    assert(game.spec_card_wins_trick(trick, played) <==> game.spec_strength(trick[0], trick[0])
        < game.spec_strength(trick[0], played));
}

/// A null game has no trumps: a card follows the lead exactly when it is of
/// the same suit, a jack included.
pub proof fn lemma_null_following(game: NullGame, leading_card: Card, card: Card)
    ensures
        game.spec_follows_suit(leading_card, card) <==> card.suit == leading_card.suit,
{
}

} // verus!
