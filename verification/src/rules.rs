use vstd::prelude::*;

use crate::card::Card;

verus! {

/// The rules that decide which cards may be played on a trick and which card
/// of a trick is winning.
///
/// Each game describes its rules by two notions relative to the card that led
/// the trick: whether a card follows suit, and how strong a card is. A
/// strength below zero means the card can never win the trick.
pub trait GameRules {
    /// Whether `card` follows the suit led by `leading_card`.
    spec fn spec_follows_suit(&self, leading_card: Card, card: Card) -> bool;

    /// The strength of `card` in a trick led by `leading_card`.
    spec fn spec_strength(&self, leading_card: Card, card: Card) -> int;

    /// Whether the card may be played on the trick. Every game allows a card
    /// when it leads the trick, when it follows suit, or when no card of the
    /// hand follows suit.
    spec fn spec_can_play_card(&self, trick: Seq<Card>, hand: Seq<Card>, card: Card) -> bool;

    /// Whether the card would be winning the trick. In every game a card is
    /// winning a trick when it is stronger than every card already in the
    /// trick (and so it also wins an empty trick).
    spec fn spec_card_wins_trick(&self, trick: Seq<Card>, card: Card) -> bool;

    /// Returns `true` if the card is allowed to be played on the trick.
    fn can_play_card(&self, trick: &[Card], hand: &[Card], card: Card) -> (r: bool)
        ensures
            r == self.spec_can_play_card(trick@, hand@, card),
    ;

    /// Returns `true` if the card would be the current winning card, if played.
    /// This does not necessarily guarantee that the card _will_ win the trick.
    fn card_wins_trick(&self, trick: &[Card], card: Card) -> (r: bool)
        ensures
            r == self.spec_card_wins_trick(trick@, card),
    ;
}

} // verus!
