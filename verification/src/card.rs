use vstd::prelude::*;

use crate::{game::Game, rank::Rank, suit::Suit};

verus! {

/// A playing card of the 32-card Skat deck.
#[derive(Clone, Copy, Debug, PartialEq, Eq, Hash, Structural)]
pub struct Card {
    pub rank: Rank,
    pub suit: Suit,
}

impl Card {
    /// Whether the card is a trump card in the current game.
    pub fn is_trump(&self, game: &Game) -> (r: bool)
        ensures
            r == game.spec_is_trump(*self),
    {
        match game {
            Game::Suit(suit_game) => self.rank == Rank::Jack || self.suit == suit_game.trump_suit,
            Game::Grand(_) => self.rank == Rank::Jack,
            Game::Null(_) => false,
        }
    }

    /// The card written as Rust code that builds it with the `Card!` macro,
    /// such as `Card!(Jack of Clubs)`.
    pub open spec fn spec_display_rust(self) -> Seq<char> {
        "Card!("@ + self.rank.spec_name() + " of "@ + self.suit.spec_name() + ")"@
    }

    pub fn display_rust(&self) -> (r: String)
        ensures
            r@ == self.spec_display_rust(),
    {
        let mut r = String::new();
        r.append("Card!(");
        r.append(self.rank.name());
        r.append(" of ");
        r.append(self.suit.name());
        r.append(")");
        r
    }

    /// The Unicode playing card character of the card.
    pub fn char(&self) -> (r: char)
        ensures
            r as u32 == self.spec_char_code(),
    {
        match self.suit {
            Suit::Diamonds => match self.rank {
                Rank::N7 => '\u{1F0C7}',
                Rank::N8 => '\u{1F0C8}',
                Rank::N9 => '\u{1F0C9}',
                Rank::N10 => '\u{1F0CA}',
                Rank::Jack => '\u{1F0CB}',
                Rank::Queen => '\u{1F0CD}',
                Rank::King => '\u{1F0CE}',
                Rank::Ace => '\u{1F0C1}',
            },
            Suit::Hearts => match self.rank {
                Rank::N7 => '\u{1F0B7}',
                Rank::N8 => '\u{1F0B8}',
                Rank::N9 => '\u{1F0B9}',
                Rank::N10 => '\u{1F0BA}',
                Rank::Jack => '\u{1F0BB}',
                Rank::Queen => '\u{1F0BD}',
                Rank::King => '\u{1F0BE}',
                Rank::Ace => '\u{1F0B1}',
            },
            Suit::Spades => match self.rank {
                Rank::N7 => '\u{1F0A7}',
                Rank::N8 => '\u{1F0A8}',
                Rank::N9 => '\u{1F0A9}',
                Rank::N10 => '\u{1F0AA}',
                Rank::Jack => '\u{1F0AB}',
                Rank::Queen => '\u{1F0AD}',
                Rank::King => '\u{1F0AE}',
                Rank::Ace => '\u{1F0A1}',
            },
            Suit::Clubs => match self.rank {
                Rank::N7 => '\u{1F0D7}',
                Rank::N8 => '\u{1F0D8}',
                Rank::N9 => '\u{1F0D9}',
                Rank::N10 => '\u{1F0DA}',
                Rank::Jack => '\u{1F0DB}',
                Rank::Queen => '\u{1F0DD}',
                Rank::King => '\u{1F0DE}',
                Rank::Ace => '\u{1F0D1}',
            },
        }
    }

    /// The code point of the card in the Unicode block of playing cards: one
    /// row of sixteen per suit (spades, hearts, diamonds, clubs), the ace at
    /// one, the number cards at their number, then jack, knight, queen, king.
    pub open spec fn spec_char_code(self) -> u32 {
        let row: u32 = match self.suit {
            Suit::Spades => 0,
            Suit::Hearts => 1,
            Suit::Diamonds => 2,
            Suit::Clubs => 3,
        };
        let column: u32 = match self.rank {
            Rank::Ace => 1,
            Rank::N7 => 7,
            Rank::N8 => 8,
            Rank::N9 => 9,
            Rank::N10 => 10,
            Rank::Jack => 11,
            Rank::Queen => 13,
            Rank::King => 14,
        };
        (0x1F0A0 + 16 * row + column) as u32
    }
}

/// The ranks in deck order.
pub open spec fn rank_at(i: int) -> Rank {
    if i == 0 { Rank::N7 }
    else if i == 1 { Rank::N8 }
    else if i == 2 { Rank::N9 }
    else if i == 3 { Rank::N10 }
    else if i == 4 { Rank::Jack }
    else if i == 5 { Rank::Queen }
    else if i == 6 { Rank::King }
    else { Rank::Ace }
}

/// The suits in deck order.
pub open spec fn suit_at(i: int) -> Suit {
    if i == 0 { Suit::Diamonds }
    else if i == 1 { Suit::Hearts }
    else if i == 2 { Suit::Spades }
    else { Suit::Clubs }
}

/// The position of a card in the deck.
pub open spec fn deck_index(card: Card) -> int {
    let s: int = match card.suit {
        Suit::Diamonds => 0,
        Suit::Hearts => 1,
        Suit::Spades => 2,
        Suit::Clubs => 3,
    };
    let r: int = match card.rank {
        Rank::N7 => 0,
        Rank::N8 => 1,
        Rank::N9 => 2,
        Rank::N10 => 3,
        Rank::Jack => 4,
        Rank::Queen => 5,
        Rank::King => 6,
        Rank::Ace => 7,
    };
    8 * s + r
}

/// The 32 cards of a Skat deck, suit by suit, each suit from 7 to ace.
pub open spec fn spec_deck() -> Seq<Card> {
    Seq::new(32, |i: int| Card { rank: rank_at(i % 8), suit: suit_at(i / 8) })
}

/// The deck holds each of the 32 cards exactly once.
pub proof fn lemma_deck_holds_every_card_once()
    ensures
        spec_deck().len() == 32,
        spec_deck().no_duplicates(),
        forall|card: Card| spec_deck().contains(card),
        forall|card: Card| #[trigger] spec_deck()[deck_index(card)] == card,
{
    assert forall|card: Card| #[trigger] spec_deck()[deck_index(card)] == card by {
        let i = deck_index(card);
        assert(0 <= i < 32);
    }
    assert forall|card: Card| spec_deck().contains(card) by {
        assert(spec_deck()[deck_index(card)] == card);
    }
    assert forall|i: int, j: int| 0 <= i < 32 && 0 <= j < 32 && i != j implies spec_deck()[i] != spec_deck()[j] by {
        assert(deck_index(spec_deck()[i]) == i);
        assert(deck_index(spec_deck()[j]) == j);
    }
}

/// Returns all 32 cards of a Skat deck, suit by suit (diamonds, hearts,
/// spades, clubs), each suit from 7 to ace.
pub fn deck() -> (r: Vec<Card>)
    ensures
        r@ == spec_deck(),
{
    let r = vec![
        Card { rank: Rank::N7, suit: Suit::Diamonds },
        Card { rank: Rank::N8, suit: Suit::Diamonds },
        Card { rank: Rank::N9, suit: Suit::Diamonds },
        Card { rank: Rank::N10, suit: Suit::Diamonds },
        Card { rank: Rank::Jack, suit: Suit::Diamonds },
        Card { rank: Rank::Queen, suit: Suit::Diamonds },
        Card { rank: Rank::King, suit: Suit::Diamonds },
        Card { rank: Rank::Ace, suit: Suit::Diamonds },
        Card { rank: Rank::N7, suit: Suit::Hearts },
        Card { rank: Rank::N8, suit: Suit::Hearts },
        Card { rank: Rank::N9, suit: Suit::Hearts },
        Card { rank: Rank::N10, suit: Suit::Hearts },
        Card { rank: Rank::Jack, suit: Suit::Hearts },
        Card { rank: Rank::Queen, suit: Suit::Hearts },
        Card { rank: Rank::King, suit: Suit::Hearts },
        Card { rank: Rank::Ace, suit: Suit::Hearts },
        Card { rank: Rank::N7, suit: Suit::Spades },
        Card { rank: Rank::N8, suit: Suit::Spades },
        Card { rank: Rank::N9, suit: Suit::Spades },
        Card { rank: Rank::N10, suit: Suit::Spades },
        Card { rank: Rank::Jack, suit: Suit::Spades },
        Card { rank: Rank::Queen, suit: Suit::Spades },
        Card { rank: Rank::King, suit: Suit::Spades },
        Card { rank: Rank::Ace, suit: Suit::Spades },
        Card { rank: Rank::N7, suit: Suit::Clubs },
        Card { rank: Rank::N8, suit: Suit::Clubs },
        Card { rank: Rank::N9, suit: Suit::Clubs },
        Card { rank: Rank::N10, suit: Suit::Clubs },
        Card { rank: Rank::Jack, suit: Suit::Clubs },
        Card { rank: Rank::Queen, suit: Suit::Clubs },
        Card { rank: Rank::King, suit: Suit::Clubs },
        Card { rank: Rank::Ace, suit: Suit::Clubs },
    ];
    assert(r@ =~= spec_deck());
    r
}

} // verus!

