use std::cmp::Ordering;

use vstd::prelude::*;

use crate::game::GameKind;

verus! {

/// The eight ranks of a Skat deck.
#[derive(Clone, Copy, Debug, PartialEq, Eq, Hash, Structural)]
pub enum Rank {
    N7,
    N8,
    N9,
    N10,
    Jack,
    Queen,
    King,
    Ace,
}

impl Rank {
    /// The card points of the rank.
    pub open spec fn spec_point_value(self) -> u8 {
        match self {
            Rank::N7 => 0,
            Rank::N8 => 0,
            Rank::N9 => 0,
            Rank::N10 => 10,
            Rank::Jack => 2,
            Rank::Queen => 3,
            Rank::King => 4,
            Rank::Ace => 11,
        }
    }

    /// The position of the rank in the order of the given game kind, lowest
    /// first. Suit and grand games order 7, 8, 9, Queen, King, 10, Ace, Jack;
    /// null games order 7, 8, 9, 10, Jack, Queen, King, Ace.
    pub open spec fn spec_raw_rank(self, game_kind: GameKind) -> u8 {
        match game_kind {
            GameKind::Suit | GameKind::Grand => match self {
                Rank::N7 => 0,
                Rank::N8 => 1,
                Rank::N9 => 2,
                Rank::Queen => 3,
                Rank::King => 4,
                Rank::N10 => 5,
                Rank::Ace => 6,
                Rank::Jack => 7,
            },
            GameKind::Null => match self {
                Rank::N7 => 0,
                Rank::N8 => 1,
                Rank::N9 => 2,
                Rank::N10 => 3,
                Rank::Jack => 4,
                Rank::Queen => 5,
                Rank::King => 6,
                Rank::Ace => 7,
            },
        }
    }

    /// The name of the rank: its number for the number cards, else its word.
    pub open spec fn spec_name(self) -> Seq<char> {
        match self {
            Rank::N7 => "7"@,
            Rank::N8 => "8"@,
            Rank::N9 => "9"@,
            Rank::N10 => "10"@,
            Rank::Jack => "Jack"@,
            Rank::Queen => "Queen"@,
            Rank::King => "King"@,
            Rank::Ace => "Ace"@,
        }
    }

    pub fn name(&self) -> (r: &'static str)
        ensures
            r@ == self.spec_name(),
    {
        match self {
            Rank::N7 => "7",
            Rank::N8 => "8",
            Rank::N9 => "9",
            Rank::N10 => "10",
            Rank::Jack => "Jack",
            Rank::Queen => "Queen",
            Rank::King => "King",
            Rank::Ace => "Ace",
        }
    }

    /// The number of points the card contributes to a won trick.
    pub fn point_value(&self) -> (r: u8)
        ensures
            r == self.spec_point_value(),
    {
        match self {
            Rank::N7 => 0,
            Rank::N8 => 0,
            Rank::N9 => 0,
            Rank::N10 => 10,
            Rank::Jack => 2,
            Rank::Queen => 3,
            Rank::King => 4,
            Rank::Ace => 11,
        }
    }

    /// Compares the rank to another rank, returning their relative ordering for
    /// the current game kind.
    pub fn compare(&self, other: &Rank, game_kind: GameKind) -> (r: Ordering)
        ensures
            (r == Ordering::Less) <==> self.spec_raw_rank(game_kind) < other.spec_raw_rank(game_kind),
            (r == Ordering::Equal) <==> self.spec_raw_rank(game_kind) == other.spec_raw_rank(game_kind),
            (r == Ordering::Greater) <==> self.spec_raw_rank(game_kind) > other.spec_raw_rank(game_kind),
    {
        let a = self.raw_rank(game_kind);
        let b = other.raw_rank(game_kind);
        if a < b {
            Ordering::Less
        } else if a == b {
            Ordering::Equal
        } else {
            Ordering::Greater
        }
    }

    /// Returns the rank as a number for use in ordering. This varies based on
    /// the game kind played, with null games having a different card order to
    /// suit or grand games.
    fn raw_rank(&self, game_kind: GameKind) -> (r: u8)
        ensures
            r == self.spec_raw_rank(game_kind),
    {
        match game_kind {
            GameKind::Suit | GameKind::Grand => match self {
                Rank::N7 => 0,
                Rank::N8 => 1,
                Rank::N9 => 2,
                Rank::Queen => 3,
                Rank::King => 4,
                Rank::N10 => 5,
                Rank::Ace => 6,
                Rank::Jack => 7,
            },
            GameKind::Null => match self {
                Rank::N7 => 0,
                Rank::N8 => 1,
                Rank::N9 => 2,
                Rank::N10 => 3,
                Rank::Jack => 4,
                Rank::Queen => 5,
                Rank::King => 6,
                Rank::Ace => 7,
            },
        }
    }
}

/// The place of a rank in suit and grand games, from the lowest: 7, 8, 9,
/// Queen, King, 10, Ace, Jack.
pub open spec fn suit_order_position(rank: Rank) -> int {
    match rank {
        Rank::N7 => 0,
        Rank::N8 => 1,
        Rank::N9 => 2,
        Rank::Queen => 3,
        Rank::King => 4,
        Rank::N10 => 5,
        Rank::Ace => 6,
        Rank::Jack => 7,
    }
}

/// The place of a rank in null games, from the lowest: 7, 8, 9, 10, Jack,
/// Queen, King, Ace.
pub open spec fn null_order_position(rank: Rank) -> int {
    match rank {
        Rank::N7 => 0,
        Rank::N8 => 1,
        Rank::N9 => 2,
        Rank::N10 => 3,
        Rank::Jack => 4,
        Rank::Queen => 5,
        Rank::King => 6,
        Rank::Ace => 7,
    }
}

/// `Rank::compare` orders ranks by their places in the game kind's order.
pub proof fn lemma_compare_follows_rank_order(a: Rank, b: Rank, kind: GameKind)
    ensures
        kind != GameKind::Null ==> (a.spec_raw_rank(kind) < b.spec_raw_rank(kind)
            <==> suit_order_position(a) < suit_order_position(b)),
        kind == GameKind::Null ==> (a.spec_raw_rank(kind) < b.spec_raw_rank(kind)
            <==> null_order_position(a) < null_order_position(b)),
        (a.spec_raw_rank(kind) == b.spec_raw_rank(kind)) <==> a == b,
{
}

/// In suit and grand games the ranks go 7, 8, 9, Queen, King, 10, Ace,
/// Jack from lowest to highest; in null games 7, 8, 9, 10, Jack, Queen,
/// King, Ace. `Rank::compare` orders ranks by these chains.
pub proof fn lemma_rank_orders()
    ensures
        forall|kind: GameKind| kind != GameKind::Null ==> {
            &&& Rank::N7.spec_raw_rank(kind) < Rank::N8.spec_raw_rank(kind)
            &&& Rank::N8.spec_raw_rank(kind) < Rank::N9.spec_raw_rank(kind)
            &&& Rank::N9.spec_raw_rank(kind) < Rank::Queen.spec_raw_rank(kind)
            &&& Rank::Queen.spec_raw_rank(kind) < Rank::King.spec_raw_rank(kind)
            &&& Rank::King.spec_raw_rank(kind) < Rank::N10.spec_raw_rank(kind)
            &&& Rank::N10.spec_raw_rank(kind) < Rank::Ace.spec_raw_rank(kind)
            &&& Rank::Ace.spec_raw_rank(kind) < Rank::Jack.spec_raw_rank(kind)
        },
        Rank::N7.spec_raw_rank(GameKind::Null) < Rank::N8.spec_raw_rank(GameKind::Null),
        Rank::N8.spec_raw_rank(GameKind::Null) < Rank::N9.spec_raw_rank(GameKind::Null),
        Rank::N9.spec_raw_rank(GameKind::Null) < Rank::N10.spec_raw_rank(GameKind::Null),
        Rank::N10.spec_raw_rank(GameKind::Null) < Rank::Jack.spec_raw_rank(GameKind::Null),
        Rank::Jack.spec_raw_rank(GameKind::Null) < Rank::Queen.spec_raw_rank(GameKind::Null),
        Rank::Queen.spec_raw_rank(GameKind::Null) < Rank::King.spec_raw_rank(GameKind::Null),
        Rank::King.spec_raw_rank(GameKind::Null) < Rank::Ace.spec_raw_rank(GameKind::Null),
{
}

} // verus!
