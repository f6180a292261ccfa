use vstd::prelude::*;

verus! {

/// The four suits of a Skat deck.
#[derive(Clone, Copy, Debug, PartialEq, Eq, Hash, Structural)]
pub enum Suit {
    Diamonds,
    Hearts,
    Spades,
    Clubs,
}

impl Suit {
    /// The base value of a suit game in which this suit is trumps; it also
    /// ranks the jacks against each other.
    pub open spec fn spec_base_value(self) -> u8 {
        match self {
            Suit::Diamonds => 9,
            Suit::Hearts => 10,
            Suit::Spades => 11,
            Suit::Clubs => 12,
        }
    }

    /// The English name of the suit.
    pub open spec fn spec_name(self) -> Seq<char> {
        match self {
            Suit::Diamonds => "Diamonds"@,
            Suit::Hearts => "Hearts"@,
            Suit::Spades => "Spades"@,
            Suit::Clubs => "Clubs"@,
        }
    }

    /// The base value of the game when the suit is chosen as trumps.
    pub fn base_value(&self) -> (r: u8)
        ensures
            r == self.spec_base_value(),
    {
        match self {
            Suit::Diamonds => 9,
            Suit::Hearts => 10,
            Suit::Spades => 11,
            Suit::Clubs => 12,
        }
    }

    pub fn name(&self) -> (r: &'static str)
        ensures
            r@ == self.spec_name(),
    {
        match self {
            Suit::Diamonds => "Diamonds",
            Suit::Hearts => "Hearts",
            Suit::Spades => "Spades",
            Suit::Clubs => "Clubs",
        }
    }
}

} // verus!
