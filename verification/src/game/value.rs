use vstd::prelude::*;

verus! {

/// The base value of each game, by which the game level is multiplied.
#[allow(non_camel_case_types)]
#[derive(Clone, Copy, Debug, PartialEq, Eq, Structural)]
pub enum GameValue {
    // Suit games
    DIAMONDS,
    HEARTS,
    SPADES,
    CLUBS,
    // Grand
    GRAND,
    // Null
    NULL,
    NULL_HAND,
    NULL_OVERT,
    NULL_OVERT_HAND,
}

impl GameValue {
    pub open spec fn spec_value(self) -> u16 {
        match self {
            GameValue::DIAMONDS => 9,
            GameValue::HEARTS => 10,
            GameValue::SPADES => 11,
            GameValue::CLUBS => 12,
            GameValue::GRAND => 24,
            GameValue::NULL => 23,
            GameValue::NULL_HAND => 35,
            GameValue::NULL_OVERT => 46,
            GameValue::NULL_OVERT_HAND => 59,
        }
    }
}

impl core::ops::Deref for GameValue {
    type Target = u16;

    fn deref(&self) -> (r: &u16)
        ensures
            *r == self.spec_value(),
    {
        match self {
            GameValue::DIAMONDS => &9,
            GameValue::HEARTS => &10,
            GameValue::SPADES => &11,
            GameValue::CLUBS => &12,
            GameValue::GRAND => &24,
            GameValue::NULL => &23,
            GameValue::NULL_HAND => &35,
            GameValue::NULL_OVERT => &46,
            GameValue::NULL_OVERT_HAND => &59,
        }
    }
}

} // verus!
