use vstd::prelude::*;

use crate::hand::Hand;

verus! {

/// The state of a player, including their hand.
#[derive(Clone, Debug)]
pub struct PlayerState {
    pub hand: Hand,
}

impl PlayerState {
    pub fn new(hand: Hand) -> (r: Self)
        ensures
            r.hand == hand,
    {
        Self { hand }
    }
}

/// Identifies one of the three players. `NONE` is a placeholder for a player
/// that is not known yet.
#[allow(non_camel_case_types)]
#[derive(Debug, Clone, Copy, PartialEq, Eq, Structural)]
pub enum PlayerId {
    FIRST,
    SECOND,
    THIRD,
    /// Can be used as a placeholder when the player ID will definitely be
    /// assigned.
    NONE,
}

impl View for PlayerId {
    type V = usize;

    /// The index of the player (0, 1 or 2), or `usize::MAX` for `NONE`.
    open spec fn view(&self) -> usize {
        match self {
            PlayerId::FIRST => 0,
            PlayerId::SECOND => 1,
            PlayerId::THIRD => 2,
            PlayerId::NONE => usize::MAX,
        }
    }
}

impl PlayerId {
    /// The player of the given index.
    pub open spec fn of_index(index: int) -> PlayerId {
        if index == 0 {
            PlayerId::FIRST
        } else if index == 1 {
            PlayerId::SECOND
        } else if index == 2 {
            PlayerId::THIRD
        } else {
            PlayerId::NONE
        }
    }

    /// The player who plays after this one.
    pub open spec fn spec_next(self) -> PlayerId {
        PlayerId::of_index((self@ + 1) % 3)
    }

    /// Returns the [PlayerId::NONE] value. This can be used as a placeholder
    /// when the player ID will definitely be assigned but is not yet known.
    pub fn none() -> (r: Self)
        ensures
            r == PlayerId::NONE,
    {
        PlayerId::NONE
    }

    pub fn is_none(self) -> (r: bool)
        ensures
            r == (self == PlayerId::NONE),
    {
        match self {
            PlayerId::NONE => true,
            _ => false,
        }
    }

    /// Checks if the [PlayerId] is [PlayerId::NONE], and returns an [Option]
    /// of non-none [PlayerId].
    pub fn into_option(self) -> (r: Option<Self>)
        ensures
            r == (if self == PlayerId::NONE { None } else { Some(self) }),
    {
        if self.is_none() {
            None
        } else {
            Some(self)
        }
    }

    pub fn next(self) -> (r: Self)
        requires
            self != PlayerId::NONE,
        ensures
            r == self.spec_next(),
            r@ == (self@ + 1) % 3,
    {
        match self {
            PlayerId::FIRST => PlayerId::SECOND,
            PlayerId::SECOND => PlayerId::THIRD,
            PlayerId::THIRD => PlayerId::FIRST,
            PlayerId::NONE => PlayerId::NONE,
        }
    }

    pub fn into_inner(self) -> (r: usize)
        requires
            self != PlayerId::NONE,
        ensures
            r == self@,
            r < 3,
    {
        match self {
            PlayerId::FIRST => 0,
            PlayerId::SECOND => 1,
            PlayerId::THIRD => 2,
            PlayerId::NONE => usize::MAX,
        }
    }
}

/// The players take turns in a cycle of three: every player differs from the
/// player after them, and the third player after a player is that player
/// again.
pub proof fn lemma_turns_cycle(player: PlayerId)
    requires
        player != PlayerId::NONE,
    ensures
        player.spec_next() != PlayerId::NONE,
        player.spec_next() != player,
        player.spec_next().spec_next().spec_next() == player,
{
}

impl From<PlayerId> for usize {
    fn from(value: PlayerId) -> (r: usize) {
        match value {
            PlayerId::FIRST => 0,
            PlayerId::SECOND => 1,
            PlayerId::THIRD => 2,
            PlayerId::NONE => usize::MAX,
        }
    }
}

impl vstd::std_specs::convert::FromSpecImpl<PlayerId> for usize {
    open spec fn obeys_from_spec() -> bool {
        true
    }

    open spec fn from_spec(v: PlayerId) -> usize {
        v@
    }
}

impl TryFrom<usize> for PlayerId {
    type Error = &'static str;

    fn try_from(value: usize) -> (r: Result<Self, Self::Error>) {
        if value == 0 {
            Ok(PlayerId::FIRST)
        } else if value == 1 {
            Ok(PlayerId::SECOND)
        } else if value == 2 {
            Ok(PlayerId::THIRD)
        } else {
            Err("Player ID must be less than 3")
        }
    }
}

impl vstd::std_specs::convert::TryFromSpecImpl<usize> for PlayerId {
    open spec fn obeys_try_from_spec() -> bool {
        true
    }

    open spec fn try_from_spec(v: usize) -> Result<Self, Self::Error> {
        if v < 3 {
            Ok(PlayerId::of_index(v as int))
        } else {
            Err("Player ID must be less than 3")
        }
    }
}

} // verus!
