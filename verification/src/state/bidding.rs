use vstd::prelude::*;

use crate::{game::value::GameValue, state::player::PlayerId};

verus! {

/// The state of the bidding before a game is played.
#[derive(Clone, Debug)]
pub struct BiddingState {
    /// The player who dealt the hand.
    pub dealer_id: PlayerId,
    /// The current bidding step.
    current_bidding_step: usize,
}

/// Every value that can be bid, in ascending order.
pub const ALL_POSSIBLE_BIDDING_VALUES: [u16; 63] = [
    18, 20, 22, 23, 24, 27, 30, 33, 35, 36, 40, 44, 45, 46, 48, 50,
    54, 55, 59, 60, 63, 66, 70, 72, 77, 80, 81, 84, 88, 90, 96, 99,
    100, 108, 110, 117, 120, 121, 126, 130, 132, 135, 140, 143, 144, 150, 153, 154,
    156, 160, 162, 165, 168, 170, 176, 180, 187, 192, 198, 204, 216, 240, 264,
];

/// The mathematical value of a [BiddingState].
pub struct BiddingStateView {
    pub dealer_id: PlayerId,
    /// The position of the current bid in [ALL_POSSIBLE_BIDDING_VALUES].
    pub current_bidding_step: nat,
}

impl View for BiddingState {
    type V = BiddingStateView;

    closed spec fn view(&self) -> BiddingStateView {
        BiddingStateView {
            dealer_id: self.dealer_id,
            current_bidding_step: self.current_bidding_step as nat,
        }
    }
}

impl BiddingStateView {
    /// The bidding step is one of the possible bidding values.
    pub open spec fn wf(self) -> bool {
        self.current_bidding_step < 63
    }

    /// The value reached by the bidding.
    pub open spec fn current_bidding_value(self) -> u16 {
        ALL_POSSIBLE_BIDDING_VALUES@[self.current_bidding_step as int]
    }
}

impl BiddingState {
    /// The bidding before the first bid: it stands at the lowest bidding
    /// value.
    pub fn new(dealer_id: PlayerId) -> (r: Self)
        ensures
            r@ == (BiddingStateView { dealer_id, current_bidding_step: 0 }),
    {
        BiddingState { dealer_id, current_bidding_step: 0 }
    }

    /// The bidding value at the current step of the bidding.
    pub fn current_bidding_value(&self) -> (r: u16)
        requires
            self@.wf(),
        ensures
            r == self@.current_bidding_value(),
            r == ALL_POSSIBLE_BIDDING_VALUES@[self@.current_bidding_step as int],
    {
        ALL_POSSIBLE_BIDDING_VALUES[self.current_bidding_step]
    }
}

/// The possible bidding values, as numbers.
pub open spec fn bidding_values() -> Seq<int> {
    ALL_POSSIBLE_BIDDING_VALUES@.map_values(|value: u16| value as int)
}

/// The value of a game at a game level: its base value times the level.
pub open spec fn leveled_value(game: GameValue, level: int) -> int {
    game.spec_value() * level
}

/// Whether `value` is the value of some game: the base value of a suit game
/// (9 to 12) times a game level from 2 to 18, the base value of a grand (24)
/// times a game level from 2 to 11, or the fixed value of one of the null
/// games.
pub open spec fn is_game_value(value: int) -> bool {
    ||| exists|level: int| 2 <= level <= 18 && #[trigger] leveled_value(GameValue::DIAMONDS, level) == value
    ||| exists|level: int| 2 <= level <= 18 && #[trigger] leveled_value(GameValue::HEARTS, level) == value
    ||| exists|level: int| 2 <= level <= 18 && #[trigger] leveled_value(GameValue::SPADES, level) == value
    ||| exists|level: int| 2 <= level <= 18 && #[trigger] leveled_value(GameValue::CLUBS, level) == value
    ||| exists|level: int| 2 <= level <= 11 && #[trigger] leveled_value(GameValue::GRAND, level) == value
    ||| value == GameValue::NULL.spec_value()
    ||| value == GameValue::NULL_HAND.spec_value()
    ||| value == GameValue::NULL_OVERT.spec_value()
    ||| value == GameValue::NULL_OVERT_HAND.spec_value()
}

/// The possible bidding values are exactly the values of the games, each
/// once, in ascending order.
pub proof fn lemma_bidding_values_are_game_values()
    ensures
        forall|i: int, j: int| 0 <= i < j < 63 ==> bidding_values()[i] < bidding_values()[j],
        forall|i: int| 0 <= i < 63 ==> is_game_value(#[trigger] bidding_values()[i]),
        forall|value: int| is_game_value(value) ==> bidding_values().contains(value),
{
    lemma_bidding_values_ascend();
    lemma_bidding_values_are_values();
    assert forall|value: int| is_game_value(value) implies bidding_values().contains(value) by {
        lemma_game_value_can_be_bid(value);
    }
}

/// A game value can be bid.
proof fn lemma_game_value_can_be_bid(value: int)
    requires
        is_game_value(value),
    ensures
        bidding_values().contains(value),
{
    if exists|level: int| 2 <= level <= 18 && #[trigger] leveled_value(GameValue::DIAMONDS, level) == value {
        lemma_leveled_values_can_be_bid(GameValue::DIAMONDS, 18);
    } else if exists|level: int| 2 <= level <= 18 && #[trigger] leveled_value(GameValue::HEARTS, level) == value {
        lemma_leveled_values_can_be_bid(GameValue::HEARTS, 18);
    } else if exists|level: int| 2 <= level <= 18 && #[trigger] leveled_value(GameValue::SPADES, level) == value {
        lemma_leveled_values_can_be_bid(GameValue::SPADES, 18);
    } else if exists|level: int| 2 <= level <= 18 && #[trigger] leveled_value(GameValue::CLUBS, level) == value {
        lemma_leveled_values_can_be_bid(GameValue::CLUBS, 18);
    } else if exists|level: int| 2 <= level <= 11 && #[trigger] leveled_value(GameValue::GRAND, level) == value {
        lemma_leveled_values_can_be_bid(GameValue::GRAND, 11);
    } else {
        lemma_bidding_table();
        let t = bidding_values();
        assert(t[3] == 23);
        assert(t[8] == 35);
        assert(t[13] == 46);
        assert(t[18] == 59);
    }
}

/// The possible bidding values, one by one.
proof fn lemma_bidding_table()
    ensures
        bidding_values() == seq![
        18int, 20, 22, 23, 24, 27, 30, 33, 35, 36, 40, 44, 45, 46, 48, 50,
        54, 55, 59, 60, 63, 66, 70, 72, 77, 80, 81, 84, 88, 90, 96, 99,
        100, 108, 110, 117, 120, 121, 126, 130, 132, 135, 140, 143, 144, 150, 153, 154,
        156, 160, 162, 165, 168, 170, 176, 180, 187, 192, 198, 204, 216, 240, 264,
        ],
{
    assert(bidding_values() =~= seq![
        18int, 20, 22, 23, 24, 27, 30, 33, 35, 36, 40, 44, 45, 46, 48, 50,
        54, 55, 59, 60, 63, 66, 70, 72, 77, 80, 81, 84, 88, 90, 96, 99,
        100, 108, 110, 117, 120, 121, 126, 130, 132, 135, 140, 143, 144, 150, 153, 154,
        156, 160, 162, 165, 168, 170, 176, 180, 187, 192, 198, 204, 216, 240, 264,
    ]);
}

/// The possible bidding values ascend.
proof fn lemma_bidding_values_ascend()
    ensures
        forall|i: int, j: int| 0 <= i < j < 63 ==> bidding_values()[i] < bidding_values()[j],
{
    lemma_bidding_table();
    let t = bidding_values();
    assert forall|i: int| 0 <= i < 62 implies #[trigger] t[i] < t[i + 1] by {
        if i == 0 {
        } else if i == 1 {
        } else if i == 2 {
        } else if i == 3 {
        } else if i == 4 {
        } else if i == 5 {
        } else if i == 6 {
        } else if i == 7 {
        } else if i == 8 {
        } else if i == 9 {
        } else if i == 10 {
        } else if i == 11 {
        } else if i == 12 {
        } else if i == 13 {
        } else if i == 14 {
        } else if i == 15 {
        } else if i == 16 {
        } else if i == 17 {
        } else if i == 18 {
        } else if i == 19 {
        } else if i == 20 {
        } else if i == 21 {
        } else if i == 22 {
        } else if i == 23 {
        } else if i == 24 {
        } else if i == 25 {
        } else if i == 26 {
        } else if i == 27 {
        } else if i == 28 {
        } else if i == 29 {
        } else if i == 30 {
        } else if i == 31 {
        } else if i == 32 {
        } else if i == 33 {
        } else if i == 34 {
        } else if i == 35 {
        } else if i == 36 {
        } else if i == 37 {
        } else if i == 38 {
        } else if i == 39 {
        } else if i == 40 {
        } else if i == 41 {
        } else if i == 42 {
        } else if i == 43 {
        } else if i == 44 {
        } else if i == 45 {
        } else if i == 46 {
        } else if i == 47 {
        } else if i == 48 {
        } else if i == 49 {
        } else if i == 50 {
        } else if i == 51 {
        } else if i == 52 {
        } else if i == 53 {
        } else if i == 54 {
        } else if i == 55 {
        } else if i == 56 {
        } else if i == 57 {
        } else if i == 58 {
        } else if i == 59 {
        } else if i == 60 {
        }
    }
    assert forall|i: int, j: int| 0 <= i < j < 63 implies t[i] < t[j] by {
        lemma_ascending_from(i, j);
    }
}

/// Each bidding value is below every later one.
proof fn lemma_ascending_from(i: int, j: int)
    requires
        0 <= i < j < 63,
        forall|k: int| 0 <= k < 62 ==> #[trigger] bidding_values()[k] < bidding_values()[k + 1],
    ensures
        bidding_values()[i] < bidding_values()[j],
    decreases j - i,
{
    if j > i + 1 {
        lemma_ascending_from(i, j - 1);
        assert(bidding_values()[j - 1] < bidding_values()[j]);
    }
}

/// Every possible bidding value is the value of a game.
proof fn lemma_bidding_values_are_values()
    ensures
        forall|i: int| 0 <= i < 63 ==> is_game_value(#[trigger] bidding_values()[i]),
{
    lemma_bidding_table();
    let t = bidding_values();
    assert forall|i: int| 0 <= i < 63 implies is_game_value(#[trigger] t[i]) by {
        if i == 0 {
            assert(leveled_value(GameValue::DIAMONDS, 2) == t[0]);
        } else if i == 1 {
            assert(leveled_value(GameValue::HEARTS, 2) == t[1]);
        } else if i == 2 {
            assert(leveled_value(GameValue::SPADES, 2) == t[2]);
        } else if i == 3 {
        } else if i == 4 {
            assert(leveled_value(GameValue::CLUBS, 2) == t[4]);
        } else if i == 5 {
            assert(leveled_value(GameValue::DIAMONDS, 3) == t[5]);
        } else if i == 6 {
            assert(leveled_value(GameValue::HEARTS, 3) == t[6]);
        } else if i == 7 {
            assert(leveled_value(GameValue::SPADES, 3) == t[7]);
        } else if i == 8 {
        } else if i == 9 {
            assert(leveled_value(GameValue::DIAMONDS, 4) == t[9]);
        } else if i == 10 {
            assert(leveled_value(GameValue::HEARTS, 4) == t[10]);
        } else if i == 11 {
            assert(leveled_value(GameValue::SPADES, 4) == t[11]);
        } else if i == 12 {
            assert(leveled_value(GameValue::DIAMONDS, 5) == t[12]);
        } else if i == 13 {
        } else if i == 14 {
            assert(leveled_value(GameValue::CLUBS, 4) == t[14]);
        } else if i == 15 {
            assert(leveled_value(GameValue::HEARTS, 5) == t[15]);
        } else if i == 16 {
            assert(leveled_value(GameValue::DIAMONDS, 6) == t[16]);
        } else if i == 17 {
            assert(leveled_value(GameValue::SPADES, 5) == t[17]);
        } else if i == 18 {
        } else if i == 19 {
            assert(leveled_value(GameValue::HEARTS, 6) == t[19]);
        } else if i == 20 {
            assert(leveled_value(GameValue::DIAMONDS, 7) == t[20]);
        } else if i == 21 {
            assert(leveled_value(GameValue::SPADES, 6) == t[21]);
        } else if i == 22 {
            assert(leveled_value(GameValue::HEARTS, 7) == t[22]);
        } else if i == 23 {
            assert(leveled_value(GameValue::DIAMONDS, 8) == t[23]);
        } else if i == 24 {
            assert(leveled_value(GameValue::SPADES, 7) == t[24]);
        } else if i == 25 {
            assert(leveled_value(GameValue::HEARTS, 8) == t[25]);
        } else if i == 26 {
            assert(leveled_value(GameValue::DIAMONDS, 9) == t[26]);
        } else if i == 27 {
            assert(leveled_value(GameValue::CLUBS, 7) == t[27]);
        } else if i == 28 {
            assert(leveled_value(GameValue::SPADES, 8) == t[28]);
        } else if i == 29 {
            assert(leveled_value(GameValue::DIAMONDS, 10) == t[29]);
        } else if i == 30 {
            assert(leveled_value(GameValue::CLUBS, 8) == t[30]);
        } else if i == 31 {
            assert(leveled_value(GameValue::DIAMONDS, 11) == t[31]);
        } else if i == 32 {
            assert(leveled_value(GameValue::HEARTS, 10) == t[32]);
        } else if i == 33 {
            assert(leveled_value(GameValue::DIAMONDS, 12) == t[33]);
        } else if i == 34 {
            assert(leveled_value(GameValue::HEARTS, 11) == t[34]);
        } else if i == 35 {
            assert(leveled_value(GameValue::DIAMONDS, 13) == t[35]);
        } else if i == 36 {
            assert(leveled_value(GameValue::HEARTS, 12) == t[36]);
        } else if i == 37 {
            assert(leveled_value(GameValue::SPADES, 11) == t[37]);
        } else if i == 38 {
            assert(leveled_value(GameValue::DIAMONDS, 14) == t[38]);
        } else if i == 39 {
            assert(leveled_value(GameValue::HEARTS, 13) == t[39]);
        } else if i == 40 {
            assert(leveled_value(GameValue::SPADES, 12) == t[40]);
        } else if i == 41 {
            assert(leveled_value(GameValue::DIAMONDS, 15) == t[41]);
        } else if i == 42 {
            assert(leveled_value(GameValue::HEARTS, 14) == t[42]);
        } else if i == 43 {
            assert(leveled_value(GameValue::SPADES, 13) == t[43]);
        } else if i == 44 {
            assert(leveled_value(GameValue::DIAMONDS, 16) == t[44]);
        } else if i == 45 {
            assert(leveled_value(GameValue::HEARTS, 15) == t[45]);
        } else if i == 46 {
            assert(leveled_value(GameValue::DIAMONDS, 17) == t[46]);
        } else if i == 47 {
            assert(leveled_value(GameValue::SPADES, 14) == t[47]);
        } else if i == 48 {
            assert(leveled_value(GameValue::CLUBS, 13) == t[48]);
        } else if i == 49 {
            assert(leveled_value(GameValue::HEARTS, 16) == t[49]);
        } else if i == 50 {
            assert(leveled_value(GameValue::DIAMONDS, 18) == t[50]);
        } else if i == 51 {
            assert(leveled_value(GameValue::SPADES, 15) == t[51]);
        } else if i == 52 {
            assert(leveled_value(GameValue::CLUBS, 14) == t[52]);
        } else if i == 53 {
            assert(leveled_value(GameValue::HEARTS, 17) == t[53]);
        } else if i == 54 {
            assert(leveled_value(GameValue::SPADES, 16) == t[54]);
        } else if i == 55 {
            assert(leveled_value(GameValue::HEARTS, 18) == t[55]);
        } else if i == 56 {
            assert(leveled_value(GameValue::SPADES, 17) == t[56]);
        } else if i == 57 {
            assert(leveled_value(GameValue::CLUBS, 16) == t[57]);
        } else if i == 58 {
            assert(leveled_value(GameValue::SPADES, 18) == t[58]);
        } else if i == 59 {
            assert(leveled_value(GameValue::CLUBS, 17) == t[59]);
        } else if i == 60 {
            assert(leveled_value(GameValue::CLUBS, 18) == t[60]);
        } else if i == 61 {
            assert(leveled_value(GameValue::GRAND, 10) == t[61]);
        } else if i == 62 {
            assert(leveled_value(GameValue::GRAND, 11) == t[62]);
        }
    }
}

/// Every value of a suit game or grand at its game levels can be bid.
#[verifier::rlimit(50)]
proof fn lemma_leveled_values_can_be_bid(game: GameValue, max_level: int)
    requires
        (max_level == 18 && (game == GameValue::DIAMONDS || game == GameValue::HEARTS
            || game == GameValue::SPADES || game == GameValue::CLUBS))
            || (max_level == 11 && game == GameValue::GRAND),
    ensures
        forall|level: int| 2 <= level <= max_level ==> bidding_values().contains(#[trigger] leveled_value(game, level)),
{
    lemma_bidding_table();
    let t = bidding_values();
    assert forall|level: int| 2 <= level <= max_level implies t.contains(#[trigger] leveled_value(game, level)) by {
        if game == GameValue::DIAMONDS {
            if level == 2 {
                assert(t[0] == leveled_value(GameValue::DIAMONDS, 2));
            } else if level == 3 {
                assert(t[5] == leveled_value(GameValue::DIAMONDS, 3));
            } else if level == 4 {
                assert(t[9] == leveled_value(GameValue::DIAMONDS, 4));
            } else if level == 5 {
                assert(t[12] == leveled_value(GameValue::DIAMONDS, 5));
            } else if level == 6 {
                assert(t[16] == leveled_value(GameValue::DIAMONDS, 6));
            } else if level == 7 {
                assert(t[20] == leveled_value(GameValue::DIAMONDS, 7));
            } else if level == 8 {
                assert(t[23] == leveled_value(GameValue::DIAMONDS, 8));
            } else if level == 9 {
                assert(t[26] == leveled_value(GameValue::DIAMONDS, 9));
            } else if level == 10 {
                assert(t[29] == leveled_value(GameValue::DIAMONDS, 10));
            } else if level == 11 {
                assert(t[31] == leveled_value(GameValue::DIAMONDS, 11));
            } else if level == 12 {
                assert(t[33] == leveled_value(GameValue::DIAMONDS, 12));
            } else if level == 13 {
                assert(t[35] == leveled_value(GameValue::DIAMONDS, 13));
            } else if level == 14 {
                assert(t[38] == leveled_value(GameValue::DIAMONDS, 14));
            } else if level == 15 {
                assert(t[41] == leveled_value(GameValue::DIAMONDS, 15));
            } else if level == 16 {
                assert(t[44] == leveled_value(GameValue::DIAMONDS, 16));
            } else if level == 17 {
                assert(t[46] == leveled_value(GameValue::DIAMONDS, 17));
            } else if level == 18 {
                assert(t[50] == leveled_value(GameValue::DIAMONDS, 18));
            }
        } else if game == GameValue::HEARTS {
            if level == 2 {
                assert(t[1] == leveled_value(GameValue::HEARTS, 2));
            } else if level == 3 {
                assert(t[6] == leveled_value(GameValue::HEARTS, 3));
            } else if level == 4 {
                assert(t[10] == leveled_value(GameValue::HEARTS, 4));
            } else if level == 5 {
                assert(t[15] == leveled_value(GameValue::HEARTS, 5));
            } else if level == 6 {
                assert(t[19] == leveled_value(GameValue::HEARTS, 6));
            } else if level == 7 {
                assert(t[22] == leveled_value(GameValue::HEARTS, 7));
            } else if level == 8 {
                assert(t[25] == leveled_value(GameValue::HEARTS, 8));
            } else if level == 9 {
                assert(t[29] == leveled_value(GameValue::HEARTS, 9));
            } else if level == 10 {
                assert(t[32] == leveled_value(GameValue::HEARTS, 10));
            } else if level == 11 {
                assert(t[34] == leveled_value(GameValue::HEARTS, 11));
            } else if level == 12 {
                assert(t[36] == leveled_value(GameValue::HEARTS, 12));
            } else if level == 13 {
                assert(t[39] == leveled_value(GameValue::HEARTS, 13));
            } else if level == 14 {
                assert(t[42] == leveled_value(GameValue::HEARTS, 14));
            } else if level == 15 {
                assert(t[45] == leveled_value(GameValue::HEARTS, 15));
            } else if level == 16 {
                assert(t[49] == leveled_value(GameValue::HEARTS, 16));
            } else if level == 17 {
                assert(t[53] == leveled_value(GameValue::HEARTS, 17));
            } else if level == 18 {
                assert(t[55] == leveled_value(GameValue::HEARTS, 18));
            }
        } else if game == GameValue::SPADES {
            if level == 2 {
                assert(t[2] == leveled_value(GameValue::SPADES, 2));
            } else if level == 3 {
                assert(t[7] == leveled_value(GameValue::SPADES, 3));
            } else if level == 4 {
                assert(t[11] == leveled_value(GameValue::SPADES, 4));
            } else if level == 5 {
                assert(t[17] == leveled_value(GameValue::SPADES, 5));
            } else if level == 6 {
                assert(t[21] == leveled_value(GameValue::SPADES, 6));
            } else if level == 7 {
                assert(t[24] == leveled_value(GameValue::SPADES, 7));
            } else if level == 8 {
                assert(t[28] == leveled_value(GameValue::SPADES, 8));
            } else if level == 9 {
                assert(t[31] == leveled_value(GameValue::SPADES, 9));
            } else if level == 10 {
                assert(t[34] == leveled_value(GameValue::SPADES, 10));
            } else if level == 11 {
                assert(t[37] == leveled_value(GameValue::SPADES, 11));
            } else if level == 12 {
                assert(t[40] == leveled_value(GameValue::SPADES, 12));
            } else if level == 13 {
                assert(t[43] == leveled_value(GameValue::SPADES, 13));
            } else if level == 14 {
                assert(t[47] == leveled_value(GameValue::SPADES, 14));
            } else if level == 15 {
                assert(t[51] == leveled_value(GameValue::SPADES, 15));
            } else if level == 16 {
                assert(t[54] == leveled_value(GameValue::SPADES, 16));
            } else if level == 17 {
                assert(t[56] == leveled_value(GameValue::SPADES, 17));
            } else if level == 18 {
                assert(t[58] == leveled_value(GameValue::SPADES, 18));
            }
        } else if game == GameValue::CLUBS {
            if level == 2 {
                assert(t[4] == leveled_value(GameValue::CLUBS, 2));
            } else if level == 3 {
                assert(t[9] == leveled_value(GameValue::CLUBS, 3));
            } else if level == 4 {
                assert(t[14] == leveled_value(GameValue::CLUBS, 4));
            } else if level == 5 {
                assert(t[19] == leveled_value(GameValue::CLUBS, 5));
            } else if level == 6 {
                assert(t[23] == leveled_value(GameValue::CLUBS, 6));
            } else if level == 7 {
                assert(t[27] == leveled_value(GameValue::CLUBS, 7));
            } else if level == 8 {
                assert(t[30] == leveled_value(GameValue::CLUBS, 8));
            } else if level == 9 {
                assert(t[33] == leveled_value(GameValue::CLUBS, 9));
            } else if level == 10 {
                assert(t[36] == leveled_value(GameValue::CLUBS, 10));
            } else if level == 11 {
                assert(t[40] == leveled_value(GameValue::CLUBS, 11));
            } else if level == 12 {
                assert(t[44] == leveled_value(GameValue::CLUBS, 12));
            } else if level == 13 {
                assert(t[48] == leveled_value(GameValue::CLUBS, 13));
            } else if level == 14 {
                assert(t[52] == leveled_value(GameValue::CLUBS, 14));
            } else if level == 15 {
                assert(t[55] == leveled_value(GameValue::CLUBS, 15));
            } else if level == 16 {
                assert(t[57] == leveled_value(GameValue::CLUBS, 16));
            } else if level == 17 {
                assert(t[59] == leveled_value(GameValue::CLUBS, 17));
            } else if level == 18 {
                assert(t[60] == leveled_value(GameValue::CLUBS, 18));
            }
        } else if game == GameValue::GRAND {
            if level == 2 {
                assert(t[14] == leveled_value(GameValue::GRAND, 2));
            } else if level == 3 {
                assert(t[23] == leveled_value(GameValue::GRAND, 3));
            } else if level == 4 {
                assert(t[30] == leveled_value(GameValue::GRAND, 4));
            } else if level == 5 {
                assert(t[36] == leveled_value(GameValue::GRAND, 5));
            } else if level == 6 {
                assert(t[44] == leveled_value(GameValue::GRAND, 6));
            } else if level == 7 {
                assert(t[52] == leveled_value(GameValue::GRAND, 7));
            } else if level == 8 {
                assert(t[57] == leveled_value(GameValue::GRAND, 8));
            } else if level == 9 {
                assert(t[60] == leveled_value(GameValue::GRAND, 9));
            } else if level == 10 {
                assert(t[61] == leveled_value(GameValue::GRAND, 10));
            } else if level == 11 {
                assert(t[62] == leveled_value(GameValue::GRAND, 11));
            }
        }
    }
}

} // verus!
