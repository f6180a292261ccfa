use std::collections::HashSet;

use skat_engine::{
    game::value::GameValue,
    state::{
        bidding::{ALL_POSSIBLE_BIDDING_VALUES, BiddingState},
        player::PlayerId,
    },
};

#[test]
fn test_all_possible_bidding_values() {
    // game level:
    //     0
    //   + 1 (for playing)
    //   + 1-4[Grand] / 1-11[Suit] (for matadors)
    //   + 1 (for hand)
    //   + 1 (for schneider achieved)
    //   + 1 (for schneider announced)
    //   + 1 (for schwartz achieved)
    //   + 1 (for schwartz announced)
    //   + 1 (for overt)
    //   = 2-11[Grand] / 2-18[Suit]

    let values = {
        let mut values = HashSet::new();

        for game_level in 2u16..=18 {
            for game_value in [
                GameValue::DIAMONDS,
                GameValue::HEARTS,
                GameValue::SPADES,
                GameValue::CLUBS,
            ] {
                values.insert(*game_value * game_level);
            }
        }

        for game_level in 2u16..=11 {
            values.insert(*GameValue::GRAND * game_level);
        }

        values.insert(*GameValue::NULL);
        values.insert(*GameValue::NULL_HAND);
        values.insert(*GameValue::NULL_OVERT);
        values.insert(*GameValue::NULL_OVERT_HAND);

        let mut values: Box<_> = values.iter().cloned().collect();

        values.sort();

        values
    };

    assert_eq!(*values, ALL_POSSIBLE_BIDDING_VALUES[..]);
}

#[test]
fn bidding_starts_at_the_lowest_value() {
    let bidding = BiddingState::new(PlayerId::THIRD);
    assert_eq!(bidding.current_bidding_value(), 18);
    assert_eq!(bidding.dealer_id, PlayerId::THIRD);
}
