use std::cmp::Ordering;

use vstd::prelude::*;

use crate::{
    bot::{Bot, BotContext},
    card::Card,
    game::GameKind,
};

verus! {

/// A bot for null games.
pub struct NullBot;

/// The card at `position` has the lowest null rank, and no earlier card has it.
pub open spec fn is_first_lowest(cards: Seq<Card>, position: int) -> bool {
    &&& 0 <= position < cards.len()
    &&& forall|j: int|
        0 <= j < position ==> (#[trigger] cards[j]).rank.spec_raw_rank(GameKind::Null)
            > cards[position].rank.spec_raw_rank(GameKind::Null)
    &&& forall|j: int|
        position < j < cards.len() ==> (#[trigger] cards[j]).rank.spec_raw_rank(GameKind::Null)
            >= cards[position].rank.spec_raw_rank(GameKind::Null)
}

/// The card at `position` has the highest null rank, and no later card has it.
pub open spec fn is_last_highest(cards: Seq<Card>, position: int) -> bool {
    &&& 0 <= position < cards.len()
    &&& forall|j: int|
        0 <= j < position ==> (#[trigger] cards[j]).rank.spec_raw_rank(GameKind::Null)
            <= cards[position].rank.spec_raw_rank(GameKind::Null)
    &&& forall|j: int|
        position < j < cards.len() ==> (#[trigger] cards[j]).rank.spec_raw_rank(GameKind::Null)
            < cards[position].rank.spec_raw_rank(GameKind::Null)
}

/// Whether the first card ranks below the second in a null game.
fn ranks_lower_in_null(a: &Card, b: &Card) -> (r: bool)
    ensures
        r == (a.rank.spec_raw_rank(GameKind::Null) < b.rank.spec_raw_rank(GameKind::Null)),
{
    match a.rank.compare(&b.rank, GameKind::Null) {
        Ordering::Less => true,
        _ => false,
    }
}

impl Bot for NullBot {
    /// When the bot can follow suit (or leads), it plays its lowest playable
    /// card, the first of them on a tie; otherwise it discards its highest
    /// card, the last of them on a tie.
    fn play_card(&mut self, ctx: BotContext<'_>) -> (r: Card)
        ensures
            ({
                let playable = ctx.spec_playable_cards();
                let can_follow_suit = ctx.trick().len() == 0 || playable[0].suit == ctx.trick()[0].suit;
                exists|position: int|
                    r == playable[position] && if can_follow_suit {
                        is_first_lowest(playable, position)
                    } else {
                        is_last_highest(playable, position)
                    }
            }),
    {
        proof {
            ctx.lemma_has_playable_card();
        }
        let playable_cards = ctx.playable_cards();
        let ghost playable = playable_cards@;

        let can_follow_suit = match ctx.current_trick.leading_card() {
            // In a null game, if any playable card follows suit, then all
            // playable cards will follow suit.
            Some(leading_card) => playable_cards[0].suit == leading_card.suit,
            None => true,
        };

        let mut best: usize = 0;
        let mut i: usize = 1;
        while i < playable_cards.len()
            invariant
                playable_cards@ == playable,
                playable.len() > 0,
                1 <= i <= playable.len(),
                0 <= best < i,
                if can_follow_suit {
                    is_first_lowest(playable.take(i as int), best as int)
                } else {
                    is_last_highest(playable.take(i as int), best as int)
                },
            decreases playable.len() - i,
        {
            let lower = ranks_lower_in_null(&playable_cards[i], &playable_cards[best]);
            let better = if can_follow_suit {
                lower
            } else {
                !lower
            };
            if better {
                best = i;
            }
            proof {
                let prefix = playable.take(i + 1);
                assert forall|j: int| 0 <= j < i implies prefix[j] == playable.take(i as int)[j] by {}
            }
            i += 1;
        }
        assert(playable.take(playable.len() as int) =~= playable);
        proof {
            if ctx.trick().len() > 0 {
                crate::game::lemma_some_card_is_playable(*ctx.game, ctx.trick(), ctx.hand());
            }
            ctx.hand().lemma_filter_contains_rev(ctx.is_playable(), playable[best as int]);
            assert(playable.contains(playable[best as int]));
        }
        playable_cards[best]
    }
}

} // verus!
