use vstd::prelude::*;

use crate::{
    bot::{Bot, BotContext},
    card::Card,
    rules::GameRules,
};

verus! {

/// A bot for grand games.
pub struct GrandBot;

/// Memory a grand bot may keep between its turns.
#[derive(Default)]
pub struct GrandBotContext;

impl Bot for GrandBot {
    /// Plays the first card that is guaranteed to win the trick, else the
    /// first playable card that would be winning the trick, else the first
    /// playable card.
    fn play_card(&mut self, ctx: BotContext<'_>) -> (r: Card)
        ensures
            ({
                let playable = ctx.spec_playable_cards();
                let guaranteed = playable.filter(ctx.is_guaranteed_to_win());
                let winning = playable.filter(ctx.wins_current_trick());
                r == if guaranteed.len() > 0 {
                    guaranteed[0]
                } else if winning.len() > 0 {
                    winning[0]
                } else {
                    playable[0]
                }
            }),
    {
        proof {
            ctx.lemma_has_playable_card();
        }
        let playable_cards = ctx.playable_cards();
        let guaranteed = ctx.find_card_guaranteed_to_win_trick();
        let ghost playable = playable_cards@;
        proof {
            broadcast use vstd::seq_lib::group_filter_ensures;
        }

        if guaranteed.len() > 0 {
            proof {
                assert(playable.filter(ctx.is_guaranteed_to_win()).contains(guaranteed@[0]));
                playable.lemma_filter_contains_rev(ctx.is_guaranteed_to_win(), guaranteed@[0]);
            }
            return guaranteed[0];
        }

        let trick = ctx.current_trick.cards();
        let mut i: usize = 0;
        let ghost wins = ctx.wins_current_trick();
        assert(playable.take(0) =~= Seq::<Card>::empty());
        proof {
            reveal(Seq::filter);
        }
        while i < playable_cards.len()
            invariant
                playable_cards@ == playable,
                playable == ctx.spec_playable_cards(),
                playable.filter(ctx.is_guaranteed_to_win()).len() == 0,
                playable.len() > 0,
                trick@ == ctx.trick(),
                wins == ctx.wins_current_trick(),
                0 <= i <= playable.len(),
                playable.take(i as int).filter(wins).len() == 0,
            decreases playable.len() - i,
        {
            let card = playable_cards[i];
            proof {
                reveal(Seq::filter);
                assert(playable.take(i + 1).drop_last() =~= playable.take(i as int));
            }
            if ctx.game.card_wins_trick(trick.as_slice(), card) {
                proof {
                    assert(playable.take(i + 1).filter(wins) =~= seq![card]);
                    assert(playable =~= playable.take(i + 1) + playable.skip(i + 1));
                    Seq::filter_distributes_over_add(
                        playable.take(i + 1),
                        playable.skip(i + 1),
                        wins,
                    );
                }
                return card;
            }
            i += 1;
        }
        assert(playable.take(playable.len() as int) =~= playable);
        playable_cards[0]
    }
}

} // verus!
