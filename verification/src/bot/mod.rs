pub mod grand;
pub mod null;

use vstd::prelude::*;

use crate::{
    card::{Card, deck, spec_deck},
    game::Game,
    rules::GameRules,
    state::player::{PlayerId, PlayerState},
    trick::{Trick, WonTrick},
};

verus! {

/// A player controlled by the program.
pub trait Bot {
    /// Called on the bots turn when it is required to play a card. The
    /// returned card is legally playable.
    fn play_card(&mut self, ctx: BotContext<'_>) -> (r: Card)
        requires
            ctx.hand().len() > 0,
        ensures
            ctx.spec_playable_cards().contains(r),
    ;
}

/// What a bot knows when it is its turn.
pub struct BotContext<'a> {
    /// The details of the game being played.
    pub game: &'a Game,
    /// The ID of the current player.
    pub player_id: PlayerId,
    /// The state of the player, including their hand.
    pub player_state: &'a PlayerState,
    /// All cards which have been played in the current round.
    pub current_trick: &'a Trick,
    /// All tricks which have been won during the game.
    pub tricks_won: &'a Vec<WonTrick>,
    /// The player who is playing as a soloist.
    pub soloist: PlayerId,
    /// The contents of the skat, if it is known to the player. This may not be
    /// be known, for example if the bot is a gegenspieler/defender, or is
    /// playing a hand game.
    pub skat: Option<[Card; 2]>,
}

/// The cards of the won tricks, oldest trick first.
pub open spec fn cards_of_tricks(tricks: Seq<WonTrick>) -> Seq<Card>
    decreases tricks.len(),
{
    if tricks.len() == 0 {
        Seq::empty()
    } else {
        cards_of_tricks(tricks.drop_last()) + tricks.last().cards@
    }
}

/// Whether the sequence holds the card.
fn holds(cards: &Vec<Card>, card: Card) -> (r: bool)
    ensures
        r == cards@.contains(card),
{
    let mut i: usize = 0;
    while i < cards.len()
        invariant
            0 <= i <= cards@.len(),
            forall|j: int| 0 <= j < i ==> cards@[j] != card,
        decreases cards@.len() - i,
    {
        if cards[i] == card {
            return true;
        }
        i += 1;
    }
    false
}

/// Every card of every won trick is among the cards of the tricks.
pub proof fn lemma_cards_of_tricks_hold_every_card(tricks: Seq<WonTrick>, t: int, k: int)
    requires
        0 <= t < tricks.len(),
        0 <= k < 3,
    ensures
        cards_of_tricks(tricks).contains(tricks[t].cards@[k]),
    decreases tricks.len(),
{
    let rest = cards_of_tricks(tricks.drop_last());
    let last = tricks.last().cards@;
    if t == tricks.len() - 1 {
        assert((rest + last)[rest.len() + k] == last[k]);
    } else {
        lemma_cards_of_tricks_hold_every_card(tricks.drop_last(), t, k);
        let i = choose|i: int| 0 <= i < rest.len() && rest[i] == tricks[t].cards@[k];
        assert((rest + last)[i] == rest[i]);
    }
}

impl<'a> BotContext<'a> {
    /// The cards known to be out of play are exactly known, and none of them
    /// is unknown: every card of every won trick, every card of the current
    /// trick, and the skat when the player knows it.
    pub proof fn lemma_played_cards_are_known(self)
        ensures
            forall|t: int, k: int|
                0 <= t < self.tricks_won@.len() && 0 <= k < 3 ==> {
                    &&& self.spec_known_out_of_play_cards().contains(#[trigger] self.tricks_won@[t].cards@[k])
                    &&& !self.spec_unknown_cards().contains(self.tricks_won@[t].cards@[k])
                },
            forall|i: int|
                0 <= i < self.trick().len() ==> {
                    &&& self.spec_known_out_of_play_cards().contains(#[trigger] self.trick()[i])
                    &&& !self.spec_unknown_cards().contains(self.trick()[i])
                },
            forall|skat: [Card; 2], k: int|
                self.skat == Some(skat) && 0 <= k < 2 ==> {
                    &&& self.spec_known_out_of_play_cards().contains(#[trigger] skat@[k])
                    &&& !self.spec_unknown_cards().contains(skat@[k])
                },
            forall|card: Card|
                #![trigger self.spec_unknown_cards().contains(card)]
                self.hand().contains(card) ==> !self.spec_unknown_cards().contains(card),
    {
        let skat_cards = match self.skat {
            Some(skat) => skat@,
            None => Seq::<Card>::empty(),
        };
        let won = cards_of_tricks(self.tricks_won@);
        let known = self.spec_known_out_of_play_cards();
        assert(known == skat_cards + won + self.trick());
        assert forall|card: Card| known.contains(card) || self.hand().contains(card) implies !self.spec_unknown_cards().contains(
            card,
        ) by {
            if self.spec_unknown_cards().contains(card) {
                let i = choose|i: int| 0 <= i < self.spec_unknown_cards().len() && self.spec_unknown_cards()[i] == card;
                spec_deck().lemma_filter_pred(self.is_unknown(), i);
            }
        }
        assert forall|t: int, k: int| 0 <= t < self.tricks_won@.len() && 0 <= k < 3 implies known.contains(
            #[trigger] self.tricks_won@[t].cards@[k],
        ) by {
            lemma_cards_of_tricks_hold_every_card(self.tricks_won@, t, k);
            let i = choose|i: int| 0 <= i < won.len() && won[i] == self.tricks_won@[t].cards@[k];
            assert(known[skat_cards.len() + i] == won[i]);
        }
        assert forall|i: int| 0 <= i < self.trick().len() implies known.contains(#[trigger] self.trick()[i]) by {
            assert(known[skat_cards.len() + won.len() + i] == self.trick()[i]);
        }
        assert forall|skat: [Card; 2], k: int| self.skat == Some(skat) && 0 <= k < 2 implies known.contains(
            #[trigger] skat@[k],
        ) by {
            assert(known[k] == skat@[k]);
        }
    }

    /// The hand of the player.
    pub open spec fn hand(self) -> Seq<Card> {
        self.player_state.hand.cards@
    }

    /// The cards of the current trick.
    pub open spec fn trick(self) -> Seq<Card> {
        self.current_trick@.cards
    }

    /// Whether the card may be played on the current trick.
    pub open spec fn is_playable(self) -> spec_fn(Card) -> bool {
        |card: Card| self.game.spec_can_play_card(self.trick(), self.hand(), card)
    }

    /// The cards of the hand that may be played, in the order of the hand.
    pub open spec fn spec_playable_cards(self) -> Seq<Card> {
        self.hand().filter(self.is_playable())
    }

    /// The cards that are known to be out of play: the skat when it is known,
    /// the cards of the won tricks, and the cards of the current trick.
    pub open spec fn spec_known_out_of_play_cards(self) -> Seq<Card> {
        let skat = match self.skat {
            Some(skat) => skat@,
            None => Seq::empty(),
        };
        skat + cards_of_tricks(self.tricks_won@) + self.trick()
    }

    /// Whether the state of the card is unknown to the player: it is neither
    /// known to be out of play nor on the player's hand.
    pub open spec fn is_unknown(self) -> spec_fn(Card) -> bool {
        |card: Card| !self.spec_known_out_of_play_cards().contains(card) && !self.hand().contains(card)
    }

    /// The cards whose state is unknown, in deck order.
    pub open spec fn spec_unknown_cards(self) -> Seq<Card> {
        spec_deck().filter(self.is_unknown())
    }

    /// Whether playing the card is sure to win the trick: the card would be
    /// winning the trick, and none of the cards that the player does not know
    /// of could beat it.
    pub open spec fn is_guaranteed_to_win(self) -> spec_fn(Card) -> bool {
        |card: Card|
            self.game.spec_card_wins_trick(self.trick(), card) && forall|i: int|
                0 <= i < self.spec_unknown_cards().len() ==> !self.game.spec_card_wins_trick(
                    self.trick().push(card),
                    #[trigger] self.spec_unknown_cards()[i],
                )
    }

    /// Whether the card would be winning the current trick.
    pub open spec fn wins_current_trick(self) -> spec_fn(Card) -> bool {
        |card: Card| self.game.spec_card_wins_trick(self.trick(), card)
    }

    /// A player who holds a card has a card to play.
    pub proof fn lemma_has_playable_card(self)
        requires
            self.hand().len() > 0,
        ensures
            self.spec_playable_cards().len() > 0,
    {
        crate::game::lemma_some_card_is_playable(*self.game, self.trick(), self.hand());
        let i = choose|i: int|
            0 <= i < self.hand().len() && self.game.spec_can_play_card(self.trick(), self.hand(), #[trigger] self.hand()[i]);
        assert(self.is_playable()(self.hand()[i]));
        self.hand().lemma_filter_contains(self.is_playable(), i);
    }

    /// Return `true` if the player the bot is representing is the soloist.
    pub fn is_soloist(&self) -> (r: bool)
        ensures
            r == (self.player_id == self.soloist),
    {
        self.player_id == self.soloist
    }

    /// Returns all the cards on the players current hand which are legally
    /// playable, in the order of the hand.
    pub fn playable_cards(&self) -> (r: Vec<Card>)
        ensures
            r@ == self.spec_playable_cards(),
    {
        let hand = &self.player_state.hand.cards;
        let trick = self.current_trick.cards();
        let mut r: Vec<Card> = Vec::new();
        let mut i: usize = 0;
        assert(hand@.take(0) =~= Seq::<Card>::empty());
        proof {
            reveal(Seq::filter);
        }
        while i < hand.len()
            invariant
                hand@ == self.hand(),
                trick@ == self.trick(),
                0 <= i <= hand@.len(),
                r@ == hand@.take(i as int).filter(self.is_playable()),
            decreases hand@.len() - i,
        {
            let card = hand[i];
            if self.game.can_play_card(trick.as_slice(), hand.as_slice(), card) {
                r.push(card);
            }
            proof {
                reveal(Seq::filter);
                assert(hand@.take(i + 1).drop_last() =~= hand@.take(i as int));
            }
            i += 1;
        }
        assert(hand@.take(hand@.len() as int) =~= hand@);
        r
    }

    /// Returns all cards which are known to be out of play. This includes the
    /// cards in the skat, if this is known to the current player (i.e. they
    /// are the soloist and are not playing a hand game), and all cards already
    /// played: those of the won tricks and those of the current trick.
    pub fn all_known_out_of_play_cards(&self) -> (r: Vec<Card>)
        ensures
            r@ == self.spec_known_out_of_play_cards(),
    {
        let mut r: Vec<Card> = Vec::new();
        if let Some(skat) = self.skat {
            r.push(skat[0]);
            r.push(skat[1]);
            assert(r@ =~= skat@);
        }
        let ghost skat_cards = r@;
        let mut t: usize = 0;
        assert(self.tricks_won@.take(0) =~= Seq::<WonTrick>::empty());
        while t < self.tricks_won.len()
            invariant
                0 <= t <= self.tricks_won@.len(),
                r@ == skat_cards + cards_of_tricks(self.tricks_won@.take(t as int)),
            decreases self.tricks_won@.len() - t,
        {
            let won = self.tricks_won[t];
            r.push(won.cards[0]);
            r.push(won.cards[1]);
            r.push(won.cards[2]);
            assert(self.tricks_won@.take(t + 1).drop_last() =~= self.tricks_won@.take(t as int));
            assert(r@ =~= skat_cards + cards_of_tricks(self.tricks_won@.take(t + 1)));
            t += 1;
        }
        assert(self.tricks_won@.take(self.tricks_won@.len() as int) =~= self.tricks_won@);
        let ghost played = r@;
        let trick = self.current_trick.cards();
        let mut i: usize = 0;
        while i < trick.len()
            invariant
                0 <= i <= trick@.len(),
                trick@ == self.trick(),
                r@ == played + trick@.take(i as int),
            decreases trick@.len() - i,
        {
            r.push(trick[i]);
            assert(r@ =~= played + trick@.take(i + 1));
            i += 1;
        }
        assert(trick@.take(trick@.len() as int) =~= trick@);
        r
    }

    /// Returns all cards whose state is currently unknown, in deck order.
    /// This includes all unplayed cards on other players hands, and the skat,
    /// if the player does not know the contents of the skat (i.e. they are a
    /// gegenspieler/defender or they are the soloist playing a hand game).
    pub fn all_unknown_cards(&self) -> (r: Vec<Card>)
        ensures
            r@ == self.spec_unknown_cards(),
    {
        let known = self.all_known_out_of_play_cards();
        let hand = &self.player_state.hand.cards;
        let all_cards = deck();
        let mut r: Vec<Card> = Vec::new();
        let mut i: usize = 0;
        assert(all_cards@.take(0) =~= Seq::<Card>::empty());
        proof {
            reveal(Seq::filter);
        }
        while i < all_cards.len()
            invariant
                all_cards@ == spec_deck(),
                known@ == self.spec_known_out_of_play_cards(),
                hand@ == self.hand(),
                0 <= i <= all_cards@.len(),
                r@ == all_cards@.take(i as int).filter(self.is_unknown()),
            decreases all_cards@.len() - i,
        {
            let card = all_cards[i];
            if !holds(&known, card) && !holds(hand, card) {
                r.push(card);
            }
            proof {
                reveal(Seq::filter);
                assert(all_cards@.take(i + 1).drop_last() =~= all_cards@.take(i as int));
            }
            i += 1;
        }
        assert(all_cards@.take(all_cards@.len() as int) =~= all_cards@);
        r
    }

    /// Searches for the playable cards that are guaranteed to win the trick,
    /// based on the bots knowledge of the cards on the opponents hands: the
    /// card would be winning the trick and no card the bot does not know of
    /// could beat it. The cards come in the order of the hand.
    pub fn find_card_guaranteed_to_win_trick(&self) -> (r: Vec<Card>)
        ensures
            r@ == self.spec_playable_cards().filter(self.is_guaranteed_to_win()),
    {
        let all_unknown_cards = self.all_unknown_cards();
        let playable = self.playable_cards();
        let trick = self.current_trick.cards();
        let mut r: Vec<Card> = Vec::new();
        let mut i: usize = 0;
        assert(playable@.take(0) =~= Seq::<Card>::empty());
        proof {
            reveal(Seq::filter);
        }
        while i < playable.len()
            invariant
                playable@ == self.spec_playable_cards(),
                all_unknown_cards@ == self.spec_unknown_cards(),
                trick@ == self.trick(),
                0 <= i <= playable@.len(),
                r@ == playable@.take(i as int).filter(self.is_guaranteed_to_win()),
            decreases playable@.len() - i,
        {
            let card = playable[i];
            if self.game.card_wins_trick(trick.as_slice(), card) {
                let mut trick_if_played = trick.clone();
                trick_if_played.push(card);
                let mut guaranteed = true;
                let mut j: usize = 0;
                while j < all_unknown_cards.len()
                    invariant
                        0 <= j <= all_unknown_cards@.len(),
                        trick_if_played@ == self.trick().push(card),
                        guaranteed == forall|k: int|
                            0 <= k < j ==> !self.game.spec_card_wins_trick(
                                self.trick().push(card),
                                #[trigger] all_unknown_cards@[k],
                            ),
                    decreases all_unknown_cards@.len() - j,
                {
                    if self.game.card_wins_trick(trick_if_played.as_slice(), all_unknown_cards[j]) {
                        guaranteed = false;
                    }
                    j += 1;
                }
                if guaranteed {
                    r.push(card);
                }
            }
            proof {
                reveal(Seq::filter);
                assert(playable@.take(i + 1).drop_last() =~= playable@.take(i as int));
            }
            i += 1;
        }
        assert(playable@.take(playable@.len() as int) =~= playable@);
        r
    }
}

} // verus!
