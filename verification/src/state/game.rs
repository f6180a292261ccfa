use vstd::multiset::Multiset;
use vstd::prelude::*;

use crate::{
    bot::BotContext,
    card::Card,
    game::Game,
    rules::GameRules,
    state::player::{PlayerId, PlayerState},
    trick::{PlayCardOutcome, Trick, TrickStep, TrickView, WonTrick, WonTrickView},
};

verus! {

/// The state of a game being played.
#[derive(Clone, Debug)]
pub struct GameState {
    game: Game,
    _skat: [Card; 2],
    players: [PlayerState; 3],
    tricks_won: Vec<WonTrick>,
    current_trick: Trick,
    current_player_id: PlayerId,
    soloist: PlayerId,
}

/// The mathematical value of a [GameState].
pub struct GameStateView {
    pub game: Game,
    pub skat: Seq<Card>,
    /// The hands of the three players.
    pub hands: Seq<Seq<Card>>,
    /// The tricks won so far, oldest first.
    pub tricks_won: Seq<WonTrickView>,
    pub trick: TrickView,
    pub current_player: PlayerId,
    pub soloist: PlayerId,
}

impl View for GameState {
    type V = GameStateView;

    closed spec fn view(&self) -> GameStateView {
        GameStateView {
            game: self.game,
            skat: self._skat@,
            hands: Seq::new(3, |i: int| self.players[i].hand.cards@),
            tricks_won: self.tricks_won@.map_values(|t: WonTrick| t@),
            trick: self.current_trick@,
            current_player: self.current_player_id,
            soloist: self.soloist,
        }
    }
}

/// The cards held by the tricks, oldest trick first.
pub open spec fn won_cards(tricks: Seq<WonTrickView>) -> Multiset<Card>
    decreases tricks.len(),
{
    if tricks.len() == 0 {
        Multiset::empty()
    } else {
        won_cards(tricks.drop_last()).add(tricks.last().cards.to_multiset())
    }
}

/// The player who played the card at `position` of a trick that `leader` led.
pub open spec fn player_at(leader: PlayerId, position: int) -> PlayerId {
    PlayerId::of_index((leader@ + position) % 3)
}

/// The card at `position` is stronger than every card played before it and at
/// least as strong as every card played after it: it is the earliest of the
/// strongest cards, the one that wins the trick.
pub open spec fn is_earliest_strongest(game: Game, cards: Seq<Card>, position: int) -> bool {
    &&& 0 <= position < cards.len()
    &&& forall|j: int|
        0 <= j < position ==> game.spec_strength(cards[0], #[trigger] cards[j]) < game.spec_strength(
            cards[0],
            cards[position],
        )
    &&& forall|j: int|
        position < j < cards.len() ==> game.spec_strength(cards[0], #[trigger] cards[j])
            <= game.spec_strength(cards[0], cards[position])
}

/// The player of the earliest strongest card of the trick that `leader` led.
pub open spec fn wins_trick(game: Game, leader: PlayerId, cards: Seq<Card>, winner: PlayerId) -> bool {
    exists|position: int| #[trigger]
        is_earliest_strongest(game, cards, position) && winner == player_at(leader, position)
}

/// Playing a card keeps track of the winner: the winner of the trick after
/// the card is played is the player of its earliest strongest card.
pub proof fn lemma_play_tracks_winner(
    game: Game,
    leader: PlayerId,
    trick: TrickView,
    player: PlayerId,
    hand: Seq<Card>,
    card: Card,
)
    requires
        trick.wf(),
        leader != PlayerId::NONE,
        player == player_at(leader, trick.cards.len() as int),
        trick.cards.len() > 0 ==> wins_trick(game, leader, trick.cards, trick.winning_player),
    ensures
        match trick.play(game, player, hand, card) {
            TrickStep::Played(next) => wins_trick(game, leader, next.cards, next.winning_player),
            TrickStep::Complete(winner, cards) => wins_trick(game, leader, cards, winner),
            TrickStep::Invalid => true,
        },
{
    let cards = trick.cards.push(card);
    let len = trick.cards.len() as int;
    if len == 0 {
        assert(is_earliest_strongest(game, seq![card], 0));
    } else if game.spec_can_play_card(trick.cards, hand, card) {
        assert(cards[0] == trick.cards[0]);
        if game.spec_card_wins_trick(trick.cards, card) {
            assert forall|j: int| 0 <= j < len implies game.spec_strength(cards[0], #[trigger] cards[j])
                < game.spec_strength(cards[0], cards[len]) by {
                assert(cards[j] == trick.cards[j]);
            }
            assert(is_earliest_strongest(game, cards, len));
        } else {
            let k = choose|k: int| #[trigger]
                is_earliest_strongest(game, trick.cards, k) && trick.winning_player == player_at(leader, k);
            let i = choose|i: int| 0 <= i < len && !(game.spec_strength(trick.cards[0], #[trigger] trick.cards[i])
                < game.spec_strength(trick.cards[0], card));
            assert(game.spec_strength(cards[0], trick.cards[i]) <= game.spec_strength(cards[0], trick.cards[k]));
            assert forall|j: int| 0 <= j < k implies game.spec_strength(cards[0], #[trigger] cards[j])
                < game.spec_strength(cards[0], cards[k]) by {
                assert(cards[j] == trick.cards[j]);
            }
            assert forall|j: int| k < j < cards.len() implies game.spec_strength(cards[0], #[trigger] cards[j])
                <= game.spec_strength(cards[0], cards[k]) by {
                if j < len {
                    assert(cards[j] == trick.cards[j]);
                }
            }
            assert(is_earliest_strongest(game, cards, k));
        }
    }
}

/// Playing a card moves it from the hand of the player to play into the
/// trick: no card of the game is lost, gained or duplicated.
pub proof fn lemma_play_keeps_cards(state: GameStateView, card: Card)
    requires
        state.wf(),
    ensures
        state.after_play(card).0.cards_in_play() =~= state.cards_in_play(),
{
    broadcast use vstd::seq_lib::group_to_multiset_ensures;
    broadcast use vstd::multiset::group_multiset_axioms;

    let next = state.after_play(card).0;
    let player = state.current_player;
    let hand = state.current_hand();
    match hand.index_of_first(card) {
        None => {},
        Some(position) => {
            hand.index_of_first_ensures(card);
            vstd::seq_lib::to_multiset_remove(hand, position);
            match state.trick.play(state.game, player, hand, card) {
                TrickStep::Invalid => {},
                TrickStep::Played(trick) => {
                    if state.trick.cards.len() == 0 {
                        assert(trick.cards =~= state.trick.cards.push(card));
                    }
                    vstd::seq_lib::to_multiset_build(state.trick.cards, card);
                    assert(next.hands[player@ as int].to_multiset() =~= hand.to_multiset().remove(card));
                },
                TrickStep::Complete(winner, cards) => {
                    vstd::seq_lib::to_multiset_build(state.trick.cards, card);
                    assert(next.tricks_won.drop_last() =~= state.tricks_won);
                    assert(TrickView::empty().cards.to_multiset() =~= Multiset::empty());
                    assert(next.hands[player@ as int].to_multiset() =~= hand.to_multiset().remove(card));
                },
            }
        },
    }
}

impl GameStateView {
    /// Every card in the game outside the skat: the three hands, the current
    /// trick and the won tricks.
    pub open spec fn cards_in_play(self) -> Multiset<Card> {
        self.hands[0].to_multiset().add(self.hands[1].to_multiset()).add(
            self.hands[2].to_multiset(),
        ).add(self.trick.cards.to_multiset()).add(won_cards(self.tricks_won))
    }

    /// The hand of the player to play.
    pub open spec fn current_hand(self) -> Seq<Card> {
        self.hands[self.current_player@ as int]
    }

    /// The player who led the current trick: the players play in turn, so
    /// the leader played as many turns ago as the trick holds cards.
    pub open spec fn trick_leader(self) -> PlayerId {
        PlayerId::of_index((self.current_player@ + 3 - self.trick.cards.len()) % 3)
    }

    /// The state after the player to play tries to play `card`, and the
    /// answer to that attempt. A card that is not on the player's hand is
    /// ignored. A card that the rules forbid is refused and changes nothing.
    /// Otherwise the first copy of the card leaves the hand and goes to the
    /// trick; while the trick is open the next player is to play, and once
    /// it is complete it is stored with the tricks won and its winner is to
    /// play.
    pub open spec fn after_play(self, card: Card) -> (GameStateView, Result<(), ()>) {
        let player = self.current_player;
        let hand = self.current_hand();
        match hand.index_of_first(card) {
            None => (self, Ok(())),
            Some(position) => match self.trick.play(self.game, player, hand, card) {
                TrickStep::Invalid => (self, Err(())),
                TrickStep::Played(trick) => (
                    GameStateView {
                        hands: self.hands.update(player@ as int, hand.remove(position)),
                        trick,
                        current_player: player.spec_next(),
                        ..self
                    },
                    Ok(()),
                ),
                TrickStep::Complete(winner, cards) => (
                    GameStateView {
                        hands: self.hands.update(player@ as int, hand.remove(position)),
                        trick: TrickView::empty(),
                        current_player: winner,
                        tricks_won: self.tricks_won.push(WonTrickView { winning_player: winner, cards }),
                        ..self
                    },
                    Ok(()),
                ),
            },
        }
    }

    pub open spec fn wf(self) -> bool {
        &&& self.hands.len() == 3
        &&& self.current_player != PlayerId::NONE
        &&& self.trick.wf()
        &&& self.trick.cards.len() > 0 ==> wins_trick(
            self.game,
            self.trick_leader(),
            self.trick.cards,
            self.trick.winning_player,
        )
    }
}

impl GameState {
    pub fn new(
        game: Game,
        skat: [Card; 2],
        players: [PlayerState; 3],
        forehand: PlayerId,
        soloist: PlayerId,
    ) -> (r: Self)
        requires
            forehand != PlayerId::NONE,
        ensures
            r@.wf(),
            r@ == (GameStateView {
                game,
                skat: skat@,
                hands: seq![players[0].hand.cards@, players[1].hand.cards@, players[2].hand.cards@],
                tricks_won: Seq::empty(),
                trick: TrickView::empty(),
                current_player: forehand,
                soloist,
            }),
    {
        let r = Self {
            game,
            _skat: skat,
            players,
            tricks_won: Vec::with_capacity(10),
            current_trick: Trick::empty(),
            current_player_id: forehand,
            soloist,
        };
        assert(r@.hands =~= seq![players[0].hand.cards@, players[1].hand.cards@, players[2].hand.cards@]);
        assert(r@.tricks_won =~= Seq::empty());
        r
    }

    /// Plays `card` from the hand of the player whose turn it is. Returns
    /// `Err(())` when the rules of the game do not allow the card.
    pub fn play_card(&mut self, card: Card) -> (r: Result<(), ()>)
        requires
            old(self)@.wf(),
        ensures
            final(self)@.wf(),
            (final(self)@, r) == old(self)@.after_play(card),
            final(self)@.cards_in_play() == old(self)@.cards_in_play(),
            final(self)@.tricks_won.len() == old(self)@.tricks_won.len() + 1 ==> wins_trick(
                old(self)@.game,
                old(self)@.trick_leader(),
                final(self)@.tricks_won.last().cards,
                final(self)@.tricks_won.last().winning_player,
            ),
    {
        proof {
            lemma_play_keeps_cards(old(self)@, card);
        }
        let ghost before = self@;
        let ghost hand = before.current_hand();
        let current = self.current_player_id.into_inner();
        let n = self.players[current].hand.cards.len();
        proof {
            hand.index_of_first_ensures(card);
        }
        let mut played_card_idx: usize = 0;
        while played_card_idx < n && self.players[current].hand.cards[played_card_idx] != card
            invariant
                0 <= played_card_idx <= n,
                current < 3,
                n == self.players[current as int].hand.cards@.len(),
                forall|j: int| 0 <= j < played_card_idx ==> self.players[current as int].hand.cards@[j] != card,
            decreases n - played_card_idx,
        {
            played_card_idx += 1;
        }
        if played_card_idx == n {
            assert(!hand.contains(card));
            return Ok(());
        }
        assert(hand.index_of_first(card) == Some(played_card_idx as int));

        let mut trick = Trick::empty();
        std::mem::swap(&mut trick, &mut self.current_trick);
        let (trick, outcome) = trick.try_play_card(
            &self.game,
            self.current_player_id,
            self.players[current].hand.cards.as_slice(),
            card,
        );
        self.current_trick = trick;
        proof {
            lemma_play_tracks_winner(
                before.game,
                before.trick_leader(),
                before.trick,
                before.current_player,
                hand,
                card,
            );
        }

        match outcome {
            PlayCardOutcome::CardPlayed => {
                self.players[current].hand.cards.remove(played_card_idx);
                self.current_player_id = self.current_player_id.next();
                assert(self@.hands =~= before.hands.update(current as int, hand.remove(played_card_idx as int)));
                Ok(())
            },
            PlayCardOutcome::InvalidCard => {
                assert(self@.hands =~= before.hands);
                Err(())
            },
            PlayCardOutcome::TrickComplete(won_trick) => {
                self.players[current].hand.cards.remove(played_card_idx);
                self.current_player_id = won_trick.winning_player;
                self.tricks_won.push(won_trick);
                assert(self@.hands =~= before.hands.update(current as int, hand.remove(played_card_idx as int)));
                assert(self@.tricks_won =~= before.tricks_won.push(won_trick@));
                Ok(())
            },
        }
    }

    /// What the player to play knows of the game, for a bot to decide on a
    /// card. The skat is known to the soloist only.
    pub fn get_bot_context(&self) -> (r: BotContext<'_>)
        requires
            self@.wf(),
        ensures
            *r.game == self@.game,
            r.player_id == self@.current_player,
            r.hand() == self@.current_hand(),
            r.current_trick@ == self@.trick,
            r.tricks_won@.map_values(|t: WonTrick| t@) == self@.tricks_won,
            r.soloist == self@.soloist,
            r.skat is Some <==> self@.current_player == self@.soloist,
            r.skat matches Some(skat) ==> skat@ == self@.skat,
    {
        BotContext {
            game: &self.game,
            player_id: self.current_player_id,
            player_state: self.current_player(),
            current_trick: &self.current_trick,
            tricks_won: &self.tricks_won,
            soloist: self.soloist,
            skat: if self.current_player_id() == self.soloist {
                Some(self._skat)
            } else {
                None
            },
        }
    }

    /// The game is over once the hands are played out: the player to play
    /// holds no card.
    pub fn is_game_over(&self) -> (r: bool)
        requires
            self@.wf(),
        ensures
            r == (self@.current_hand().len() == 0),
    {
        self.current_player().hand.cards.len() == 0
    }

    pub fn last_won_trick(&self) -> (r: Option<WonTrick>)
        ensures
            r matches Some(t) ==> self@.tricks_won.len() > 0 && t@ == self@.tricks_won.last(),
            r is None <==> self@.tricks_won.len() == 0,
    {
        if self.tricks_won.len() == 0 {
            None
        } else {
            Some(self.tricks_won[self.tricks_won.len() - 1])
        }
    }

    pub fn current_trick(&self) -> (r: &Trick)
        ensures
            r@ == self@.trick,
    {
        &self.current_trick
    }

    pub fn player(&self, id: PlayerId) -> (r: &PlayerState)
        requires
            id != PlayerId::NONE,
        ensures
            r.hand.cards@ == self@.hands[id@ as int],
    {
        &self.players[id.into_inner()]
    }

    pub fn current_player_id(&self) -> (r: PlayerId)
        ensures
            r == self@.current_player,
    {
        self.current_player_id
    }

    pub fn current_player(&self) -> (r: &PlayerState)
        requires
            self@.wf(),
        ensures
            r.hand.cards@ == self@.current_hand(),
    {
        &self.players[self.current_player_id.into_inner()]
    }
}

} // verus!
