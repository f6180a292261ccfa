use std::cmp::Ordering;

use vstd::prelude::*;
use vstd::relations::{sorted_by, total_ordering};

use crate::{
    card::Card,
    game::{Game, GameKind, grand::{GrandGame, jack_position}, null::NullGame, suit::SuitGame},
    rank::{Rank, null_order_position, suit_order_position},
    suit::Suit,
};

verus! {

/// The cards held by a player.
#[derive(Clone, Debug)]
pub struct Hand {
    pub cards: Vec<Card>,
}

/// The position of a suit when a hand is sorted: clubs (black), then hearts
/// (red), then spades (black), then diamonds (red).
pub open spec fn suit_position(suit: Suit) -> int {
    match suit {
        Suit::Clubs => 0,
        Suit::Hearts => 1,
        Suit::Spades => 2,
        Suit::Diamonds => 3,
    }
}

/// The position of a card in a hand sorted for the game. Jacks come first,
/// from the jack of clubs down to the jack of diamonds; in a suit game the
/// other trumps follow, highest first; then come the remaining cards suit by
/// suit, highest first. Null games have no trumps and use their own rank
/// order.
pub open spec fn sort_key(game: Game, card: Card) -> int {
    match game {
        Game::Suit(g) => {
            if card.rank == Rank::Jack {
                12 - card.suit.spec_base_value()
            } else if card.suit == g.trump_suit {
                10 - card.rank.spec_raw_rank(GameKind::Grand)
            } else {
                11 + 7 * suit_position(card.suit) + 6 - card.rank.spec_raw_rank(GameKind::Grand)
            }
        },
        Game::Grand(_) => {
            if card.rank == Rank::Jack {
                12 - card.suit.spec_base_value()
            } else {
                4 + 7 * suit_position(card.suit) + 6 - card.rank.spec_raw_rank(GameKind::Grand)
            }
        },
        Game::Null(_) => 8 * suit_position(card.suit) + 7 - card.rank.spec_raw_rank(GameKind::Null),
    }
}

/// The order in which a hand is sorted for the game.
pub open spec fn card_leq(game: Game) -> spec_fn(Card, Card) -> bool {
    |a: Card, b: Card| sort_key(game, a) <= sort_key(game, b)
}

/// Distinct cards have distinct places in a sorted hand.
pub proof fn lemma_sort_key_injective(game: Game, a: Card, b: Card)
    requires
        sort_key(game, a) == sort_key(game, b),
    ensures
        a == b,
{
}

/// The sorting order is a total order on cards.
pub proof fn lemma_card_leq_total(game: Game)
    ensures
        total_ordering(card_leq(game)),
{
    assert forall|a: Card, b: Card|
        #[trigger] card_leq(game)(a, b) && #[trigger] card_leq(game)(b, a) implies a == b by {
        lemma_sort_key_injective(game, a, b);
    }
}

/// Sorting keeps the cards of a hand and puts them in the order of the game.
pub proof fn lemma_sorting_keeps_cards(game: Game, cards: Seq<Card>)
    ensures
        cards.sort_by(card_leq(game)).to_multiset() == cards.to_multiset(),
        sorted_by(cards.sort_by(card_leq(game)), card_leq(game)),
{
    lemma_card_leq_total(game);
    cards.lemma_sort_by_ensures(card_leq(game));
}

/// Sorting a sorted hand leaves it as it is.
pub proof fn lemma_sorting_is_idempotent(game: Game, cards: Seq<Card>)
    ensures
        cards.sort_by(card_leq(game)).sort_by(card_leq(game)) == cards.sort_by(card_leq(game)),
{
    let once = cards.sort_by(card_leq(game));
    lemma_sorting_keeps_cards(game, cards);
    lemma_sorting_keeps_cards(game, once);
    vstd::seq_lib::lemma_sorted_unique(once.sort_by(card_leq(game)), once, card_leq(game));
}

/// The place of a suit in a sorted hand: clubs, hearts, spades, diamonds, so
/// that black and red suits alternate.
pub open spec fn suit_place(suit: Suit) -> int {
    match suit {
        Suit::Clubs => 0,
        Suit::Hearts => 1,
        Suit::Spades => 2,
        Suit::Diamonds => 3,
    }
}

/// In a hand sorted for a suit game or a grand, the jacks come first, from
/// the jack of clubs down to the jack of diamonds (clubs, spades, hearts,
/// diamonds).
pub proof fn lemma_sorted_hand_starts_with_jacks(game: Game, cards: Seq<Card>)
    requires
        !(game is Null),
    ensures
        forall|i: int, j: int|
            #![trigger cards.sort_by(card_leq(game))[i], cards.sort_by(card_leq(game))[j]]
            0 <= i < j < cards.sort_by(card_leq(game)).len() && cards.sort_by(card_leq(game))[j].rank
                == Rank::Jack ==> {
                &&& cards.sort_by(card_leq(game))[i].rank == Rank::Jack
                &&& jack_position(cards.sort_by(card_leq(game))[i].suit) <= jack_position(
                    cards.sort_by(card_leq(game))[j].suit,
                )
            },
{
    let sorted = cards.sort_by(card_leq(game));
    lemma_sorting_keeps_cards(game, cards);
    assert forall|i: int, j: int| 0 <= i < j < sorted.len() && sorted[j].rank == Rank::Jack implies {
        &&& sorted[i].rank == Rank::Jack
        &&& jack_position(sorted[i].suit) <= jack_position(sorted[j].suit)
    } by {
        assert(card_leq(game)(sorted[i], sorted[j]));
    }
}

/// In a hand sorted for a suit game, the other cards of the trump suit come
/// right after the jacks: before a trump that is not a jack stand only
/// trumps, and among them the higher rank comes first.
pub proof fn lemma_sorted_suit_hand_trumps_follow(game: SuitGame, cards: Seq<Card>)
    ensures
        forall|i: int, j: int|
            #![trigger cards.sort_by(card_leq(Game::Suit(game)))[i], cards.sort_by(card_leq(Game::Suit(game)))[j]]
            0 <= i < j < cards.sort_by(card_leq(Game::Suit(game))).len()
                && cards.sort_by(card_leq(Game::Suit(game)))[j].rank != Rank::Jack
                && cards.sort_by(card_leq(Game::Suit(game)))[j].suit == game.trump_suit ==> {
                ||| cards.sort_by(card_leq(Game::Suit(game)))[i].rank == Rank::Jack
                ||| cards.sort_by(card_leq(Game::Suit(game)))[i].suit == game.trump_suit
                    && suit_order_position(cards.sort_by(card_leq(Game::Suit(game)))[i].rank)
                    >= suit_order_position(cards.sort_by(card_leq(Game::Suit(game)))[j].rank)
            },
{
    let g = Game::Suit(game);
    let sorted = cards.sort_by(card_leq(g));
    lemma_sorting_keeps_cards(g, cards);
    assert forall|i: int, j: int|
        0 <= i < j < sorted.len() && sorted[j].rank != Rank::Jack && sorted[j].suit == game.trump_suit implies {
        ||| sorted[i].rank == Rank::Jack
        ||| sorted[i].suit == game.trump_suit && suit_order_position(sorted[i].rank) >= suit_order_position(
            sorted[j].rank,
        )
    } by {
        assert(card_leq(g)(sorted[i], sorted[j]));
    }
}

/// After the trumps, a sorted hand holds its plain cards suit by suit
/// (clubs, hearts, spades, diamonds), each suit from its highest card down.
/// In a null game every card is plain and ranks in the null order.
pub proof fn lemma_sorted_hand_plain_cards(game: Game, cards: Seq<Card>)
    ensures
        forall|i: int, j: int|
            #![trigger cards.sort_by(card_leq(game))[i], cards.sort_by(card_leq(game))[j]]
            0 <= i < j < cards.sort_by(card_leq(game)).len()
                && !game.spec_is_trump(cards.sort_by(card_leq(game))[i])
                && !game.spec_is_trump(cards.sort_by(card_leq(game))[j]) ==> {
                &&& suit_place(cards.sort_by(card_leq(game))[i].suit) <= suit_place(
                    cards.sort_by(card_leq(game))[j].suit,
                )
                &&& cards.sort_by(card_leq(game))[i].suit == cards.sort_by(card_leq(game))[j].suit
                    ==> if game is Null {
                    null_order_position(cards.sort_by(card_leq(game))[i].rank) >= null_order_position(
                        cards.sort_by(card_leq(game))[j].rank,
                    )
                } else {
                    suit_order_position(cards.sort_by(card_leq(game))[i].rank) >= suit_order_position(
                        cards.sort_by(card_leq(game))[j].rank,
                    )
                }
            },
{
    let sorted = cards.sort_by(card_leq(game));
    lemma_sorting_keeps_cards(game, cards);
    assert forall|i: int, j: int|
        0 <= i < j < sorted.len() && !game.spec_is_trump(sorted[i]) && !game.spec_is_trump(sorted[j]) implies {
        &&& suit_place(sorted[i].suit) <= suit_place(sorted[j].suit)
        &&& sorted[i].suit == sorted[j].suit ==> if game is Null {
            null_order_position(sorted[i].rank) >= null_order_position(sorted[j].rank)
        } else {
            suit_order_position(sorted[i].rank) >= suit_order_position(sorted[j].rank)
        }
    } by {
        assert(card_leq(game)(sorted[i], sorted[j]));
    }
}

impl Hand {
    pub fn empty() -> (r: Self)
        ensures
            r.cards@ == Seq::<Card>::empty(),
    {
        Hand { cards: Vec::with_capacity(10) }
    }

    /// Returns the hand sorted for the game.
    pub fn sorted(self, game: &Game) -> (r: Self)
        ensures
            r.cards@ == self.cards@.sort_by(card_leq(*game)),
    {
        let mut hand = self;
        hand.sort(game);
        hand
    }

    /// Sorts the hand for the game: the cards stay the same, and their order
    /// is the order of `card_leq`.
    pub fn sort(&mut self, game: &Game)
        ensures
            final(self).cards@ == old(self).cards@.sort_by(card_leq(*game)),
    {
        let ghost leq = card_leq(*game);
        let ghost input = self.cards@;
        let n = self.cards.len();
        let mut sorted: Vec<Card> = Vec::with_capacity(n);
        let mut i: usize = 0;
        assert(input.take(0) =~= sorted@);
        while i < n
            invariant
                n == self.cards@.len(),
                self.cards@ == input,
                leq == card_leq(*game),
                0 <= i <= n,
                sorted_by(sorted@, leq),
                sorted@.to_multiset() == input.take(i as int).to_multiset(),
            decreases n - i,
        {
            let card = self.cards[i];
            // Find the first card that goes after `card`.
            let mut p: usize = 0;
            while p < sorted.len() && !goes_after(game, &sorted[p], &card)
                invariant
                    0 <= p <= sorted@.len(),
                    forall|j: int| 0 <= j < p ==> sort_key(*game, #[trigger] sorted@[j]) <= sort_key(*game, card),
                decreases sorted@.len() - p,
            {
                p += 1;
            }
            let ghost before = sorted@;
            sorted.insert(p, card);
            proof {
                assert(sorted@ == before.insert(p as int, card));
                vstd::seq_lib::to_multiset_insert(before, p as int, card);
                assert(input.take(i + 1) == input.take(i as int).push(card));
                vstd::seq_lib::to_multiset_build(input.take(i as int), card);
                assert forall|a: int, b: int| 0 <= a < b < sorted@.len() implies #[trigger] leq(sorted@[a], sorted@[b]) by {
                    if p < before.len() {
                        assert(sort_key(*game, before[p as int]) > sort_key(*game, card));
                    }
                    if b < p {
                        assert(leq(before[a], before[b]));
                    } else if b == p {
                        assert(sort_key(*game, before[a]) <= sort_key(*game, card));
                    } else if a < p {
                        assert(leq(before[a], before[b - 1]));
                    } else if a == p {
                        if b - 1 > p {
                            assert(leq(before[p as int], before[b - 1]));
                        }
                    } else {
                        assert(leq(before[a - 1], before[b - 1]));
                    }
                }
            }
            i += 1;
        }
        proof {
            assert(input.take(n as int) == input);
            lemma_card_leq_total(*game);
            input.lemma_sort_by_ensures(leq);
            vstd::seq_lib::lemma_sorted_unique(sorted@, input.sort_by(leq), leq);
        }
        self.cards = sorted;
    }
}

/// Whether `a` goes after `b` in a hand sorted for the game.
fn goes_after(game: &Game, a: &Card, b: &Card) -> (r: bool)
    ensures
        r == (sort_key(*game, *a) > sort_key(*game, *b)),
{
    let order = match game {
        Game::Suit(suit_game) => suit_game_sorter(suit_game, a, b),
        Game::Grand(grand_game) => grand_game_sorter(grand_game, a, b),
        Game::Null(null_game) => null_game_sorter(null_game, a, b),
    };
    match order {
        Ordering::Greater => true,
        _ => false,
    }
}

/// The ordering of two numbers.
pub open spec fn ordering_of(x: int, y: int) -> Ordering {
    if x < y {
        Ordering::Less
    } else if x == y {
        Ordering::Equal
    } else {
        Ordering::Greater
    }
}

/// The order of two cards in a hand sorted for the game.
pub open spec fn card_order(game: Game, a: Card, b: Card) -> Ordering {
    ordering_of(sort_key(game, a), sort_key(game, b))
}

/// The opposite of an ordering.
pub open spec fn reversed(order: Ordering) -> Ordering {
    match order {
        Ordering::Less => Ordering::Greater,
        Ordering::Equal => Ordering::Equal,
        Ordering::Greater => Ordering::Less,
    }
}

/// The order in which hands are sorted is a total order on cards: swapping
/// two cards reverses their order, only a card is equal to itself, and the
/// order is transitive.
pub proof fn lemma_card_order_is_total(game: Game, a: Card, b: Card, c: Card)
    ensures
        card_order(game, a, b) == reversed(card_order(game, b, a)),
        (card_order(game, a, b) == Ordering::Equal) <==> (a.rank == b.rank && a.suit == b.suit),
        card_order(game, a, b) != Ordering::Greater && card_order(game, b, c) != Ordering::Greater
            ==> card_order(game, a, c) != Ordering::Greater,
{
    if sort_key(game, a) == sort_key(game, b) {
        lemma_sort_key_injective(game, a, b);
    }
}

/// Orders two cards of a suit game by their place in a sorted hand.
fn suit_game_sorter(game: &SuitGame, a: &Card, b: &Card) -> (r: Ordering)
    ensures
        r == card_order(Game::Suit(*game), *a, *b),
{
    let a_is_jack = a.rank == Rank::Jack;
    let b_is_jack = b.rank == Rank::Jack;

    match (a_is_jack, b_is_jack) {
        // If both are Jacks, then order based on the value of the suit.
        (true, true) => return order_numbers(b.suit.base_value(), a.suit.base_value()),
        // If `a` is a Jack and `b` is not, then `a` is before `b`.
        (true, false) => return Ordering::Less,
        // If `b` is a Jack and `a` is not, then `b` is before `a`.
        (false, true) => return Ordering::Greater,
        _ => {},
    }

    let a_is_trump = a.suit == game.trump_suit;
    let b_is_trump = b.suit == game.trump_suit;

    match (a_is_trump, b_is_trump) {
        // If `a` is a trump and `b` is not, then `a` is before `b`.
        (true, false) => return Ordering::Less,
        // If `b` is a trump and `a` is not, then `b` is before `a`.
        (false, true) => return Ordering::Greater,
        _ => {},
    }

    if a.suit == b.suit {
        return b.rank.compare(&a.rank, GameKind::Grand);
    }

    black_red_suit_sorter(a.suit, b.suit)
}

/// Orders two cards of a grand game by their place in a sorted hand.
fn grand_game_sorter(_game: &GrandGame, a: &Card, b: &Card) -> (r: Ordering)
    ensures
        r == card_order(Game::Grand(*_game), *a, *b),
{
    let a_is_jack = a.rank == Rank::Jack;
    let b_is_jack = b.rank == Rank::Jack;

    match (a_is_jack, b_is_jack) {
        // If both are Jacks, then order based on the value of the suit.
        (true, true) => return order_numbers(b.suit.base_value(), a.suit.base_value()),
        // If `a` is a Jack and `b` is not, then `a` is before `b`.
        (true, false) => return Ordering::Less,
        // If `b` is a Jack and `a` is not, then `b` is before `a`.
        (false, true) => return Ordering::Greater,
        _ => {},
    }

    if a.suit == b.suit {
        return b.rank.compare(&a.rank, GameKind::Grand);
    }

    black_red_suit_sorter(a.suit, b.suit)
}

/// Orders two cards of a null game by their place in a sorted hand.
fn null_game_sorter(_game: &NullGame, a: &Card, b: &Card) -> (r: Ordering)
    ensures
        r == card_order(Game::Null(*_game), *a, *b),
{
    if a.suit == b.suit {
        return b.rank.compare(&a.rank, GameKind::Null);
    }

    black_red_suit_sorter(a.suit, b.suit)
}

/// Sorts suits in the order clubs (black), then hearts (red), then spades
/// (black), then diamonds (red).
fn black_red_suit_sorter(a: Suit, b: Suit) -> (r: Ordering)
    ensures
        r == ordering_of(suit_position(a), suit_position(b)),
{
    let a_idx: u8 = match a {
        Suit::Clubs => 0,
        Suit::Hearts => 1,
        Suit::Spades => 2,
        Suit::Diamonds => 3,
    };
    let b_idx: u8 = match b {
        Suit::Clubs => 0,
        Suit::Hearts => 1,
        Suit::Spades => 2,
        Suit::Diamonds => 3,
    };
    order_numbers(a_idx, b_idx)
}

/// The ordering of two small numbers.
fn order_numbers(x: u8, y: u8) -> (r: Ordering)
    ensures
        (r == Ordering::Less) <==> x < y,
        (r == Ordering::Equal) <==> x == y,
        (r == Ordering::Greater) <==> x > y,
{
    if x < y {
        Ordering::Less
    } else if x == y {
        Ordering::Equal
    } else {
        Ordering::Greater
    }
}

} // verus!
