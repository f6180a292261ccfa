use rand::seq::SliceRandom;
use vstd::multiset::Multiset;
use vstd::prelude::*;

use crate::{
    card::{Card, deck, spec_deck},
    game::Game,
    hand::{Hand, card_leq},
};

verus! {

/// The options of the command that deals each player a hand.
pub struct Args {
    /// Output format for the dealt hands.
    pub output: Output,
}

/// The formats in which dealt hands are printed.
#[derive(Copy, Clone, Debug, PartialEq, Eq, PartialOrd, Ord, Structural)]
pub enum Output {
    /// Outputs the dealt hands in a visually appealing manner.
    Pretty,
    /// Outputs the dealt hands as Rust code.
    Rust,
}

/// The two cards put aside when dealing.
pub type Skat = [Card; 2];

/// The skat and the hands of the three players.
pub type DealtHands = (Skat, Hand, Hand, Hand);

/// Shuffles the cards with `rand`'s `SliceRandom::shuffle` on the thread's
/// random number generator (`rand::rng`). The result is a permutation of the
/// cards; which permutation is left to chance and is not stated.
#[verifier::external_body]
fn shuffle(cards: Vec<Card>) -> (r: Vec<Card>)
    ensures
        r@.to_multiset() == cards@.to_multiset(),
{
    let mut cards = cards;
    cards.shuffle(&mut rand::rng());
    cards
}

/// All the cards of a deal: the skat, then the three hands.
pub open spec fn dealt_cards(dealt: DealtHands) -> Seq<Card> {
    dealt.0@ + dealt.1.cards@ + dealt.2.cards@ + dealt.3.cards@
}

/// A deal hands out the whole deck: its 32 cards are the cards of the deck,
/// each exactly once.
pub proof fn lemma_deal_holds_every_card_once(dealt: DealtHands)
    requires
        dealt_cards(dealt).to_multiset() == spec_deck().to_multiset(),
    ensures
        dealt_cards(dealt).len() == 32,
        dealt_cards(dealt).no_duplicates(),
        forall|card: Card| dealt_cards(dealt).contains(card),
{
    broadcast use vstd::seq_lib::group_to_multiset_ensures;

    let cards = dealt_cards(dealt);
    crate::card::lemma_deck_holds_every_card_once();
    spec_deck().lemma_multiset_has_no_duplicates();
    cards.lemma_multiset_has_no_duplicates_conv();
    vstd::seq_lib::to_multiset_len(cards);
    vstd::seq_lib::to_multiset_len(spec_deck());
    assert forall|card: Card| cards.contains(card) by {
        assert(spec_deck().contains(card));
        assert(spec_deck().to_multiset().count(card) > 0);
    }
}

/// Shuffles the deck, puts the top two cards aside as the skat, and deals the
/// rest to the three players, one card each in turn.
pub fn deal() -> (r: DealtHands)
    ensures
        r.1.cards@.len() == 10,
        r.2.cards@.len() == 10,
        r.3.cards@.len() == 10,
        dealt_cards(r).to_multiset() == spec_deck().to_multiset(),
        dealt_cards(r).no_duplicates(),
        forall|card: Card| dealt_cards(r).contains(card),
{
    let cards = shuffle(deck());
    proof {
        vstd::seq_lib::to_multiset_len(cards@);
        vstd::seq_lib::to_multiset_len(spec_deck());
    }
    let r = deal_cards(cards);
    assert(cards@.take(32) =~= cards@);
    proof {
        lemma_deal_holds_every_card_once(r);
    }
    r
}

/// Deals the cards as they come: the first two are the skat, then each
/// player in turn receives one card until fewer than three cards are left.
pub fn deal_cards(cards: Vec<Card>) -> (r: DealtHands)
    requires
        cards@.len() >= 2,
    ensures
        r.0@ == cards@.take(2),
        r.1.cards@ == Seq::new(((cards@.len() - 2) / 3) as nat, |k: int| cards@[2 + 3 * k]),
        r.2.cards@ == Seq::new(((cards@.len() - 2) / 3) as nat, |k: int| cards@[3 + 3 * k]),
        r.3.cards@ == Seq::new(((cards@.len() - 2) / 3) as nat, |k: int| cards@[4 + 3 * k]),
        dealt_cards(r).to_multiset() == cards@.take(2 + 3 * ((cards@.len() - 2) / 3)).to_multiset(),
{
    let ghost input = cards@;
    let n = cards.len();
    let skat = [cards[0], cards[1]];

    let mut hand1 = Hand::empty();
    let mut hand2 = Hand::empty();
    let mut hand3 = Hand::empty();

    let rounds = (n - 2) / 3;
    let mut k: usize = 0;
    proof {
        assert(input.take(2) =~= skat@);
        assert(skat@ + hand1.cards@ + hand2.cards@ + hand3.cards@ =~= skat@);
    }
    while k < rounds
        invariant
            cards@ == input,
            n == input.len(),
            n >= 2,
            rounds == (n - 2) / 3,
            0 <= k <= rounds,
            skat@ == input.take(2),
            hand1.cards@ == Seq::new(k as nat, |j: int| input[2 + 3 * j]),
            hand2.cards@ == Seq::new(k as nat, |j: int| input[3 + 3 * j]),
            hand3.cards@ == Seq::new(k as nat, |j: int| input[4 + 3 * j]),
            (skat@ + hand1.cards@ + hand2.cards@ + hand3.cards@).to_multiset()
                == input.take(2 + 3 * k).to_multiset(),
        decreases rounds - k,
    {
        let ghost before = skat@ + hand1.cards@ + hand2.cards@ + hand3.cards@;
        let i = 2 + 3 * k;
        hand1.cards.push(cards[i]);
        hand2.cards.push(cards[i + 1]);
        hand3.cards.push(cards[i + 2]);
        proof {
            broadcast use vstd::seq_lib::group_to_multiset_ensures;
            broadcast use vstd::multiset::group_multiset_axioms;

            assert(hand1.cards@ =~= Seq::new((k + 1) as nat, |j: int| input[2 + 3 * j]));
            assert(hand2.cards@ =~= Seq::new((k + 1) as nat, |j: int| input[3 + 3 * j]));
            assert(hand3.cards@ =~= Seq::new((k + 1) as nat, |j: int| input[4 + 3 * j]));
            vstd::seq_lib::lemma_multiset_commutative(skat@ + hand1.cards@ + hand2.cards@, hand3.cards@);
            assert(input.take(i + 3) =~= input.take(i as int).push(input[i as int]).push(input[i + 1]).push(
                input[i + 2],
            ));
            assert((skat@ + hand1.cards@ + hand2.cards@ + hand3.cards@).to_multiset() =~= before.to_multiset().insert(
                input[i as int],
            ).insert(input[i + 1]).insert(input[i + 2])) by {
                let s1 = skat@ + hand1.cards@;
                let s2 = s1 + hand2.cards@;
                vstd::seq_lib::lemma_multiset_commutative(skat@, hand1.cards@);
                vstd::seq_lib::lemma_multiset_commutative(s1, hand2.cards@);
                vstd::seq_lib::lemma_multiset_commutative(s2, hand3.cards@);
                vstd::seq_lib::lemma_multiset_commutative(skat@, hand1.cards@.drop_last());
                vstd::seq_lib::lemma_multiset_commutative(skat@ + hand1.cards@.drop_last(), hand2.cards@.drop_last());
                vstd::seq_lib::lemma_multiset_commutative(
                    skat@ + hand1.cards@.drop_last() + hand2.cards@.drop_last(),
                    hand3.cards@.drop_last(),
                );
                assert(hand1.cards@.drop_last() =~= Seq::new(k as nat, |j: int| input[2 + 3 * j]));
                assert(hand2.cards@.drop_last() =~= Seq::new(k as nat, |j: int| input[3 + 3 * j]));
                assert(hand3.cards@.drop_last() =~= Seq::new(k as nat, |j: int| input[4 + 3 * j]));
                assert(hand1.cards@ =~= hand1.cards@.drop_last().push(input[i as int]));
                assert(hand2.cards@ =~= hand2.cards@.drop_last().push(input[i + 1]));
                assert(hand3.cards@ =~= hand3.cards@.drop_last().push(input[i + 2]));
            }
        }
        k += 1;
    }

    (skat, hand1, hand2, hand3)
}

/// The cards written as Rust code, one after another with `separator`
/// between them.
pub open spec fn cards_as_rust(cards: Seq<Card>, separator: Seq<char>) -> Seq<char>
    decreases cards.len(),
{
    if cards.len() == 0 {
        Seq::empty()
    } else if cards.len() == 1 {
        cards[0].spec_display_rust()
    } else {
        cards_as_rust(cards.drop_last(), separator) + separator + cards.last().spec_display_rust()
    }
}

/// A dealt hand written as a Rust statement that declares it as an array of
/// cards, one card per line, the cards sorted for the game.
pub open spec fn hand_as_rust(game: Game, name: Seq<char>, hand: Hand) -> Seq<char> {
    "let "@ + name + " = [\n    "@ + cards_as_rust(hand.cards@.sort_by(card_leq(game)), ",\n    "@)
        + ",\n];\n"@
}

/// A deal written as Rust code: the skat on one line, then each hand sorted
/// for the game, one card per line.
pub open spec fn spec_dealt_hands_as_rust(game: Game, dealt: DealtHands) -> Seq<char> {
    "let skat = ["@ + cards_as_rust(dealt.0@, ", "@) + "];\n"@
        + hand_as_rust(game, "hand1"@, dealt.1)
        + hand_as_rust(game, "hand2"@, dealt.2)
        + hand_as_rust(game, "hand3"@, dealt.3)
}

/// Writes the cards as Rust code, one after another with `separator` between
/// them.
pub fn display_cards_rust(cards: &[Card], separator: &str) -> (r: String)
    ensures
        r@ == cards_as_rust(cards@, separator@),
{
    let mut r = String::new();
    let mut i: usize = 0;
    assert(cards@.take(0) =~= Seq::<Card>::empty());
    while i < cards.len()
        invariant
            0 <= i <= cards@.len(),
            r@ == cards_as_rust(cards@.take(i as int), separator@),
        decreases cards@.len() - i,
    {
        if i > 0 {
            r.append(separator);
        }
        let card = cards[i].display_rust();
        r.append(card.as_str());
        proof {
            assert(cards@.take(i + 1).drop_last() =~= cards@.take(i as int));
            if i == 0 {
                assert(r@ =~= cards_as_rust(cards@.take(1), separator@));
            } else {
                assert(r@ =~= cards_as_rust(cards@.take(i + 1), separator@));
            }
        }
        i += 1;
    }
    assert(cards@.take(cards@.len() as int) =~= cards@);
    r
}

/// Writes a hand as a Rust statement that declares it, sorted for the game.
fn display_hand_rust(game: &Game, name: &str, hand: Hand) -> (r: String)
    ensures
        r@ == hand_as_rust(*game, name@, hand),
{
    let sorted = hand.sorted(game);
    let mut r = String::new();
    r.append("let ");
    r.append(name);
    r.append(" = [\n    ");
    let cards = display_cards_rust(sorted.cards.as_slice(), ",\n    ");
    r.append(cards.as_str());
    r.append(",\n];\n");
    proof {
        assert(r@ =~= hand_as_rust(*game, name@, hand));
    }
    r
}

/// Writes a deal as Rust code: the skat on one line, then each hand sorted
/// for the game, one card per line.
pub fn dealt_hands_as_rust(game: &Game, dealt: DealtHands) -> (r: String)
    ensures
        r@ == spec_dealt_hands_as_rust(*game, dealt),
{
    let (skat, hand1, hand2, hand3) = dealt;
    let ghost dealt_view = dealt;
    let mut r = String::new();
    r.append("let skat = [");
    let skat_cards = display_cards_rust(skat.as_slice(), ", ");
    r.append(skat_cards.as_str());
    r.append("];\n");
    let text = display_hand_rust(game, "hand1", hand1);
    r.append(text.as_str());
    let text = display_hand_rust(game, "hand2", hand2);
    r.append(text.as_str());
    let text = display_hand_rust(game, "hand3", hand3);
    r.append(text.as_str());
    proof {
        assert(r@ =~= spec_dealt_hands_as_rust(*game, dealt_view));
    }
    r
}

} // verus!
