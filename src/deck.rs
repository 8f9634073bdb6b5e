use vstd::prelude::*;
use vstd::seq_lib::group_to_multiset_ensures;
use rand::rngs::StdRng;
use rand::seq::SliceRandom;

use crate::card::{points, suit_at, suit_index, value_at, value_index, Card, Suit, Value};

verus! {

/// Number of cards in a full deck.
pub const DECK_SIZE: usize = 52;

/// Position of a card in the canonical order: suit-major, rank-minor.
pub open spec fn card_index(c: Card) -> int {
    (suit_index(c.suit) * 13 + value_index(c.value)) as int
}

/// The 52 cards in the canonical order: Spades Two to Ace, then Hearts,
/// Diamonds and Clubs in the same way.
pub open spec fn full_deck() -> Seq<Card> {
    Seq::new(52, |i: int| Card { value: value_at(i % 13), suit: suit_at(i / 13) })
}

/// A sequence that holds the 52 cards, each once, in some order.
pub open spec fn is_full_deck(s: Seq<Card>) -> bool {
    s.to_multiset() == full_deck().to_multiset()
}

/// Sum of the points of the cards of a hand.
pub open spec fn hand_total(s: Seq<Card>) -> nat
    decreases s.len(),
{
    if s.len() == 0 {
        0
    } else {
        hand_total(s.drop_last()) + points(s.last().value)
    }
}

/// A hand totals at most 11 points per card.
pub proof fn lemma_hand_total_bound(s: Seq<Card>)
    ensures
        hand_total(s) <= 11 * s.len(),
    decreases s.len(),
{
    if s.len() > 0 {
        lemma_hand_total_bound(s.drop_last());
    }
}

proof fn lemma_hand_total_remove(s: Seq<Card>, i: int)
    requires
        0 <= i < s.len(),
    ensures
        hand_total(s) == hand_total(s.remove(i)) + points(s[i].value),
    decreases s.len(),
{
    if i == s.len() - 1 {
        assert(s.remove(i) =~= s.drop_last());
    } else {
        lemma_hand_total_remove(s.drop_last(), i);
        assert(s.remove(i).drop_last() =~= s.drop_last().remove(i));
    }
}

/// A hand's total does not depend on the order of its cards: two hands that
/// hold the same cards have the same total.
pub proof fn lemma_hand_total_order_independent(s1: Seq<Card>, s2: Seq<Card>)
    requires
        s1.to_multiset() == s2.to_multiset(),
    ensures
        hand_total(s1) == hand_total(s2),
    decreases s1.len(),
{
    broadcast use group_to_multiset_ensures;

    if s1.len() == 0 {
        assert(s2.to_multiset().len() == 0);
    } else {
        let x = s1.last();
        assert(s1.drop_last().push(x) =~= s1);
        assert(s2.to_multiset().count(x) > 0);
        assert(s2.contains(x));
        let j = choose|j: int| 0 <= j < s2.len() && s2[j] == x;
        assert(s2.remove(j).to_multiset() =~= s1.drop_last().to_multiset());
        lemma_hand_total_remove(s2, j);
        lemma_hand_total_order_independent(s1.drop_last(), s2.remove(j));
    }
}

proof fn lemma_card_at_index(c: Card)
    ensures
        0 <= card_index(c) < 52,
        full_deck()[card_index(c)] == c,
{
    let i = card_index(c);
    let s = suit_index(c.suit) as int;
    let v = value_index(c.value) as int;
    assert(i % 13 == v && i / 13 == s) by (nonlinear_arith)
        requires
            i == s * 13 + v,
            0 <= v < 13,
            0 <= s < 4,
    ;
}

proof fn lemma_index_of_card(i: int)
    requires
        0 <= i < 52,
    ensures
        card_index(full_deck()[i]) == i,
{
    let v = i % 13;
    let s = i / 13;
    assert(i == s * 13 + v && 0 <= v < 13 && 0 <= s < 4) by (nonlinear_arith)
        requires
            0 <= i < 52,
            v == i % 13,
            s == i / 13,
    ;
}

/// The canonical deck has 52 cards, no card twice, and every card that
/// exists.
pub proof fn lemma_full_deck()
    ensures
        full_deck().len() == 52,
        full_deck().no_duplicates(),
        forall|c: Card| #[trigger] full_deck().contains(c),
{
    assert forall|c: Card| #[trigger] full_deck().contains(c) by {
        lemma_card_at_index(c);
    }
    assert forall|i: int, j: int|
        0 <= i < 52 && 0 <= j < 52 && i != j implies full_deck()[i] != full_deck()[j] by {
        lemma_index_of_card(i);
        lemma_index_of_card(j);
    }
}

/// Any order of the full deck still has 52 cards, no card twice, and every
/// card that exists.
pub proof fn lemma_is_full_deck(s: Seq<Card>)
    requires
        is_full_deck(s),
    ensures
        s.len() == 52,
        s.no_duplicates(),
        forall|c: Card| #[trigger] s.contains(c),
{
    broadcast use group_to_multiset_ensures;

    lemma_full_deck();
    full_deck().lemma_multiset_has_no_duplicates();
    assert(s.len() == s.to_multiset().len());
    assert forall|c: Card| #[trigger] s.contains(c) by {
        assert(full_deck().contains(c));
        assert(full_deck().to_multiset().count(c) > 0);
    }
    s.lemma_multiset_has_no_duplicates_conv();
}

fn suit_of_index(i: usize) -> (r: Suit)
    requires
        i < 4,
    ensures
        r == suit_at(i as int),
{
    if i == 0 {
        Suit::Spades
    } else if i == 1 {
        Suit::Hearts
    } else if i == 2 {
        Suit::Diamonds
    } else {
        Suit::Clubs
    }
}

fn value_of_index(i: usize) -> (r: Value)
    requires
        i < 13,
    ensures
        r == value_at(i as int),
{
    if i == 0 {
        Value::Two
    } else if i == 1 {
        Value::Three
    } else if i == 2 {
        Value::Four
    } else if i == 3 {
        Value::Five
    } else if i == 4 {
        Value::Six
    } else if i == 5 {
        Value::Seven
    } else if i == 6 {
        Value::Eight
    } else if i == 7 {
        Value::Nine
    } else if i == 8 {
        Value::Ten
    } else if i == 9 {
        Value::Jack
    } else if i == 10 {
        Value::Queen
    } else if i == 11 {
        Value::King
    } else {
        Value::Ace
    }
}

/// The 52 cards in the canonical order, suit-major and rank-minor.
pub fn create_deck() -> (r: Vec<Card>)
    ensures
        r@ == full_deck(),
{
    let mut cards: Vec<Card> = Vec::new();
    let mut si: usize = 0;
    while si < 4
        invariant
            si <= 4,
            cards@ == full_deck().subrange(0, si * 13),
        decreases 4 - si,
    {
        let suit = suit_of_index(si);
        let mut vi: usize = 0;
        while vi < 13
            invariant
                si < 4,
                vi <= 13,
                suit == suit_at(si as int),
                cards@ == full_deck().subrange(0, si * 13 + vi),
            decreases 13 - vi,
        {
            let ghost k: int = si * 13 + vi;
            assert(k % 13 == vi && k / 13 == si) by (nonlinear_arith)
                requires
                    k == si * 13 + vi,
                    vi < 13,
            ;
            cards.push(Card::new(value_of_index(vi), suit));
            assert(cards@ =~= full_deck().subrange(0, k + 1));
            vi = vi + 1;
        }
        si = si + 1;
    }
    assert(cards@ =~= full_deck());
    cards
}

/// rand's standard generator, carried through as an opaque value.
#[verifier::external_type_specification]
#[verifier::external_body]
pub struct ExStdRng(StdRng);

/// Relies on rand's `SliceRandom::shuffle`, which only swaps elements of the
/// slice: the result is a reordering of the same cards.
#[verifier::external_body]
fn shuffle_cards(cards: &mut Vec<Card>, rng: &mut StdRng)
    ensures
        final(cards)@.to_multiset() == old(cards)@.to_multiset(),
        final(cards)@.len() == old(cards)@.len(),
{
    cards.shuffle(rng)
}

/// A fresh deck in an order drawn from `rng`: every card once, in any order.
pub fn shuffled_deck(rng: &mut StdRng) -> (r: Vec<Card>)
    ensures
        is_full_deck(r@),
        r@.len() == DECK_SIZE,
        r@.no_duplicates(),
        forall|c: Card| #[trigger] r@.contains(c),
{
    let mut cards = create_deck();
    shuffle_cards(&mut cards, rng);
    proof {
        lemma_is_full_deck(cards@);
    }
    cards
}

/// Takes the last `n` cards off the deck, in their order. Asking for more
/// cards than remain takes nothing and gives `None`.
pub fn draw(deck: &mut Vec<Card>, n: usize) -> (r: Option<Vec<Card>>)
    ensures
        n > old(deck)@.len() ==> r is None && final(deck)@ == old(deck)@,
        n <= old(deck)@.len() ==> r is Some && r->Some_0@ == old(deck)@.subrange(
            old(deck)@.len() - n,
            old(deck)@.len() as int,
        ) && final(deck)@ == old(deck)@.subrange(0, old(deck)@.len() - n),
{
    if n > deck.len() {
        None
    } else {
        let at = deck.len() - n;
        Some(deck.split_off(at))
    }
}

/// Sum of the points of the cards, with no cap applied.
pub fn card_total(cards: &[Card]) -> (r: usize)
    requires
        cards@.len() <= usize::MAX / 11,
    ensures
        r == hand_total(cards@),
{
    let mut total: usize = 0;
    let mut i: usize = 0;
    while i < cards.len()
        invariant
            i <= cards@.len(),
            cards@.len() <= usize::MAX / 11,
            total == hand_total(cards@.subrange(0, i as int)),
        decreases cards@.len() - i,
    {
        proof {
            lemma_hand_total_bound(cards@.subrange(0, i as int));
            assert(cards@.subrange(0, i + 1).drop_last() =~= cards@.subrange(0, i as int));
        }
        total = total + cards[i].value.points();
        i = i + 1;
    }
    assert(cards@.subrange(0, i as int) =~= cards@);
    total
}

} // verus!
