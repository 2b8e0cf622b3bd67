//! The deck and the shuffle capability. Shuffling is injected: the engine
//! never owns randomness itself, so a fixed-order shuffle gives
//! deterministic replay. Whatever the shuffle does, it can only permute
//! the cards.

use vstd::prelude::*;

use rand::seq::SliceRandom;

use crate::card::face_at;
use crate::card::rank_index;
use crate::card::suit_index;
use crate::card::Card;
use crate::card::Facing;
use crate::card::Rank;
use crate::card::Suit;

verus! {

/// The full 52-card deck in canonical order, face down.
pub open spec fn full_deck() -> Seq<Card> {
    Seq::new(52, |i: int| Card { face: face_at(i), facing: Facing::FaceDown })
}

/// A shuffle capability: permutes a card sequence in place. Any
/// implementation keeps the multiset of cards — no card appears or
/// disappears.
pub trait Shuffle {
    fn shuffle(&mut self, cards: &mut Vec<Card>)
        ensures
            final(cards)@.to_multiset() == old(cards)@.to_multiset(),
            final(cards)@.len() == old(cards)@.len(),
    ;
}

/// A deck of cards, viewed as the sequence of its cards.
#[derive(Debug, Clone)]
pub struct Deck {
    cards: Vec<Card>,
}

impl View for Deck {
    type V = Seq<Card>;

    closed spec fn view(&self) -> Seq<Card> {
        self.cards@
    }
}

impl Deck {
    /// The full deck, face down, in canonical order.
    pub fn new() -> (d: Self)
        ensures
            d@ == full_deck(),
    {
        let cards = Card::values_face_down();
        assert(cards@ =~= full_deck());
        Self { cards }
    }

    /// The full deck, permuted by the given shuffle: the same 52 cards,
    /// all still face down.
    pub fn new_shuffled<S: Shuffle>(shuffle: &mut S) -> (d: Deck)
        ensures
            d@.to_multiset() == full_deck().to_multiset(),
            d@.len() == 52,
            forall|i: int| 0 <= i < d@.len() ==> (#[trigger] d@[i]).facing == Facing::FaceDown,
    {
        let mut deck = Self::new();
        deck.shuffle(shuffle);
        proof {
            lemma_permutation_of_face_down(deck@, full_deck());
        }
        deck
    }

    /// Permute this deck's cards with the given shuffle.
    pub fn shuffle<S: Shuffle>(&mut self, shuffle: &mut S)
        ensures
            final(self)@.to_multiset() == old(self)@.to_multiset(),
            final(self)@.len() == old(self)@.len(),
    {
        shuffle.shuffle(&mut self.cards);
    }

    /// Give up the deck's cards, bottom first.
    pub fn into_cards(self) -> (v: Vec<Card>)
        ensures
            v@ == self@,
    {
        self.cards
    }
}

impl Default for Deck {
    fn default() -> (d: Self)
        ensures
            d@ == full_deck(),
    {
        Self::new()
    }
}

/// A sequence that is a permutation of an all-face-down sequence is itself
/// all face down.
proof fn lemma_permutation_of_face_down(s: Seq<Card>, t: Seq<Card>)
    requires
        s.to_multiset() == t.to_multiset(),
        forall|i: int| 0 <= i < t.len() ==> (#[trigger] t[i]).facing == Facing::FaceDown,
    ensures
        forall|i: int| 0 <= i < s.len() ==> (#[trigger] s[i]).facing == Facing::FaceDown,
{
    broadcast use vstd::seq_lib::group_to_multiset_ensures;

    assert forall|i: int| 0 <= i < s.len() implies (#[trigger] s[i]).facing
        == Facing::FaceDown by {
        assert(s.contains(s[i]));
        assert(s.to_multiset().count(s[i]) > 0);
        assert(t.contains(s[i]));
    }
}

/// The identity shuffle: leaves the deck exactly as it was.
#[derive(Debug, Clone, Copy, PartialEq, Eq, Structural, Default)]
pub struct NoShuffle;

impl Shuffle for NoShuffle {
    fn shuffle(&mut self, cards: &mut Vec<Card>) {
    }
}

/// A true random shuffle, drawing from the thread's random number
/// generator.
#[derive(Debug, Clone, Copy, PartialEq, Eq, Structural, Default)]
pub struct RandomShuffle;

impl Shuffle for RandomShuffle {
    fn shuffle(&mut self, cards: &mut Vec<Card>) {
        shuffle_cards_in_place(cards);
    }
}

/// Relies on rand's `SliceRandom::shuffle` (with `rand::thread_rng`): a
/// Fisher–Yates shuffle that permutes the slice in place by swaps, so the
/// cards and their number are unchanged.
#[verifier::external_body]
fn shuffle_cards_in_place(cards: &mut Vec<Card>)
    ensures
        final(cards)@.to_multiset() == old(cards)@.to_multiset(),
        final(cards)@.len() == old(cards)@.len(),
{
    cards.shuffle(&mut rand::thread_rng());
}

/// The "un-shuffle": sorts the cards back into suit-then-rank order.
#[derive(Debug, Clone, Copy, PartialEq, Eq, Structural, Default)]
pub struct UnShuffle;

impl Shuffle for UnShuffle {
    fn shuffle(&mut self, cards: &mut Vec<Card>) {
        sort_cards(cards);
    }
}

/// A card's position in the suit-major, rank-minor order of the canonical
/// deck.
pub open spec fn card_key(c: Card) -> int {
    13 * suit_index(c.face.suit) + rank_index(c.face.rank)
}

/// Sorted by `card_key`, suit first and rank within the suit.
pub open spec fn sorted_by_key(s: Seq<Card>) -> bool {
    forall|i: int, j: int| 0 <= i <= j < s.len() ==> card_key(s[i]) <= card_key(s[j])
}

fn key_of(c: Card) -> (k: u32)
    ensures
        k == card_key(c),
{
    let s: u32 = match c.face.suit {
        Suit::Spades => 0,
        Suit::Hearts => 1,
        Suit::Diamonds => 2,
        Suit::Clubs => 3,
    };
    let r: u32 = match c.face.rank {
        Rank::Ace => 0,
        Rank::Two => 1,
        Rank::Three => 2,
        Rank::Four => 3,
        Rank::Five => 4,
        Rank::Six => 5,
        Rank::Seven => 6,
        Rank::Eight => 7,
        Rank::Nine => 8,
        Rank::Ten => 9,
        Rank::Jack => 10,
        Rank::Queen => 11,
        Rank::King => 12,
    };
    13 * s + r
}

/// Sort cards into suit-then-rank order by repeatedly extracting a
/// minimal remaining card: the result holds exactly the cards it was
/// given.
fn sort_cards(cards: &mut Vec<Card>)
    ensures
        final(cards)@.to_multiset() == old(cards)@.to_multiset(),
        final(cards)@.len() == old(cards)@.len(),
        sorted_by_key(final(cards)@),
{
    broadcast use vstd::seq_lib::group_to_multiset_ensures;

    let ghost orig = cards@;
    let mut out: Vec<Card> = Vec::new();
    while cards.len() > 0
        invariant
            out@.to_multiset().add(cards@.to_multiset()) == orig.to_multiset(),
            out@.len() + cards@.len() == orig.len(),
            sorted_by_key(out@),
            forall|i: int, j: int|
                0 <= i < out@.len() && 0 <= j < cards@.len() ==> card_key(out@[i]) <= card_key(
                    cards@[j],
                ),
        decreases cards.len(),
    {
        // Find a minimal remaining card.
        let mut m: usize = 0;
        let mut i: usize = 1;
        while i < cards.len()
            invariant
                0 <= m < i <= cards.len(),
                cards.len() > 0,
                forall|j: int| 0 <= j < i ==> card_key(cards@[m as int]) <= card_key(cards@[j]),
            decreases cards.len() - i,
        {
            if key_of(cards[i]) < key_of(cards[m]) {
                m = i;
            }
            i = i + 1;
        }
        let ghost pre = cards@;
        let ghost pre_out = out@;
        let c = cards.remove(m);
        out.push(c);
        proof {
            broadcast use vstd::seq_lib::group_to_multiset_ensures;

            assert(cards@ == pre.remove(m as int));
            assert(out@ == pre_out.push(c));
            assert(pre.to_multiset().count(c) > 0) by {
                assert(pre.contains(pre[m as int]));
            }
            assert(pre.remove(m as int).to_multiset() =~= pre.to_multiset().remove(c));
            assert(pre_out.push(c).to_multiset() =~= pre_out.to_multiset().insert(c));
            assert(out@.to_multiset().add(cards@.to_multiset()) =~= pre_out.to_multiset().add(
                pre.to_multiset(),
            ));
            assert forall|i2: int, j2: int|
                0 <= i2 < out@.len() && 0 <= j2 < cards@.len() implies card_key(out@[i2])
                <= card_key(cards@[j2]) by {
                if j2 < m {
                    assert(cards@[j2] == pre[j2]);
                } else {
                    assert(cards@[j2] == pre[j2 + 1]);
                }
            }
        }
    }
    *cards = out;
}

} // verus!
