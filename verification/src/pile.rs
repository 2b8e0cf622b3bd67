//! An ordered stack of cards. The sequence runs bottom to top: the top of
//! the pile is the last element of the sequence, the most recently placed
//! card.

use vstd::prelude::*;

use crate::card::Card;
use crate::card::Facing;

verus! {

/// An ordered pile of cards, viewed as the sequence of its cards from
/// bottom to top.
#[derive(Debug)]
pub struct Pile {
    cards: Vec<Card>,
}

impl View for Pile {
    type V = Seq<Card>;

    closed spec fn view(&self) -> Seq<Card> {
        self.cards@
    }
}

impl Default for Pile {
    fn default() -> (p: Self)
        ensures
            p@ == Seq::<Card>::empty(),
    {
        Pile::new()
    }
}

impl Clone for Pile {
    fn clone(&self) -> (r: Self)
        ensures
            r@ == self@,
    {
        let cards = self.cards.clone();
        assert(cards@ =~= self.cards@);
        Pile { cards }
    }
}

/// How many cards a take of `count` actually removes: `count`, saturated at
/// the pile's size.
pub open spec fn take_count(s: Seq<Card>, count: int) -> int {
    if count <= s.len() {
        count
    } else {
        s.len() as int
    }
}

/// A card sequence with its order reversed and every card's facing
/// flipped, as when recycling the waste back into the stock.
pub open spec fn flipped_seq(s: Seq<Card>) -> Seq<Card> {
    Seq::new(s.len(), |i: int| s[s.len() - 1 - i].spec_reversed())
}

/// The length of the maximal trailing run of face-up cards.
pub open spec fn face_up_run(s: Seq<Card>) -> int
    decreases s.len(),
{
    if s.len() == 0 || s.last().facing != Facing::FaceUp {
        0
    } else {
        1 + face_up_run(s.drop_last())
    }
}

/// The trailing face-up run is a suffix: it is no longer than the pile, all
/// cards in it are face up, and the card just below it (if any) is face
/// down.
pub proof fn lemma_face_up_run(s: Seq<Card>)
    ensures
        0 <= face_up_run(s) <= s.len(),
        forall|i: int|
            s.len() - face_up_run(s) <= i < s.len() ==> s[i].facing == Facing::FaceUp,
        face_up_run(s) < s.len() ==> s[s.len() - face_up_run(s) - 1].facing != Facing::FaceUp,
    decreases s.len(),
{
    if s.len() != 0 && s.last().facing == Facing::FaceUp {
        lemma_face_up_run(s.drop_last());
        assert forall|i: int|
            s.len() - face_up_run(s) <= i < s.len() implies s[i].facing == Facing::FaceUp by {
            if i < s.len() - 1 {
                assert(s.drop_last()[i] == s[i]);
            }
        }
    }
}

impl Pile {
    /// An empty pile.
    pub fn new() -> (p: Self)
        ensures
            p@ == Seq::<Card>::empty(),
    {
        Self { cards: Vec::new() }
    }

    /// A pile holding the given cards, bottom to top.
    pub fn new_with_cards(cards: Vec<Card>) -> (p: Self)
        ensures
            p@ == cards@,
    {
        let mut pile = Self::new();
        pile.place_cards(cards);
        pile
    }

    /// The top card, if the pile is not empty.
    pub fn top_card(&self) -> (r: Option<Card>)
        ensures
            r == if self@.len() == 0 {
                None::<Card>
            } else {
                Some(self@.last())
            },
    {
        if self.cards.len() == 0 {
            None
        } else {
            Some(self.cards[self.cards.len() - 1])
        }
    }

    /// The top `count` cards, bottom to top; the whole pile if it holds
    /// fewer than `count`.
    pub fn top_cards(&self, count: usize) -> (v: Vec<Card>)
        ensures
            v@ == self@.subrange(self@.len() - take_count(self@, count as int), self@.len() as int),
    {
        let len = self.cards.len();
        let start = if count <= len {
            len - count
        } else {
            0
        };
        let mut v: Vec<Card> = Vec::new();
        let mut i = start;
        while i < len
            invariant
                start <= i <= len,
                len == self.cards.len(),
                v@ == self.cards@.subrange(start as int, i as int),
            decreases len - i,
        {
            v.push(self.cards[i]);
            assert(v@ =~= self.cards@.subrange(start as int, i + 1));
            i = i + 1;
        }
        v
    }

    /// The maximal trailing run of face-up cards, bottom to top. Empty if
    /// the top card is face down; the whole pile if every card is face up.
    pub fn top_face_up_cards(&self) -> (v: Vec<Card>)
        ensures
            v@ == self@.subrange(self@.len() - face_up_run(self@), self@.len() as int),
            v@.len() == face_up_run(self@),
    {
        proof {
            lemma_face_up_run(self.cards@);
        }
        let len = self.cards.len();
        // Walk down from the top while cards remain face up; `start` ends at
        // the bottom of the trailing face-up run.
        let mut start = len;
        while start > 0 && self.cards[start - 1].is_face_up()
            invariant
                0 <= start <= len,
                len == self.cards.len(),
                forall|i: int| start <= i < len ==> self.cards@[i].facing == Facing::FaceUp,
            decreases start,
        {
            start = start - 1;
        }
        proof {
            lemma_run_from_suffix(self.cards@, start as int);
        }
        let mut v: Vec<Card> = Vec::new();
        let mut i = start;
        while i < len
            invariant
                start <= i <= len,
                len == self.cards.len(),
                v@ == self.cards@.subrange(start as int, i as int),
            decreases len - i,
        {
            v.push(self.cards[i]);
            assert(v@ =~= self.cards@.subrange(start as int, i + 1));
            i = i + 1;
        }
        v
    }

    pub fn is_empty(&self) -> (r: bool)
        ensures
            r == (self@.len() == 0),
    {
        self.cards.is_empty()
    }

    /// Whether every card in the pile is face down. True of the empty pile.
    pub fn is_face_down(&self) -> (r: bool)
        ensures
            r == (forall|i: int| 0 <= i < self@.len() ==> self@[i].facing == Facing::FaceDown),
    {
        let mut i: usize = 0;
        while i < self.cards.len()
            invariant
                0 <= i <= self.cards.len(),
                forall|j: int| 0 <= j < i ==> self.cards@[j].facing == Facing::FaceDown,
            decreases self.cards.len() - i,
        {
            if !self.cards[i].is_face_down() {
                return false;
            }
            i = i + 1;
        }
        true
    }

    /// Whether every card in the pile is face up. True of the empty pile.
    pub fn is_face_up(&self) -> (r: bool)
        ensures
            r == (forall|i: int| 0 <= i < self@.len() ==> self@[i].facing == Facing::FaceUp),
    {
        let mut i: usize = 0;
        while i < self.cards.len()
            invariant
                0 <= i <= self.cards.len(),
                forall|j: int| 0 <= j < i ==> self.cards@[j].facing == Facing::FaceUp,
            decreases self.cards.len() - i,
        {
            if !self.cards[i].is_face_up() {
                return false;
            }
            i = i + 1;
        }
        true
    }

    pub fn len(&self) -> (r: usize)
        ensures
            r == self@.len(),
    {
        self.cards.len()
    }

    /// Reverse the pile's order and every card's facing, as when recycling
    /// the waste back into the stock.
    pub fn flip(&mut self)
        ensures
            final(self)@ == flipped_seq(old(self)@),
    {
        let len = self.cards.len();
        let mut flipped: Vec<Card> = Vec::new();
        let mut i: usize = 0;
        while i < len
            invariant
                0 <= i <= len,
                len == self.cards.len(),
                flipped@.len() == i,
                forall|j: int|
                    0 <= j < i ==> flipped@[j] == self.cards@[len - 1 - j].spec_reversed(),
            decreases len - i,
        {
            flipped.push(self.cards[len - 1 - i].reversed());
            i = i + 1;
        }
        assert(flipped@ =~= flipped_seq(self.cards@));
        self.cards = flipped;
    }

    /// Flip the facing of the top card, if any.
    pub fn flip_top(&mut self)
        ensures
            old(self)@.len() == 0 ==> final(self)@ == old(self)@,
            old(self)@.len() > 0 ==> final(self)@ == old(self)@.update(
                old(self)@.len() - 1,
                old(self)@.last().spec_reversed(),
            ),
    {
        let len = self.cards.len();
        if len > 0 {
            let card = self.cards[len - 1].reversed();
            self.cards.set(len - 1, card);
        }
    }

    /// Set the facing of the top card, if any.
    pub fn flip_top_to(&mut self, facing: Facing)
        ensures
            old(self)@.len() == 0 ==> final(self)@ == old(self)@,
            old(self)@.len() > 0 ==> final(self)@ == old(self)@.update(
                old(self)@.len() - 1,
                Card { face: old(self)@.last().face, facing },
            ),
    {
        let len = self.cards.len();
        if len > 0 {
            let card = Card { face: self.cards[len - 1].face, facing };
            self.cards.set(len - 1, card);
        }
    }

    /// The pile with order and facings reversed.
    pub fn flipped(self) -> (p: Self)
        ensures
            p@ == flipped_seq(self@),
    {
        let mut pile = self;
        pile.flip();
        pile
    }

    /// Append another pile's cards on top of this one, consuming the other
    /// pile.
    pub fn place(&mut self, other: Self)
        ensures
            final(self)@ == old(self)@ + other@,
    {
        let mut other = other;
        self.cards.append(&mut other.cards);
    }

    /// Place one card on top.
    pub fn place_one(&mut self, card: Card)
        ensures
            final(self)@ == old(self)@.push(card),
    {
        self.cards.push(card);
    }

    /// Place the given cards on top, in order.
    pub fn place_cards(&mut self, cards: Vec<Card>)
        ensures
            final(self)@ == old(self)@ + cards@,
    {
        let mut cards = cards;
        self.cards.append(&mut cards);
    }

    /// Remove the top `count` cards as a new pile, keeping their order;
    /// removes the whole pile if it holds fewer than `count`.
    pub fn take(&mut self, count: usize) -> (p: Self)
        ensures
            final(self)@ == old(self)@.subrange(
                0,
                old(self)@.len() - take_count(old(self)@, count as int),
            ),
            p@ == old(self)@.subrange(
                old(self)@.len() - take_count(old(self)@, count as int),
                old(self)@.len() as int,
            ),
    {
        let len = self.cards.len();
        let start = if count <= len {
            len - count
        } else {
            0
        };
        let taken = self.cards.split_off(start);
        Self { cards: taken }
    }

    /// Remove the top card as a new pile; empty if the pile is empty.
    pub fn take_top(&mut self) -> (p: Self)
        ensures
            old(self)@.len() == 0 ==> final(self)@ == old(self)@ && p@ == Seq::<Card>::empty(),
            old(self)@.len() > 0 ==> final(self)@ == old(self)@.drop_last() && p@ == seq![
                old(self)@.last(),
            ],
    {
        let mut cards: Vec<Card> = Vec::new();
        if let Some(card) = self.cards.pop() {
            cards.push(card);
        }
        proof {
            if old(self)@.len() > 0 {
                assert(cards@ =~= seq![old(self)@.last()]);
            }
        }
        Self { cards }
    }

    /// Remove every card as a new pile, leaving this one empty.
    pub fn take_all(&mut self) -> (p: Self)
        ensures
            final(self)@ == Seq::<Card>::empty(),
            p@ == old(self)@,
    {
        let cards = self.cards.split_off(0);
        assert(cards@ =~= old(self)@);
        Self { cards }
    }
}

/// A suffix of face-up cards bounded below by a face-down card (or the
/// pile's bottom) is exactly the maximal trailing face-up run.
proof fn lemma_run_from_suffix(s: Seq<Card>, start: int)
    requires
        0 <= start <= s.len(),
        forall|i: int| start <= i < s.len() ==> s[i].facing == Facing::FaceUp,
        start > 0 ==> s[start - 1].facing != Facing::FaceUp,
    ensures
        face_up_run(s) == s.len() - start,
    decreases s.len(),
{
    if s.len() != 0 && s.last().facing == Facing::FaceUp {
        if start == s.len() {
            assert(s.last().facing == Facing::FaceUp);
        }
        lemma_run_from_suffix(s.drop_last(), if start < s.len() {
            start
        } else {
            s.len() - 1
        });
    }
}

} // verus!
