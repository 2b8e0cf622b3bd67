//! The Klondike table: a fixed address space of piles — one stock, one
//! waste, one foundation per suit, and a growable list of tableaux piles
//! addressed by index. Missing tableaux indices read as empty piles; the
//! first mutation at an index grows the list.

use vstd::multiset::Multiset;
use vstd::prelude::*;

use crate::action::Action;
use crate::card::Card;
use crate::card::CardFace;
use crate::card::Facing;
use crate::card::Suit;
use crate::pile::flipped_seq;
use crate::pile::take_count;
use crate::pile::Pile;

verus! {

/// The address of one pile on the table.
#[derive(Debug, Copy, Clone, Eq, PartialEq, Structural)]
pub enum KlondikePileId {
    Stock,
    Waste,
    Foundation(Suit),
    Tableaux(usize),
}

impl KlondikePileId {
    /// The pile addresses every table has regardless of width: the stock,
    /// the waste, and one foundation per suit.
    pub fn standard_iter() -> (v: Vec<KlondikePileId>)
        ensures
            v@ == seq![
                KlondikePileId::Stock,
                KlondikePileId::Waste,
                KlondikePileId::Foundation(Suit::Spades),
                KlondikePileId::Foundation(Suit::Hearts),
                KlondikePileId::Foundation(Suit::Diamonds),
                KlondikePileId::Foundation(Suit::Clubs),
            ],
    {
        let mut v: Vec<KlondikePileId> = Vec::new();
        v.push(KlondikePileId::Stock);
        v.push(KlondikePileId::Waste);
        v.push(KlondikePileId::Foundation(Suit::Spades));
        v.push(KlondikePileId::Foundation(Suit::Hearts));
        v.push(KlondikePileId::Foundation(Suit::Diamonds));
        v.push(KlondikePileId::Foundation(Suit::Clubs));
        assert(v@ =~= seq![
            KlondikePileId::Stock,
            KlondikePileId::Waste,
            KlondikePileId::Foundation(Suit::Spades),
            KlondikePileId::Foundation(Suit::Hearts),
            KlondikePileId::Foundation(Suit::Diamonds),
            KlondikePileId::Foundation(Suit::Clubs),
        ]);
        v
    }

    /// Every pile address of a table with the given width: the standard
    /// piles followed by the tableaux piles in increasing index order.
    pub fn full_iter(tableaux_width: usize) -> (v: Vec<KlondikePileId>)
        ensures
            v@.len() == 6 + tableaux_width,
            v@.subrange(0, 6) == Self::standard_ids(),
            forall|i: int|
                0 <= i < tableaux_width ==> #[trigger] v@[6 + i] == KlondikePileId::Tableaux(
                    i as usize,
                ),
    {
        let mut v = Self::standard_iter();
        proof {
            assert(v@.subrange(0, 6) =~= Self::standard_ids());
        }
        let mut index: usize = 0;
        while index < tableaux_width
            invariant
                v@.len() == 6 + index,
                index <= tableaux_width,
                v@.subrange(0, 6) == Self::standard_ids(),
                forall|i: int|
                    0 <= i < index ==> #[trigger] v@[6 + i] == KlondikePileId::Tableaux(i as usize),
            decreases tableaux_width - index,
        {
            let ghost pre = v@;
            v.push(KlondikePileId::Tableaux(index));
            proof {
                assert(v@.subrange(0, 6) =~= pre.subrange(0, 6));
            }
            index = index + 1;
        }
        v
    }

    /// The standard pile addresses, as `standard_iter` lists them.
    pub open spec fn standard_ids() -> Seq<KlondikePileId> {
        seq![
            KlondikePileId::Stock,
            KlondikePileId::Waste,
            KlondikePileId::Foundation(Suit::Spades),
            KlondikePileId::Foundation(Suit::Hearts),
            KlondikePileId::Foundation(Suit::Diamonds),
            KlondikePileId::Foundation(Suit::Clubs),
        ]
    }
}

/// The mathematical state of a table: every pile as a card sequence,
/// bottom to top.
#[verifier::ext_equal]
pub ghost struct TableView {
    pub stock: Seq<Card>,
    pub waste: Seq<Card>,
    pub spades: Seq<Card>,
    pub hearts: Seq<Card>,
    pub diamonds: Seq<Card>,
    pub clubs: Seq<Card>,
    pub tableaux: Seq<Seq<Card>>,
}

/// `t` extended with empty piles until it holds at least `n` entries.
pub open spec fn grown(t: Seq<Seq<Card>>, n: int) -> Seq<Seq<Card>> {
    if t.len() >= n {
        t
    } else {
        t + Seq::new((n - t.len()) as nat, |j: int| Seq::<Card>::empty())
    }
}

/// The total number of cards in a list of tableaux piles.
pub open spec fn tableaux_count(t: Seq<Seq<Card>>) -> int
    decreases t.len(),
{
    if t.len() == 0 {
        0
    } else {
        tableaux_count(t.drop_last()) + t.last().len()
    }
}

impl TableView {
    /// The foundation pile of a suit.
    pub open spec fn foundation(self, suit: Suit) -> Seq<Card> {
        match suit {
            Suit::Spades => self.spades,
            Suit::Hearts => self.hearts,
            Suit::Diamonds => self.diamonds,
            Suit::Clubs => self.clubs,
        }
    }

    /// The pile at an address. A tableaux index beyond the list reads as an
    /// empty pile.
    pub open spec fn pile(self, id: KlondikePileId) -> Seq<Card> {
        match id {
            KlondikePileId::Stock => self.stock,
            KlondikePileId::Waste => self.waste,
            KlondikePileId::Foundation(suit) => self.foundation(suit),
            KlondikePileId::Tableaux(index) => if index < self.tableaux.len() {
                self.tableaux[index as int]
            } else {
                Seq::empty()
            },
        }
    }

    /// The table with the pile at `id` replaced by `cards`. Writing to a
    /// tableaux index beyond the list first grows the list with empty piles.
    pub open spec fn with_pile(self, id: KlondikePileId, cards: Seq<Card>) -> TableView {
        match id {
            KlondikePileId::Stock => TableView { stock: cards, ..self },
            KlondikePileId::Waste => TableView { waste: cards, ..self },
            KlondikePileId::Foundation(suit) => match suit {
                Suit::Spades => TableView { spades: cards, ..self },
                Suit::Hearts => TableView { hearts: cards, ..self },
                Suit::Diamonds => TableView { diamonds: cards, ..self },
                Suit::Clubs => TableView { clubs: cards, ..self },
            },
            KlondikePileId::Tableaux(index) => TableView {
                tableaux: grown(self.tableaux, index + 1).update(index as int, cards),
                ..self
            },
        }
    }

    /// The total number of cards on the table, over all piles.
    pub open spec fn card_count(self) -> int {
        self.stock.len() + self.waste.len() + self.spades.len() + self.hearts.len()
            + self.diamonds.len() + self.clubs.len() + tableaux_count(self.tableaux)
    }
}

/// Replacing one pile changes the table's card count by the difference of
/// the old and new pile lengths.
pub proof fn lemma_with_pile_count(v: TableView, id: KlondikePileId, cards: Seq<Card>)
    ensures
        v.with_pile(id, cards).card_count() == v.card_count() - v.pile(id).len() + cards.len(),
{
    match id {
        KlondikePileId::Tableaux(index) => {
            let g = grown(v.tableaux, index + 1);
            lemma_grown_count(v.tableaux, index + 1);
            lemma_tableaux_count_update(g, index as int, cards);
            if index < v.tableaux.len() {
            } else {
                assert(g[index as int] =~= Seq::<Card>::empty());
            }
        },
        _ => {},
    }
}

/// Growing the tableaux list with empty piles does not change its card
/// count.
proof fn lemma_grown_count(t: Seq<Seq<Card>>, n: int)
    ensures
        tableaux_count(grown(t, n)) == tableaux_count(t),
        grown(t, n).len() >= n,
        grown(t, n).len() >= t.len(),
        forall|j: int| 0 <= j < t.len() ==> grown(t, n)[j] == t[j],
        forall|j: int| t.len() <= j < grown(t, n).len() ==> grown(t, n)[j] =~= Seq::<Card>::empty(),
    decreases (if n > t.len() {
        n - t.len()
    } else {
        0
    }),
{
    if t.len() < n {
        let g = grown(t, n);
        let g1 = grown(t, n - 1);
        assert(g =~= g1 + seq![Seq::<Card>::empty()]);
        lemma_grown_count(t, n - 1);
        assert(g.drop_last() =~= g1);
    }
}

/// Updating one entry of a tableaux list changes its card count by the
/// difference of the old and new entry lengths.
proof fn lemma_tableaux_count_update(t: Seq<Seq<Card>>, i: int, cards: Seq<Card>)
    requires
        0 <= i < t.len(),
    ensures
        tableaux_count(t.update(i, cards)) == tableaux_count(t) - t[i].len() + cards.len(),
    decreases t.len(),
{
    let u = t.update(i, cards);
    if i == t.len() - 1 {
        assert(u.drop_last() =~= t.drop_last());
    } else {
        assert(u.drop_last() =~= t.drop_last().update(i, cards));
        lemma_tableaux_count_update(t.drop_last(), i, cards);
    }
}

/// The Klondike table.
#[derive(Debug)]
pub struct KlondikeTable {
    stock: Pile,
    waste: Pile,
    spades_foundation: Pile,
    hearts_foundation: Pile,
    diamonds_foundation: Pile,
    clubs_foundation: Pile,
    tableaux: Vec<Pile>,
}

impl View for KlondikeTable {
    type V = TableView;

    closed spec fn view(&self) -> TableView {
        TableView {
            stock: self.stock@,
            waste: self.waste@,
            spades: self.spades_foundation@,
            hearts: self.hearts_foundation@,
            diamonds: self.diamonds_foundation@,
            clubs: self.clubs_foundation@,
            tableaux: self.tableaux@.map_values(|p: Pile| p@),
        }
    }
}

impl Clone for KlondikeTable {
    fn clone(&self) -> (r: Self)
        ensures
            r@ == self@,
    {
        let mut tableaux: Vec<Pile> = Vec::new();
        let mut i: usize = 0;
        while i < self.tableaux.len()
            invariant
                0 <= i <= self.tableaux.len(),
                tableaux@.len() == i,
                forall|j: int| 0 <= j < i ==> tableaux@[j]@ == self.tableaux@[j]@,
            decreases self.tableaux.len() - i,
        {
            tableaux.push(self.tableaux[i].clone());
            i = i + 1;
        }
        let r = KlondikeTable {
            stock: self.stock.clone(),
            waste: self.waste.clone(),
            spades_foundation: self.spades_foundation.clone(),
            hearts_foundation: self.hearts_foundation.clone(),
            diamonds_foundation: self.diamonds_foundation.clone(),
            clubs_foundation: self.clubs_foundation.clone(),
            tableaux,
        };
        assert(r@.tableaux =~= self@.tableaux);
        assert(r@ =~= self@);
        r
    }
}

impl KlondikeTable {
    /// A table whose stock holds the given cards and whose other piles are
    /// empty. The cards must all be face down: a fresh table holds the
    /// whole deal face down in its stock.
    pub fn new_with_cards(cards: Vec<Card>) -> (t: Self)
        requires
            forall|i: int|
                0 <= i < cards@.len() ==> (#[trigger] cards@[i]).facing == Facing::FaceDown,
        ensures
            t@.stock == cards@,
            t@.waste == Seq::<Card>::empty(),
            t@.spades == Seq::<Card>::empty(),
            t@.hearts == Seq::<Card>::empty(),
            t@.diamonds == Seq::<Card>::empty(),
            t@.clubs == Seq::<Card>::empty(),
            t@.tableaux == Seq::<Seq<Card>>::empty(),
    {
        let t = Self {
            stock: Pile::new_with_cards(cards),
            waste: Pile::new(),
            spades_foundation: Pile::new(),
            hearts_foundation: Pile::new(),
            diamonds_foundation: Pile::new(),
            clubs_foundation: Pile::new(),
            tableaux: Vec::new(),
        };
        assert(t@.tableaux =~= Seq::<Seq<Card>>::empty());
        t
    }

    /// A copy of the pile at an address; an empty pile for a tableaux index
    /// beyond the list.
    pub fn pile(&self, pile_id: KlondikePileId) -> (p: Pile)
        ensures
            p@ == self@.pile(pile_id),
    {
        match pile_id {
            KlondikePileId::Stock => self.stock.clone(),
            KlondikePileId::Waste => self.waste.clone(),
            KlondikePileId::Foundation(suit) => match suit {
                Suit::Spades => self.spades_foundation.clone(),
                Suit::Hearts => self.hearts_foundation.clone(),
                Suit::Diamonds => self.diamonds_foundation.clone(),
                Suit::Clubs => self.clubs_foundation.clone(),
            },
            KlondikePileId::Tableaux(index) => {
                if index < self.tableaux.len() {
                    self.tableaux[index].clone()
                } else {
                    Pile::new()
                }
            },
        }
    }

    /// The number of cards in the pile at an address.
    pub fn pile_len(&self, pile_id: KlondikePileId) -> (n: usize)
        ensures
            n == self@.pile(pile_id).len(),
    {
        match pile_id {
            KlondikePileId::Stock => self.stock.len(),
            KlondikePileId::Waste => self.waste.len(),
            KlondikePileId::Foundation(suit) => match suit {
                Suit::Spades => self.spades_foundation.len(),
                Suit::Hearts => self.hearts_foundation.len(),
                Suit::Diamonds => self.diamonds_foundation.len(),
                Suit::Clubs => self.clubs_foundation.len(),
            },
            KlondikePileId::Tableaux(index) => {
                if index < self.tableaux.len() {
                    self.tableaux[index].len()
                } else {
                    0
                }
            },
        }
    }

    /// The top card of the pile at an address, if any.
    pub fn top_card_at(&self, pile_id: KlondikePileId) -> (r: Option<Card>)
        ensures
            r == if self@.pile(pile_id).len() == 0 {
                None::<Card>
            } else {
                Some(self@.pile(pile_id).last())
            },
    {
        match pile_id {
            KlondikePileId::Stock => self.stock.top_card(),
            KlondikePileId::Waste => self.waste.top_card(),
            KlondikePileId::Foundation(suit) => match suit {
                Suit::Spades => self.spades_foundation.top_card(),
                Suit::Hearts => self.hearts_foundation.top_card(),
                Suit::Diamonds => self.diamonds_foundation.top_card(),
                Suit::Clubs => self.clubs_foundation.top_card(),
            },
            KlondikePileId::Tableaux(index) => {
                if index < self.tableaux.len() {
                    self.tableaux[index].top_card()
                } else {
                    None
                }
            },
        }
    }

    /// A mutable borrow of the pile at an address, growing the tableaux
    /// list with empty piles when the index lies beyond it.
    pub fn pile_mut(&mut self, pile_id: KlondikePileId) -> (p: &mut Pile)
        ensures
            p@ == old(self)@.pile(pile_id),
            final(self)@ == old(self)@.with_pile(pile_id, final(p)@),
    {
        match pile_id {
            KlondikePileId::Stock => &mut self.stock,
            KlondikePileId::Waste => &mut self.waste,
            KlondikePileId::Foundation(suit) => match suit {
                Suit::Spades => &mut self.spades_foundation,
                Suit::Hearts => &mut self.hearts_foundation,
                Suit::Diamonds => &mut self.diamonds_foundation,
                Suit::Clubs => &mut self.clubs_foundation,
            },
            KlondikePileId::Tableaux(index) => {
                let ghost orig = self@;
                while self.tableaux.len() <= index
                    invariant
                        self@.stock == orig.stock,
                        self@.waste == orig.waste,
                        self@.spades == orig.spades,
                        self@.hearts == orig.hearts,
                        self@.diamonds == orig.diamonds,
                        self@.clubs == orig.clubs,
                        self@.tableaux.len() >= orig.tableaux.len(),
                        orig.tableaux.len() <= index ==> self@.tableaux.len() <= index + 1,
                        orig.tableaux.len() > index ==> self@.tableaux.len() == orig.tableaux.len(),
                        self@.tableaux == grown(orig.tableaux, self@.tableaux.len() as int),
                    decreases index + 1 - self.tableaux.len(),
                {
                    let ghost pre = self@.tableaux;
                    self.tableaux.push(Pile::new());
                    proof {
                        assert(self@.tableaux =~= pre + seq![Seq::<Card>::empty()]);
                        assert(self@.tableaux =~= grown(orig.tableaux, self@.tableaux.len() as int));
                    }
                }
                proof {
                    assert(self@.tableaux =~= grown(orig.tableaux, index + 1));
                    lemma_grown_count(orig.tableaux, index + 1);
                    assert(self@.tableaux[index as int] == self.tableaux@[index as int]@);
                    assert(self.tableaux@[index as int]@ == orig.pile(
                        KlondikePileId::Tableaux(index),
                    ));
                }
                vstd::std_specs::vec::vec_index_mut(&mut self.tableaux, index)
            },
        }
    }
}

/// An action on the table: deal one card from the stock, draw from the
/// stock into the waste (or recycle the waste), move cards from pile to
/// pile, or reveal a pile's top card.
#[derive(Debug, Copy, Clone, Eq, PartialEq, Structural)]
pub enum KlondikeTableAction {
    /// Move the top card of the stock onto the given pile, face unchanged.
    Deal(KlondikePileId),
    /// When the stock is empty, recycle the whole waste back into the
    /// stock, reversed and flipped; otherwise move the given number of
    /// cards (saturated at the stock's size) from the stock to the waste,
    /// reversed and flipped.
    Draw(usize),
    /// Move the top run of the given size from the first pile onto the
    /// second.
    Move(KlondikePileId, KlondikePileId, usize),
    /// Turn the top card of the given pile face up.
    Reveal(KlondikePileId),
}

/// Why a table action could not be mechanically applied.
#[derive(Debug, Copy, Clone, Eq, PartialEq, Structural)]
pub enum KlondikeActionError {
    /// A deal was attempted from an empty stock.
    EmptyStock,
    /// A move was attempted of more cards than its source pile holds.
    InsufficientCards,
}

impl Action<KlondikeTable> for KlondikeTableAction {
    type Error = KlondikeActionError;

    /// A deal needs a card in the stock and a move needs its full run in
    /// the source pile; draws and reveals always complete.
    open spec fn succeeds(self, v: TableView) -> bool {
        match self {
            KlondikeTableAction::Deal(_) => v.stock.len() > 0,
            KlondikeTableAction::Draw(_) => true,
            KlondikeTableAction::Move(source, _, count) => v.pile(source).len() >= count,
            KlondikeTableAction::Reveal(_) => true,
        }
    }

    open spec fn applied(self, v: TableView) -> TableView {
        match self {
            KlondikeTableAction::Deal(target) => {
                let card = v.stock.last();
                let v1 = v.with_pile(KlondikePileId::Stock, v.stock.drop_last());
                v1.with_pile(target, v1.pile(target).push(card))
            },
            KlondikeTableAction::Draw(count) => if v.stock.len() == 0 {
                let v1 = v.with_pile(KlondikePileId::Waste, Seq::empty());
                v1.with_pile(KlondikePileId::Stock, v1.stock + flipped_seq(v.waste))
            } else {
                let k = take_count(v.stock, count as int);
                let taken = v.stock.subrange(v.stock.len() - k, v.stock.len() as int);
                let v1 = v.with_pile(
                    KlondikePileId::Stock,
                    v.stock.subrange(0, v.stock.len() - k),
                );
                v1.with_pile(KlondikePileId::Waste, v1.waste + flipped_seq(taken))
            },
            KlondikeTableAction::Move(source, target, count) => {
                let s = v.pile(source);
                let k = take_count(s, count as int);
                let moved = s.subrange(s.len() - k, s.len() as int);
                let v1 = v.with_pile(source, s.subrange(0, s.len() - k));
                v1.with_pile(target, v1.pile(target) + moved)
            },
            KlondikeTableAction::Reveal(target) => {
                let p = v.pile(target);
                let turned = if p.len() == 0 {
                    p
                } else {
                    p.update(p.len() - 1, Card { face: p.last().face, facing: Facing::FaceUp })
                };
                v.with_pile(target, turned)
            },
        }
    }

    open spec fn failure(self, v: TableView) -> KlondikeActionError {
        match self {
            KlondikeTableAction::Deal(_) => KlondikeActionError::EmptyStock,
            KlondikeTableAction::Move(_, _, _) => KlondikeActionError::InsufficientCards,
            _ => arbitrary(),
        }
    }

    fn apply_to(self, table: &mut KlondikeTable) -> (r: Result<(), KlondikeActionError>) {
        match self {
            KlondikeTableAction::Deal(target_pile_id) => {
                if table.pile_len(KlondikePileId::Stock) == 0 {
                    return Err(KlondikeActionError::EmptyStock);
                }
                let card = table.pile_mut(KlondikePileId::Stock).take_top();
                let ghost v1 = table@;
                table.pile_mut(target_pile_id).place(card);
                proof {
                    assert(table@ =~~= self.applied(old(table)@));
                }
                Ok(())
            },
            KlondikeTableAction::Draw(count) => {
                if table.pile_len(KlondikePileId::Stock) == 0 {
                    let replacement_cards = table.pile_mut(KlondikePileId::Waste).take_all();
                    let replacement_cards = replacement_cards.flipped();
                    table.pile_mut(KlondikePileId::Stock).place(replacement_cards);
                    proof {
                        assert(table@ =~~= self.applied(old(table)@));
                    }
                } else {
                    let drawn_cards = table.pile_mut(KlondikePileId::Stock).take(count);
                    let drawn_cards = drawn_cards.flipped();
                    table.pile_mut(KlondikePileId::Waste).place(drawn_cards);
                    proof {
                        assert(table@ =~~= self.applied(old(table)@));
                    }
                }
                Ok(())
            },
            KlondikeTableAction::Move(source_pile_id, target_pile_id, count) => {
                if table.pile_len(source_pile_id) < count {
                    return Err(KlondikeActionError::InsufficientCards);
                }
                let moved_cards = table.pile_mut(source_pile_id).take(count);
                table.pile_mut(target_pile_id).place(moved_cards);
                proof {
                    assert(table@ =~~= self.applied(old(table)@));
                }
                Ok(())
            },
            KlondikeTableAction::Reveal(target_pile_id) => {
                table.pile_mut(target_pile_id).flip_top_to(Facing::FaceUp);
                proof {
                    assert(table@ =~~= self.applied(old(table)@));
                }
                Ok(())
            },
        }
    }
}

/// The multiset of card face identities in a sequence, facing ignored.
pub open spec fn faces_of(s: Seq<Card>) -> Multiset<CardFace> {
    s.map_values(|c: Card| c.face).to_multiset()
}

/// The face identities in a list of tableaux piles.
pub open spec fn tableaux_faces(t: Seq<Seq<Card>>) -> Multiset<CardFace>
    decreases t.len(),
{
    if t.len() == 0 {
        Multiset::empty()
    } else {
        tableaux_faces(t.drop_last()).add(faces_of(t.last()))
    }
}

impl TableView {
    /// Every face identity on the table, over all piles.
    pub open spec fn faces(self) -> Multiset<CardFace> {
        faces_of(self.stock).add(faces_of(self.waste)).add(faces_of(self.spades)).add(
            faces_of(self.hearts),
        ).add(faces_of(self.diamonds)).add(faces_of(self.clubs)).add(tableaux_faces(self.tableaux))
    }
}

/// Concatenating sequences adds their face multisets.
proof fn lemma_faces_concat(a: Seq<Card>, b: Seq<Card>)
    ensures
        faces_of(a + b) == faces_of(a).add(faces_of(b)),
{
    broadcast use vstd::multiset::group_multiset_axioms;
    broadcast use vstd::multiset::group_multiset_properties;

    let f = |c: Card| c.face;
    assert((a + b).map_values(f) =~= a.map_values(f) + b.map_values(f));
    vstd::seq_lib::lemma_multiset_commutative(a.map_values(f), b.map_values(f));
}

/// Pushing a card inserts its face.
proof fn lemma_faces_push(s: Seq<Card>, c: Card)
    ensures
        faces_of(s.push(c)) == faces_of(s).insert(c.face),
{
    broadcast use vstd::seq_lib::group_to_multiset_ensures;

    let f = |card: Card| card.face;
    assert(s.push(c).map_values(f) =~= s.map_values(f).push(c.face));
}

/// Dropping the last card removes its face.
proof fn lemma_faces_drop_last(s: Seq<Card>)
    requires
        s.len() > 0,
    ensures
        faces_of(s) == faces_of(s.drop_last()).insert(s.last().face),
{
    broadcast use vstd::multiset::group_multiset_axioms;
    broadcast use vstd::multiset::group_multiset_properties;

    assert(s =~= s.drop_last().push(s.last()));
    lemma_faces_push(s.drop_last(), s.last());
}

/// Splitting a sequence splits its faces.
proof fn lemma_faces_split(s: Seq<Card>, k: int)
    requires
        0 <= k <= s.len(),
    ensures
        faces_of(s) == faces_of(s.subrange(0, k)).add(faces_of(s.subrange(k, s.len() as int))),
{
    assert(s =~= s.subrange(0, k) + s.subrange(k, s.len() as int));
    lemma_faces_concat(s.subrange(0, k), s.subrange(k, s.len() as int));
}

/// Reversing and flipping cards keeps their faces.
proof fn lemma_faces_flipped(s: Seq<Card>)
    ensures
        faces_of(flipped_seq(s)) == faces_of(s),
{
    let f = |c: Card| c.face;
    assert(flipped_seq(s).map_values(f) =~= s.map_values(f).reverse());
    s.map_values(f).lemma_reverse_to_multiset();
}

/// Changing only a card's facing keeps the pile's faces.
proof fn lemma_faces_refaced(s: Seq<Card>, i: int, c: Card)
    requires
        0 <= i < s.len(),
        c.face == s[i].face,
    ensures
        faces_of(s.update(i, c)) == faces_of(s),
{
    let f = |card: Card| card.face;
    assert(s.update(i, c).map_values(f) =~= s.map_values(f));
}

/// Growing the tableaux list with empty piles adds no faces.
proof fn lemma_grown_faces(t: Seq<Seq<Card>>, n: int)
    ensures
        tableaux_faces(grown(t, n)) == tableaux_faces(t),
    decreases (if n > t.len() {
        n - t.len()
    } else {
        0
    }),
{
    broadcast use vstd::multiset::group_multiset_axioms;
    broadcast use vstd::multiset::group_multiset_properties;
    broadcast use vstd::seq_lib::group_to_multiset_ensures;

    if t.len() < n {
        let g = grown(t, n);
        let g1 = grown(t, n - 1);
        assert(g =~= g1 + seq![Seq::<Card>::empty()]);
        lemma_grown_faces(t, n - 1);
        assert(g.drop_last() =~= g1);
        assert(g.last() =~= Seq::<Card>::empty());
        assert(faces_of(Seq::<Card>::empty()) =~= Multiset::<CardFace>::empty()) by {
            assert(Seq::<Card>::empty().map_values(|c: Card| c.face) =~= Seq::<CardFace>::empty());
        }
        assert(tableaux_faces(g) =~= tableaux_faces(t));
    }
}

/// Updating one tableaux entry exchanges its faces for the new entry's.
proof fn lemma_tableaux_faces_update(t: Seq<Seq<Card>>, i: int, cards: Seq<Card>)
    requires
        0 <= i < t.len(),
    ensures
        tableaux_faces(t.update(i, cards)).add(faces_of(t[i])) == tableaux_faces(t).add(
            faces_of(cards),
        ),
    decreases t.len(),
{
    broadcast use vstd::multiset::group_multiset_axioms;
    broadcast use vstd::multiset::group_multiset_properties;
    broadcast use vstd::seq_lib::group_to_multiset_ensures;

    let u = t.update(i, cards);
    let base = tableaux_faces(t.drop_last());
    assert(tableaux_faces(u) == tableaux_faces(u.drop_last()).add(faces_of(u.last())));
    assert(tableaux_faces(t) == base.add(faces_of(t.last())));
    if i == t.len() - 1 {
        assert(u.drop_last() =~= t.drop_last());
        assert(tableaux_faces(u) == base.add(faces_of(cards)));
        lemma_add_swap(base, faces_of(cards), faces_of(t[i]));
    } else {
        assert(u.drop_last() =~= t.drop_last().update(i, cards));
        let ub = tableaux_faces(t.drop_last().update(i, cards));
        lemma_tableaux_faces_update(t.drop_last(), i, cards);
        assert(ub.add(faces_of(t[i])) == base.add(faces_of(cards)));
        // Rearrange so the induction hypothesis applies under the shared
        // last entry.
        lemma_add_swap(ub, faces_of(t.last()), faces_of(t[i]));
        assert(tableaux_faces(u).add(faces_of(t[i])) == ub.add(faces_of(t[i])).add(
            faces_of(t.last()),
        ));
        lemma_add_swap(base, faces_of(cards), faces_of(t.last()));
        assert(tableaux_faces(t).add(faces_of(cards)) == base.add(faces_of(cards)).add(
            faces_of(t.last()),
        ));
    }
}

/// Replacing one pile exchanges its faces for the new cards' faces.
proof fn lemma_with_pile_faces(v: TableView, id: KlondikePileId, cards: Seq<Card>)
    ensures
        v.with_pile(id, cards).faces().add(faces_of(v.pile(id))) == v.faces().add(faces_of(cards)),
{
    broadcast use vstd::multiset::group_multiset_axioms;
    broadcast use vstd::multiset::group_multiset_properties;
    broadcast use vstd::seq_lib::group_to_multiset_ensures;

    match id {
        KlondikePileId::Tableaux(index) => {
            let g = grown(v.tableaux, index + 1);
            lemma_grown_count(v.tableaux, index + 1);
            lemma_grown_faces(v.tableaux, index + 1);
            lemma_tableaux_faces_update(g, index as int, cards);
            if index < v.tableaux.len() {
                assert(g[index as int] == v.tableaux[index as int]);
            } else {
                assert(g[index as int] =~= Seq::<Card>::empty());
            }
            let gu = g.update(index as int, cards);
            let p_faces = faces_of(v.pile(id));
            assert(faces_of(g[index as int]) == p_faces);
            assert(tableaux_faces(gu).add(p_faces) == tableaux_faces(v.tableaux).add(
                faces_of(cards),
            ));
            let pfx = faces_of(v.stock).add(faces_of(v.waste)).add(faces_of(v.spades)).add(
                faces_of(v.hearts),
            ).add(faces_of(v.diamonds)).add(faces_of(v.clubs));
            lemma_add_assoc(pfx, tableaux_faces(gu), p_faces);
            lemma_add_assoc(pfx, tableaux_faces(v.tableaux), faces_of(cards));
            assert(v.with_pile(id, cards).faces() == pfx.add(tableaux_faces(gu)));
            assert(v.faces() == pfx.add(tableaux_faces(v.tableaux)));
        },
        _ => {
            assert(v.with_pile(id, cards).faces().add(faces_of(v.pile(id))) =~= v.faces().add(
                faces_of(cards),
            ));
        },
    }
}

/// Conservation of card identities: a table action that completes neither
/// creates nor destroys cards — it only moves or flips them — so the
/// multiset of face identities over all piles is unchanged.
pub proof fn lemma_apply_conserves_faces(action: KlondikeTableAction, v: TableView)
    requires
        action.succeeds(v),
    ensures
        action.applied(v).faces() == v.faces(),
{
    broadcast use vstd::multiset::group_multiset_axioms;
    broadcast use vstd::multiset::group_multiset_properties;
    broadcast use vstd::seq_lib::group_to_multiset_ensures;

    match action {
        KlondikeTableAction::Deal(target) => {
            let card = v.stock.last();
            let v1 = v.with_pile(KlondikePileId::Stock, v.stock.drop_last());
            lemma_with_pile_faces(v, KlondikePileId::Stock, v.stock.drop_last());
            lemma_faces_drop_last(v.stock);
            lemma_add_insert_cancel(v1.faces(), v.faces(), faces_of(v.stock.drop_last()), card.face);
            let p1 = v1.pile(target);
            lemma_with_pile_faces(v1, target, p1.push(card));
            lemma_faces_push(p1, card);
            lemma_add_insert_cancel(
                v1.faces(),
                action.applied(v).faces(),
                faces_of(p1),
                card.face,
            );
            assert(action.applied(v).faces() =~= v.faces());
        },
        KlondikeTableAction::Draw(count) => if v.stock.len() == 0 {
            let v1 = v.with_pile(KlondikePileId::Waste, Seq::empty());
            lemma_with_pile_faces(v, KlondikePileId::Waste, Seq::empty());
            lemma_with_pile_faces(v1, KlondikePileId::Stock, v1.stock + flipped_seq(v.waste));
            lemma_faces_concat(v1.stock, flipped_seq(v.waste));
            lemma_faces_flipped(v.waste);
            assert(faces_of(Seq::<Card>::empty()) =~= Multiset::<CardFace>::empty()) by {
                assert(Seq::<Card>::empty().map_values(|c: Card| c.face)
                    =~= Seq::<CardFace>::empty());
            }
            assert(action.applied(v).faces() =~= v.faces());
        } else {
            let k = take_count(v.stock, count as int);
            let taken = v.stock.subrange(v.stock.len() - k, v.stock.len() as int);
            let kept = v.stock.subrange(0, v.stock.len() - k);
            let v1 = v.with_pile(KlondikePileId::Stock, kept);
            lemma_with_pile_faces(v, KlondikePileId::Stock, kept);
            lemma_faces_split(v.stock, v.stock.len() - k);
            lemma_with_pile_faces(v1, KlondikePileId::Waste, v1.waste + flipped_seq(taken));
            lemma_faces_concat(v1.waste, flipped_seq(taken));
            lemma_faces_flipped(taken);
            assert(action.applied(v).faces() =~= v.faces());
        },
        KlondikeTableAction::Move(source, target, count) => {
            let s = v.pile(source);
            let k = take_count(s, count as int);
            let moved = s.subrange(s.len() - k, s.len() as int);
            let kept = s.subrange(0, s.len() - k);
            let v1 = v.with_pile(source, kept);
            lemma_with_pile_faces(v, source, kept);
            lemma_faces_split(s, s.len() - k);
            lemma_with_pile_faces(v1, target, v1.pile(target) + moved);
            lemma_faces_concat(v1.pile(target), moved);
            let ft = faces_of(v1.pile(target));
            let applied_faces = action.applied(v).faces();
            assert forall|e: CardFace| applied_faces.count(e) == v.faces().count(e) by {
                assert(v1.faces().add(faces_of(s)).count(e) == v1.faces().count(e) + faces_of(
                    s,
                ).count(e));
                assert(v.faces().add(faces_of(kept)).count(e) == v.faces().count(e) + faces_of(
                    kept,
                ).count(e));
                assert(faces_of(kept).add(faces_of(moved)).count(e) == faces_of(kept).count(e)
                    + faces_of(moved).count(e));
                assert(applied_faces.add(ft).count(e) == applied_faces.count(e) + ft.count(e));
                assert(v1.faces().add(ft.add(faces_of(moved))).count(e) == v1.faces().count(e)
                    + ft.add(faces_of(moved)).count(e));
                assert(ft.add(faces_of(moved)).count(e) == ft.count(e) + faces_of(moved).count(e));
            }
            assert(applied_faces =~= v.faces());
        },
        KlondikeTableAction::Reveal(target) => {
            let p = v.pile(target);
            let turned = if p.len() == 0 {
                p
            } else {
                p.update(p.len() - 1, Card { face: p.last().face, facing: Facing::FaceUp })
            };
            lemma_with_pile_faces(v, target, turned);
            if p.len() > 0 {
                lemma_faces_refaced(
                    p,
                    p.len() - 1,
                    Card { face: p.last().face, facing: Facing::FaceUp },
                );
            }
            assert(faces_of(turned) == faces_of(p));
            lemma_add_cancel(action.applied(v).faces(), v.faces(), faces_of(p));
        },
    }
}

/// From `x.add(m) == y.add(m.insert(f))` conclude `x == y.insert(f)`: the
/// shared part of two multiset sums cancels.
proof fn lemma_add_insert_cancel(
    x: Multiset<CardFace>,
    y: Multiset<CardFace>,
    m: Multiset<CardFace>,
    f: CardFace,
)
    requires
        y.add(m) == x.add(m.insert(f)),
    ensures
        y == x.insert(f),
{
    broadcast use vstd::multiset::group_multiset_axioms;
    broadcast use vstd::multiset::group_multiset_properties;

    assert forall|e: CardFace| y.count(e) == x.insert(f).count(e) by {
        assert(y.add(m).count(e) == y.count(e) + m.count(e));
        assert(x.add(m.insert(f)).count(e) == x.count(e) + m.insert(f).count(e));
        assert(m.insert(f).count(e) == m.count(e) + Multiset::singleton(f).count(e));
        assert(x.insert(f).count(e) == x.count(e) + Multiset::singleton(f).count(e));
        assert(y.add(m).count(e) == x.add(m.insert(f)).count(e));
    }
    assert(y =~= x.insert(f));
}

/// Shared summands of equal multiset sums cancel.
proof fn lemma_add_cancel(x: Multiset<CardFace>, y: Multiset<CardFace>, m: Multiset<CardFace>)
    requires
        x.add(m) == y.add(m),
    ensures
        x == y,
{
    broadcast use vstd::multiset::group_multiset_axioms;
    broadcast use vstd::multiset::group_multiset_properties;

    assert forall|e: CardFace| x.count(e) == y.count(e) by {
        assert(x.add(m).count(e) == x.count(e) + m.count(e));
        assert(y.add(m).count(e) == y.count(e) + m.count(e));
        assert(x.add(m).count(e) == y.add(m).count(e));
    }
    assert(x =~= y);
}

/// Reinserting a removed element restores the multiset.
proof fn lemma_remove_insert(m: Multiset<CardFace>, x: CardFace)
    requires
        m.count(x) > 0,
    ensures
        m.remove(x).insert(x) == m,
{
    broadcast use vstd::multiset::group_multiset_axioms;

    assert forall|e: CardFace| m.remove(x).insert(x).count(e) == m.count(e) by {
        assert(m.remove(x).insert(x).count(e) == m.remove(x).count(e) + Multiset::singleton(
            x,
        ).count(e));
        assert(m.remove(x).count(e) == m.sub(Multiset::singleton(x)).count(e));
    }
    assert(m.remove(x).insert(x) =~= m);
}

/// Removing the card at one position removes its face.
proof fn lemma_faces_remove(t: Seq<Card>, j: int)
    requires
        0 <= j < t.len(),
    ensures
        faces_of(t.remove(j)) == faces_of(t).remove(t[j].face),
{
    broadcast use vstd::seq_lib::group_to_multiset_ensures;

    let f = |c: Card| c.face;
    assert(t.remove(j).map_values(f) =~= t.map_values(f).remove(j));
    assert(t.map_values(f).remove(j).to_multiset() =~= t.map_values(f).to_multiset().remove(
        t.map_values(f)[j],
    ));
}

/// An empty pile holds no faces.
pub proof fn lemma_faces_empty()
    ensures
        faces_of(Seq::<Card>::empty()) == Multiset::<CardFace>::empty(),
{
    broadcast use vstd::multiset::group_multiset_axioms;
    broadcast use vstd::seq_lib::group_to_multiset_ensures;

    let mapped = Seq::<Card>::empty().map_values(|c: Card| c.face);
    assert(mapped =~= Seq::<CardFace>::empty());
    assert(mapped.to_multiset().len() == mapped.len());
    assert forall|e: CardFace| mapped.to_multiset().count(e) == Multiset::<
        CardFace,
    >::empty().count(e) by {
        assert(mapped.to_multiset().count(e) <= mapped.to_multiset().len());
    }
    assert(mapped.to_multiset() =~= Multiset::<CardFace>::empty());
}

/// Sequences holding the same cards hold the same faces: a permutation
/// keeps the face multiset.
pub proof fn lemma_faces_of_permutation(s: Seq<Card>, t: Seq<Card>)
    requires
        s.to_multiset() == t.to_multiset(),
    ensures
        faces_of(s) == faces_of(t),
    decreases s.len(),
{
    broadcast use vstd::multiset::group_multiset_axioms;
    broadcast use vstd::seq_lib::group_to_multiset_ensures;

    if s.len() == 0 {
        assert(s.to_multiset().len() == s.len());
        assert(t.to_multiset().len() == t.len());
        assert(t.len() == s.len());
        assert(t =~= Seq::<Card>::empty());
        assert(s =~= Seq::<Card>::empty());
    } else {
        let c = s.last();
        assert(s.contains(c));
        assert(t.to_multiset().count(c) > 0);
        assert(t.contains(c));
        let j = choose|j: int| 0 <= j < t.len() && t[j] == c;
        assert(s.drop_last() =~= s.remove(s.len() - 1));
        assert(s.remove(s.len() - 1).to_multiset() =~= s.to_multiset().remove(c));
        assert(t.remove(j).to_multiset() =~= t.to_multiset().remove(c));
        lemma_faces_of_permutation(s.drop_last(), t.remove(j));
        lemma_faces_drop_last(s);
        lemma_faces_remove(t, j);
        assert(faces_of(t) == faces_of(s)) by {
            assert(faces_of(t).count(c.face) > 0) by {
                assert(t.map_values(|card: Card| card.face).contains(c.face)) by {
                    assert(t.map_values(|card: Card| card.face)[j] == c.face);
                }
            }
            lemma_remove_insert(faces_of(t), c.face);
        }
    }
}

/// Multiset addition commutes under a shared left summand.
proof fn lemma_add_swap(a: Multiset<CardFace>, b: Multiset<CardFace>, c: Multiset<CardFace>)
    ensures
        a.add(b).add(c) == a.add(c).add(b),
{
    broadcast use vstd::multiset::group_multiset_axioms;

    assert forall|e: CardFace| a.add(b).add(c).count(e) == a.add(c).add(b).count(e) by {
        assert(a.add(b).add(c).count(e) == a.add(b).count(e) + c.count(e));
        assert(a.add(c).add(b).count(e) == a.add(c).count(e) + b.count(e));
        assert(a.add(b).count(e) == a.count(e) + b.count(e));
        assert(a.add(c).count(e) == a.count(e) + c.count(e));
    }
    assert(a.add(b).add(c) =~= a.add(c).add(b));
}

/// Multiset addition associates.
proof fn lemma_add_assoc(a: Multiset<CardFace>, b: Multiset<CardFace>, c: Multiset<CardFace>)
    ensures
        a.add(b).add(c) == a.add(b.add(c)),
{
    broadcast use vstd::multiset::group_multiset_axioms;

    assert forall|e: CardFace| a.add(b).add(c).count(e) == a.add(b.add(c)).count(e) by {
        assert(a.add(b).add(c).count(e) == a.add(b).count(e) + c.count(e));
        assert(a.add(b).count(e) == a.count(e) + b.count(e));
        assert(a.add(b.add(c)).count(e) == a.count(e) + b.add(c).count(e));
        assert(b.add(c).count(e) == b.count(e) + c.count(e));
    }
    assert(a.add(b).add(c) =~= a.add(b.add(c)));
}

/// Card conservation: a table action that completes neither creates nor
/// destroys cards — it only moves or flips them — so the total card count
/// over all piles is unchanged. A table built from a full deck therefore
/// holds 52 cards after any sequence of deals, draws, moves and reveals.
pub proof fn lemma_apply_conserves_cards(action: KlondikeTableAction, v: TableView)
    requires
        action.succeeds(v),
    ensures
        action.applied(v).card_count() == v.card_count(),
{
    match action {
        KlondikeTableAction::Deal(target) => {
            let v1 = v.with_pile(KlondikePileId::Stock, v.stock.drop_last());
            lemma_with_pile_count(v, KlondikePileId::Stock, v.stock.drop_last());
            lemma_with_pile_count(v1, target, v1.pile(target).push(v.stock.last()));
        },
        KlondikeTableAction::Draw(count) => if v.stock.len() == 0 {
            let v1 = v.with_pile(KlondikePileId::Waste, Seq::empty());
            lemma_with_pile_count(v, KlondikePileId::Waste, Seq::empty());
            lemma_with_pile_count(v1, KlondikePileId::Stock, v1.stock + flipped_seq(v.waste));
        } else {
            let k = take_count(v.stock, count as int);
            let taken = v.stock.subrange(v.stock.len() - k, v.stock.len() as int);
            let v1 = v.with_pile(KlondikePileId::Stock, v.stock.subrange(0, v.stock.len() - k));
            lemma_with_pile_count(v, KlondikePileId::Stock, v.stock.subrange(0, v.stock.len() - k));
            lemma_with_pile_count(v1, KlondikePileId::Waste, v1.waste + flipped_seq(taken));
        },
        KlondikeTableAction::Move(source, target, count) => {
            let s = v.pile(source);
            let k = take_count(s, count as int);
            let moved = s.subrange(s.len() - k, s.len() as int);
            let v1 = v.with_pile(source, s.subrange(0, s.len() - k));
            lemma_with_pile_count(v, source, s.subrange(0, s.len() - k));
            lemma_with_pile_count(v1, target, v1.pile(target) + moved);
        },
        KlondikeTableAction::Reveal(target) => {
            let p = v.pile(target);
            let turned = if p.len() == 0 {
                p
            } else {
                p.update(p.len() - 1, Card { face: p.last().face, facing: Facing::FaceUp })
            };
            lemma_with_pile_count(v, target, turned);
        },
    }
}

} // verus!
