//! The dealer: a lazy, finite producer of the table actions that set up a
//! game. For a tableau width `w` it emits one deal per (round, pile) pair —
//! pile `i` receives a card in rounds `0..=i`, the standard solitaire
//! triangle — and then one reveal per pile, in increasing pile order.

use vstd::prelude::*;

use crate::table::KlondikePileId;
use crate::table::KlondikeTableAction;

verus! {

/// The `n`-th triangular number: `n + (n-1) + ... + 1`.
pub open spec fn triangle(n: int) -> int
    decreases n,
{
    if n <= 0 {
        0
    } else {
        n + triangle(n - 1)
    }
}

/// Triangular numbers start at zero and grow at least linearly.
pub proof fn lemma_triangle_pos(n: int)
    requires
        n >= 0,
    ensures
        triangle(n) >= n,
        triangle(n) >= 0,
    decreases n,
{
    if n > 0 {
        lemma_triangle_pos(n - 1);
    }
}

/// The triangular numbers in closed form.
pub proof fn lemma_triangle_closed_form(n: int)
    requires
        n >= 0,
    ensures
        triangle(n) == n * (n + 1) / 2,
    decreases n,
{
    lemma_triangle_pos(n);
    assert(2 * triangle(n) == n * (n + 1)) by {
        lemma_triangle_double(n);
    }
    vstd::arithmetic::div_mod::lemma_div_by_multiple(triangle(n), 2);
    assert(triangle(n) * 2 == n * (n + 1));
}

/// Twice a triangular number is the product of its index and successor.
proof fn lemma_triangle_double(n: int)
    requires
        n >= 0,
    ensures
        2 * triangle(n) == n * (n + 1),
    decreases n,
{
    if n > 0 {
        lemma_triangle_double(n - 1);
        assert(triangle(n) == n + triangle(n - 1));
        assert(2 * triangle(n) == n * (n + 1)) by (nonlinear_arith)
            requires
                triangle(n) == n + triangle(n - 1),
                2 * triangle(n - 1) == (n - 1) * n,
        ;
    } else {
        assert(triangle(0) == 0);
    }
}

/// The dealing cursor: `column` counts piles dealt in the current round,
/// `row` is the round. The pile dealt to is `column + row`; each round
/// starts one pile later than the last, so the row's width shrinks as the
/// row number grows.
#[derive(Debug, Copy, Clone, Eq, PartialEq, Structural)]
pub struct Dealing {
    pub column: usize,
    pub row: usize,
}

impl Dealing {
    /// A well-formed position: the row lies within the width, and the
    /// column within the row's remaining width.
    pub open spec fn wf(self, width: int) -> bool {
        self.row < width && self.column < width - self.row && width <= usize::MAX
    }

    /// The next position: one column further, wrapping into the next
    /// (one-narrower) row; `None` once the last row is done.
    pub open spec fn spec_step(self, width: int) -> Option<Dealing> {
        if self.column + 1 < width - self.row {
            Some(Dealing { column: (self.column + 1) as usize, row: self.row })
        } else if self.row + 1 < width {
            Some(Dealing { column: 0, row: (self.row + 1) as usize })
        } else {
            None
        }
    }

    /// The number of deals still to be emitted from this position on.
    pub open spec fn deals_left(self, width: int) -> int {
        triangle(width - self.row) - self.column
    }

    pub fn step(self, tableaux_width: usize) -> (r: Option<Self>)
        requires
            self.wf(tableaux_width as int),
        ensures
            r == self.spec_step(tableaux_width as int),
    {
        let row_width = tableaux_width - self.row;
        let next_column = (self.column + 1) % row_width;
        let next_row = self.row + (self.column + 1) / row_width;
        proof {
            if self.column + 1 < row_width {
                vstd::arithmetic::div_mod::lemma_small_mod(
                    (self.column + 1) as nat,
                    row_width as nat,
                );
                assert((self.column + 1) as int / row_width as int == 0) by (nonlinear_arith)
                    requires
                        0 < self.column + 1 < row_width,
                ;
            } else {
                vstd::arithmetic::div_mod::lemma_mod_self_0(row_width as int);
                vstd::arithmetic::div_mod::lemma_div_by_self(row_width as int);
            }
        }
        if next_row < tableaux_width {
            Some(Self { column: next_column, row: next_row })
        } else {
            None
        }
    }

    /// The index of the tableaux pile this position deals to.
    pub fn tableaux_index(self) -> (i: usize)
        requires
            self.column + self.row < usize::MAX,
        ensures
            i == self.column + self.row,
    {
        self.column + self.row
    }
}

/// The revealing cursor: the index of the next tableaux pile whose top
/// card is to be turned face up.
#[derive(Debug, Copy, Clone, Eq, PartialEq, Structural)]
pub struct Revealing {
    pub index: usize,
}

impl Revealing {
    pub open spec fn wf(self, width: int) -> bool {
        self.index < width && width <= usize::MAX
    }

    pub open spec fn spec_step(self, width: int) -> Option<Revealing> {
        if self.index + 1 < width {
            Some(Revealing { index: (self.index + 1) as usize })
        } else {
            None
        }
    }

    pub fn step(self, tableaux_width: usize) -> (r: Option<Self>)
        requires
            self.wf(tableaux_width as int),
        ensures
            r == self.spec_step(tableaux_width as int),
    {
        let next_index = self.index + 1;
        if next_index < tableaux_width {
            Some(Self { index: next_index })
        } else {
            None
        }
    }

    /// The index of the tableaux pile this position reveals.
    pub fn tableaux_index(self) -> (i: usize)
        ensures
            i == self.index,
    {
        self.index
    }
}

/// Where the dealer stands: still dealing, revealing top cards, or done.
#[derive(Debug, Copy, Clone, Eq, PartialEq, Structural)]
pub enum DealerIterState {
    Deal(Dealing),
    Reveal(Revealing),
    Done,
}

impl DealerIterState {
    pub open spec fn wf(self, width: int) -> bool {
        match self {
            DealerIterState::Deal(p) => p.wf(width),
            DealerIterState::Reveal(p) => p.wf(width),
            DealerIterState::Done => true,
        }
    }

    /// How many actions are still to be emitted from this state on.
    pub open spec fn measure(self, width: int) -> int {
        match self {
            DealerIterState::Deal(p) => p.deals_left(width) + width,
            DealerIterState::Reveal(p) => width - p.index,
            DealerIterState::Done => 0,
        }
    }

    /// The action this state emits, if any.
    pub open spec fn spec_action(self) -> Option<KlondikeTableAction> {
        match self {
            DealerIterState::Deal(p) => Some(
                KlondikeTableAction::Deal(KlondikePileId::Tableaux((p.column + p.row) as usize)),
            ),
            DealerIterState::Reveal(p) => Some(
                KlondikeTableAction::Reveal(KlondikePileId::Tableaux(p.index)),
            ),
            DealerIterState::Done => None,
        }
    }

    /// The state after emitting this state's action: dealing steps through
    /// the triangle, rolls over into revealing, and revealing into done.
    pub open spec fn spec_next(self, width: int) -> DealerIterState {
        match self {
            DealerIterState::Deal(p) => match p.spec_step(width) {
                Some(next) => DealerIterState::Deal(next),
                None => DealerIterState::Reveal(Revealing { index: 0 }),
            },
            DealerIterState::Reveal(p) => match p.spec_step(width) {
                Some(next) => DealerIterState::Reveal(next),
                None => DealerIterState::Done,
            },
            DealerIterState::Done => DealerIterState::Done,
        }
    }

    /// Stepping preserves well-formedness and shrinks the measure until
    /// the dealer is done.
    pub proof fn lemma_next_wf(self, width: int)
        requires
            self.wf(width),
        ensures
            self.spec_next(width).wf(width),
            self !is Done ==> self.spec_next(width).measure(width) == self.measure(width) - 1,
    {
        match self {
            DealerIterState::Deal(p) => {
                if p.column + 1 >= width - p.row && p.row + 1 < width {
                    assert(triangle(width - p.row) == (width - p.row) + triangle(width - p.row - 1));
                }
                if p.column + 1 >= width - p.row && p.row + 1 >= width {
                    assert(width - p.row == 1);
                    assert(triangle(0) == 0);
                    assert(triangle(1) == 1 + triangle(0));
                }
            },
            _ => {},
        }
    }

    /// The dealer's starting state for a given width: dealing from the
    /// top-left of the triangle, or already done when the width is zero.
    pub open spec fn spec_init(width: int) -> DealerIterState {
        if width > 0 {
            DealerIterState::Deal(Dealing { column: 0, row: 0 })
        } else {
            DealerIterState::Done
        }
    }

    pub fn init(tableaux_width: usize) -> (s: Self)
        ensures
            s == Self::spec_init(tableaux_width as int),
            s.wf(tableaux_width as int),
    {
        if tableaux_width > 0 {
            Self::Deal(Dealing { column: 0, row: 0 })
        } else {
            Self::Done
        }
    }

    pub fn action(&self) -> (r: Option<KlondikeTableAction>)
        requires
            (self matches DealerIterState::Deal(p) ==> p.column + p.row < usize::MAX),
        ensures
            r == self.spec_action(),
    {
        match *self {
            Self::Deal(current_position) => {
                let pile_id = KlondikePileId::Tableaux(current_position.tableaux_index());
                Some(KlondikeTableAction::Deal(pile_id))
            },
            Self::Reveal(current_position) => {
                let pile_id = KlondikePileId::Tableaux(current_position.tableaux_index());
                Some(KlondikeTableAction::Reveal(pile_id))
            },
            Self::Done => None,
        }
    }

    pub fn next(&self, tableaux_width: usize) -> (r: Self)
        requires
            self.wf(tableaux_width as int),
        ensures
            r == self.spec_next(tableaux_width as int),
            r.wf(tableaux_width as int),
    {
        proof {
            self.lemma_next_wf(tableaux_width as int);
        }
        match self {
            Self::Deal(current_position) => match current_position.step(tableaux_width) {
                Some(next) => Self::Deal(next),
                None => Self::Reveal(Revealing { index: 0 }),
            },
            Self::Reveal(current_position) => match current_position.step(tableaux_width) {
                Some(next) => Self::Reveal(next),
                None => Self::Done,
            },
            Self::Done => Self::Done,
        }
    }
}

#[via_fn]
proof fn dealer_seq_decreases(state: DealerIterState, width: int) {
    state.lemma_next_wf(width);
    match state {
        DealerIterState::Deal(p) => {
            lemma_triangle_pos(width - p.row);
        },
        _ => {},
    }
    match state.spec_next(width) {
        DealerIterState::Deal(p) => {
            lemma_triangle_pos(width - p.row);
        },
        _ => {},
    }
}

/// Every action the dealer emits from a state on, in order.
pub open spec fn dealer_seq(state: DealerIterState, width: int) -> Seq<KlondikeTableAction>
    decreases state.measure(width),
        when state.wf(width)
        via dealer_seq_decreases
{
    match state.spec_action() {
        None => Seq::empty(),
        Some(action) => seq![action] + dealer_seq(state.spec_next(width), width),
    }
}

/// From a revealing position, the dealer emits exactly one reveal per
/// remaining tableaux pile, in increasing pile order.
pub proof fn lemma_reveal_seq(p: Revealing, width: int)
    requires
        p.wf(width),
    ensures
        dealer_seq(DealerIterState::Reveal(p), width).len() == width - p.index,
        forall|k: int|
            0 <= k < width - p.index ==> dealer_seq(DealerIterState::Reveal(p), width)[k]
                == KlondikeTableAction::Reveal(KlondikePileId::Tableaux((p.index + k) as usize)),
    decreases width - p.index,
{
    DealerIterState::Reveal(p).lemma_next_wf(width);
    if p.index + 1 < width {
        lemma_reveal_seq(Revealing { index: (p.index + 1) as usize }, width);
    } else {
        assert(DealerIterState::Reveal(p).spec_next(width) == DealerIterState::Done);
        assert(dealer_seq(DealerIterState::Done, width) == Seq::<KlondikeTableAction>::empty());
    }
}

/// From a dealing position, the dealer emits exactly the remaining deals
/// of the triangle — each to a tableaux pile within the width — and then
/// one reveal per tableaux pile, in increasing pile order.
pub proof fn lemma_deal_seq(p: Dealing, width: int)
    requires
        p.wf(width),
    ensures
        dealer_seq(DealerIterState::Deal(p), width).len() == p.deals_left(width) + width,
        forall|k: int|
            0 <= k < p.deals_left(width) ==> ((#[trigger] dealer_seq(
                DealerIterState::Deal(p),
                width,
            )[k]) matches KlondikeTableAction::Deal(KlondikePileId::Tableaux(j)) && j < width),
        forall|k: int|
            p.deals_left(width) <= k < p.deals_left(width) + width ==> dealer_seq(
                DealerIterState::Deal(p),
                width,
            )[k] == KlondikeTableAction::Reveal(
                KlondikePileId::Tableaux((k - p.deals_left(width)) as usize),
            ),
    decreases p.deals_left(width),
{
    let state = DealerIterState::Deal(p);
    state.lemma_next_wf(width);
    lemma_triangle_pos(width - p.row);
    let rest = dealer_seq(state.spec_next(width), width);
    match p.spec_step(width) {
        Some(next) => {
            assert(state.spec_next(width) == DealerIterState::Deal(next));
            if p.column + 1 < width - p.row {
            } else {
                assert(triangle(width - p.row) == (width - p.row) + triangle(width - p.row - 1));
            }
            lemma_triangle_pos(width - next.row);
            lemma_deal_seq(next, width);
        },
        None => {
            assert(width - p.row == 1);
            assert(triangle(0) == 0);
            assert(triangle(1) == 1 + triangle(0));
            assert(p.deals_left(width) == 1);
            lemma_reveal_seq(Revealing { index: 0 }, width);
        },
    }
}

/// The dealer for a width `w` emits exactly `triangle(w)` — that is,
/// `w·(w+1)/2` — deal actions, each to a tableaux pile within the width,
/// followed by exactly one reveal per tableaux pile in increasing order,
/// and then terminates; for `w == 0` it emits nothing.
pub proof fn lemma_dealer_emits_triangle(width: usize)
    ensures
        dealer_seq(DealerIterState::spec_init(width as int), width as int).len() == triangle(
            width as int,
        ) + width,
        triangle(width as int) == (width as int) * (width as int + 1) / 2,
        forall|k: int|
            0 <= k < triangle(width as int) ==> ((#[trigger] dealer_seq(
                DealerIterState::spec_init(width as int),
                width as int,
            )[k]) matches KlondikeTableAction::Deal(KlondikePileId::Tableaux(j)) && j < width),
        forall|k: int|
            triangle(width as int) <= k < triangle(width as int) + width ==> dealer_seq(
                DealerIterState::spec_init(width as int),
                width as int,
            )[k] == KlondikeTableAction::Reveal(
                KlondikePileId::Tableaux((k - triangle(width as int)) as usize),
            ),
{
    lemma_triangle_closed_form(width as int);
    if width > 0 {
        let p = Dealing { column: 0, row: 0 };
        lemma_deal_seq(p, width as int);
        assert(p.deals_left(width as int) == triangle(width as int));
    }
}

/// A lazy iterator over the dealer's actions: holds the width and the
/// current state, and emits one action per step until done.
#[derive(Debug, Copy, Clone, Eq, PartialEq, Structural)]
pub struct KlondikeDealerIter {
    pub tableaux_width: usize,
    pub state: DealerIterState,
}

impl KlondikeDealerIter {
    pub open spec fn wf(self) -> bool {
        self.state.wf(self.tableaux_width as int)
    }

    /// The actions this iterator has yet to emit.
    pub open spec fn remaining(self) -> Seq<KlondikeTableAction> {
        dealer_seq(self.state, self.tableaux_width as int)
    }

    pub fn new(tableaux_width: usize) -> (it: Self)
        ensures
            it.wf(),
            it.tableaux_width == tableaux_width,
            it.state == DealerIterState::spec_init(tableaux_width as int),
    {
        let state = DealerIterState::init(tableaux_width);
        Self { tableaux_width, state }
    }

    /// Emit the next action, advancing the state; `None` once done, and
    /// forever after.
    pub fn next(&mut self) -> (r: Option<KlondikeTableAction>)
        requires
            old(self).wf(),
        ensures
            final(self).wf(),
            final(self).tableaux_width == old(self).tableaux_width,
            r == old(self).state.spec_action(),
            final(self).state == old(self).state.spec_next(old(self).tableaux_width as int),
            old(self).remaining() == match r {
                None => Seq::<KlondikeTableAction>::empty(),
                Some(action) => seq![action] + final(self).remaining(),
            },
    {
        let action = self.state.action();
        self.state = self.state.next(self.tableaux_width);
        action
    }
}

/// The context the dealer is created against: the configured tableau
/// width.
#[derive(Debug, Copy, Clone, Eq, PartialEq, Structural)]
pub struct KlondikeDealerContext {
    pub tableaux_width: usize,
}

/// The Klondike dealer: hands out a fresh iterator over the setup actions
/// for a given context.
#[derive(Debug, Copy, Clone, Eq, PartialEq, Structural, Default)]
pub struct KlondikeDealer;

impl KlondikeDealer {
    pub fn deal(&self, context: KlondikeDealerContext) -> (it: KlondikeDealerIter)
        ensures
            it.wf(),
            it.tableaux_width == context.tableaux_width,
            it.state == DealerIterState::spec_init(context.tableaux_width as int),
    {
        KlondikeDealerIter::new(context.tableaux_width)
    }
}

} // verus!
