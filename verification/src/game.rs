//! The game: settings, the started flag, the guarded table, the lazily
//! created dealer cursor and the selection, together with the interpreter
//! that turns player intents into validated table and selection actions.
//! Every table mutation passes through the guarded pipeline; a rejected
//! action leaves the table untouched, while the accompanying selection
//! side effects still occur.

use vstd::multiset::Multiset;
use vstd::prelude::*;

use crate::action::Action;
use crate::card::Card;
use crate::card::CardFace;
use crate::card::Facing;
use crate::dealer::DealerIterState;
use crate::dealer::KlondikeDealer;
use crate::dealer::KlondikeDealerContext;
use crate::dealer::KlondikeDealerIter;
use crate::deck::full_deck;
use crate::deck::Deck;
use crate::deck::Shuffle;
use crate::klondike_rules::klondike_legal;
use crate::klondike_rules::spec_check_klondike;
use crate::klondike_rules::KlondikeRules;
use crate::klondike_rules::KlondikeRulesContext;
use crate::klondike_rules::KlondikeRulesError;
use crate::pile::face_up_run;
use crate::rules::RulesGuard;
use crate::rules::RulesGuardError;
use crate::selection;
use crate::selection::Selection;
use crate::selection::State;
use crate::settings::KlondikeSettings;
use crate::table::faces_of;
use crate::table::lemma_apply_conserves_cards;
use crate::table::lemma_apply_conserves_faces;
use crate::table::lemma_faces_empty;
use crate::table::lemma_faces_of_permutation;
use crate::table::tableaux_count;
use crate::table::KlondikeActionError;
use crate::table::KlondikePileId;
use crate::table::KlondikeTable;
use crate::table::KlondikeTableAction;
use crate::table::TableView;

verus! {

/// What a table-mutating intent reports: success, or why the rules or the
/// mechanics refused it.
pub type KlondikeGameError = RulesGuardError<
    KlondikeRulesError,
    KlondikeActionError,
    KlondikeTableAction,
>;

/// A freshly set up table: the full deck, still face down, in the stock,
/// and every other pile empty.
pub open spec fn fresh_table(v: TableView) -> bool {
    &&& v.stock.to_multiset() == full_deck().to_multiset()
    &&& v.stock.len() == 52
    &&& forall|i: int| 0 <= i < v.stock.len() ==> (#[trigger] v.stock[i]).facing == Facing::FaceDown
    &&& v.waste == Seq::<Card>::empty()
    &&& v.spades == Seq::<Card>::empty()
    &&& v.hearts == Seq::<Card>::empty()
    &&& v.diamonds == Seq::<Card>::empty()
    &&& v.clubs == Seq::<Card>::empty()
    &&& v.tableaux == Seq::<Seq<Card>>::empty()
}

/// A fresh table holds exactly the faces of the full deck.
proof fn lemma_fresh_table_faces(v: TableView)
    requires
        fresh_table(v),
    ensures
        v.faces() == faces_of(full_deck()),
{
    broadcast use vstd::multiset::group_multiset_axioms;

    lemma_faces_of_permutation(v.stock, full_deck());
    lemma_faces_empty();
    assert(crate::table::tableaux_faces(v.tableaux) == Multiset::<CardFace>::empty());
    assert forall|e: CardFace| v.faces().count(e) == faces_of(v.stock).count(e) by {
        assert(v.faces().count(e) == faces_of(v.stock).add(faces_of(v.waste)).add(
            faces_of(v.spades),
        ).add(faces_of(v.hearts)).add(faces_of(v.diamonds)).add(faces_of(v.clubs)).add(
            crate::table::tableaux_faces(v.tableaux),
        ).count(e));
    }
    assert(v.faces() =~= faces_of(v.stock));
}

/// One game session.
#[derive(Debug)]
pub struct Game<SH> {
    dealer: KlondikeDealer,
    dealer_iter: Option<KlondikeDealerIter>,
    settings: KlondikeSettings,
    shuffle: SH,
    started: bool,
    table_guard: RulesGuard<KlondikeRules, KlondikeTable>,
    selection: Selection,
}

impl<SH> Game<SH> {
    pub closed spec fn spec_settings(&self) -> KlondikeSettings {
        self.settings
    }

    pub closed spec fn spec_started(&self) -> bool {
        self.started
    }

    /// The table's mathematical state.
    pub closed spec fn spec_table(&self) -> TableView {
        self.table_guard.spec_target()@
    }

    pub closed spec fn spec_selection(&self) -> Selection {
        self.selection
    }

    pub closed spec fn spec_dealer_iter(&self) -> Option<KlondikeDealerIter> {
        self.dealer_iter
    }

    pub closed spec fn spec_rules(&self) -> KlondikeRules {
        self.table_guard.spec_rules()
    }

    /// The context every rule check runs against.
    pub open spec fn spec_rules_context(&self) -> KlondikeRulesContext {
        KlondikeRulesContext { settings: self.spec_settings(), started: self.spec_started() }
    }

    /// The dealer cursor the next dealing step starts from: the stored
    /// one, or a fresh one for the configured width.
    pub open spec fn spec_dealer_cursor(&self) -> KlondikeDealerIter {
        match self.spec_dealer_iter() {
            Some(it) => it,
            None => KlondikeDealerIter {
                tableaux_width: self.spec_settings().tableaux_width,
                state: DealerIterState::spec_init(self.spec_settings().tableaux_width as int),
            },
        }
    }

    /// The game's invariant: the selection's count is a machine number,
    /// the dealer cursor (if any) is well formed for the configured
    /// width, and — card conservation — the piles together hold exactly
    /// the 52 card identities of one deck: none is ever created or
    /// destroyed, only moved or flipped.
    pub open spec fn wf(&self) -> bool {
        &&& self.spec_selection().wf()
        &&& match self.spec_dealer_iter() {
            Some(it) => it.wf() && it.tableaux_width == self.spec_settings().tableaux_width,
            None => true,
        }
        &&& self.spec_table().card_count() == 52
        &&& self.spec_table().faces() == faces_of(full_deck())
    }

    pub fn is_started(&self) -> (r: bool)
        ensures
            r == self.spec_started(),
    {
        self.started
    }

    pub fn rules(&self) -> (r: &KlondikeRules)
        ensures
            *r == self.spec_rules(),
    {
        self.table_guard.rules()
    }

    pub fn settings(&self) -> (s: &KlondikeSettings)
        ensures
            *s == self.spec_settings(),
    {
        &self.settings
    }

    pub fn table(&self) -> (t: &KlondikeTable)
        ensures
            t@ == self.spec_table(),
    {
        self.table_guard.target()
    }

    pub fn selection(&self) -> (s: Selection)
        ensures
            s == self.spec_selection(),
    {
        self.selection
    }
}

impl<SH: Shuffle> Game<SH> {
    /// A new session: a freshly shuffled table, nothing dealt, not
    /// started, the selection in visual mode on the stock.
    pub fn new(
        dealer: KlondikeDealer,
        rules: KlondikeRules,
        settings: KlondikeSettings,
        shuffle: SH,
    ) -> (g: Self)
        ensures
            g.wf(),
            !g.spec_started(),
            g.spec_settings() == settings,
            g.spec_dealer_iter() is None,
            g.spec_selection() == (Selection {
                target: KlondikePileId::Stock,
                state: State::Visual,
            }),
            fresh_table(g.spec_table()),
    {
        let mut shuffle = shuffle;
        let deck = Deck::new_shuffled(&mut shuffle);
        let table = KlondikeTable::new_with_cards(deck.into_cards());
        proof {
            assert(tableaux_count(Seq::<Seq<Card>>::empty()) == 0);
            lemma_fresh_table_faces(table@);
        }
        Self {
            dealer,
            dealer_iter: None,
            settings,
            shuffle,
            started: false,
            table_guard: RulesGuard::new(rules, table),
            selection: Selection::new(),
        }
    }

    /// Pass one table action through the guarded pipeline: the rules see
    /// the current context and table, and only on their approval is the
    /// action applied. Nothing else about the game changes.
    fn do_table_action(&mut self, action: KlondikeTableAction) -> (r: Result<
        (),
        KlondikeGameError,
    >)
        requires
            old(self).wf(),
        ensures
            final(self).wf(),
            final(self).spec_settings() == old(self).spec_settings(),
            final(self).spec_started() == old(self).spec_started(),
            final(self).spec_selection() == old(self).spec_selection(),
            final(self).spec_dealer_iter() == old(self).spec_dealer_iter(),
            r is Ok <==> (klondike_legal(
                old(self).spec_rules_context(),
                old(self).spec_table(),
                action,
            ) && action.succeeds(old(self).spec_table())),
            r is Ok ==> final(self).spec_table() == action.applied(old(self).spec_table()),
            r !is Ok ==> final(self).spec_table() == old(self).spec_table(),
            !klondike_legal(old(self).spec_rules_context(), old(self).spec_table(), action) ==> (
            r matches Err(RulesGuardError::RuleError { action: a, source }) && a == action && Err::<
                (),
                KlondikeRulesError,
            >(source) == spec_check_klondike(
                old(self).spec_rules_context(),
                old(self).spec_table(),
                action,
            )),
            (klondike_legal(old(self).spec_rules_context(), old(self).spec_table(), action)
                && !action.succeeds(old(self).spec_table())) ==> (r matches Err(
                RulesGuardError::ActionError { action: a, source },
            ) && a == action && source == action.failure(old(self).spec_table())),
    {
        let context = KlondikeRulesContext { settings: self.settings, started: self.started };
        let r = self.table_guard.apply_guarded(action, &context);
        proof {
            if r is Ok {
                lemma_apply_conserves_cards(action, old(self).spec_table());
                lemma_apply_conserves_faces(action, old(self).spec_table());
            }
        }
        r
    }

    /// Apply one selection action. Selection actions are total: the
    /// selection changes as the action describes, and nothing else does.
    fn do_selection_action(&mut self, action: selection::Action)
        requires
            old(self).wf(),
        ensures
            final(self).wf(),
            final(self).spec_settings() == old(self).spec_settings(),
            final(self).spec_started() == old(self).spec_started(),
            final(self).spec_table() == old(self).spec_table(),
            final(self).spec_dealer_iter() == old(self).spec_dealer_iter(),
            final(self).spec_selection() == action.applied(old(self).spec_selection()),
    {
        proof {
            selection::lemma_selection_wf(action, self.selection);
        }
        let _ = action.apply_to(&mut self.selection);
    }

    /// Change the selection's target pile, preserving any held cards.
    pub fn go_to(&mut self, target: KlondikePileId)
        requires
            old(self).wf(),
        ensures
            final(self).wf(),
            final(self).spec_settings() == old(self).spec_settings(),
            final(self).spec_started() == old(self).spec_started(),
            final(self).spec_table() == old(self).spec_table(),
            final(self).spec_dealer_iter() == old(self).spec_dealer_iter(),
            final(self).spec_selection() == selection::Action::GoTo(target).applied(
                old(self).spec_selection(),
            ),
    {
        self.do_selection_action(selection::Action::GoTo(target));
    }

    /// Hold one more card, saturating at the machine limit.
    pub fn select_more(&mut self)
        requires
            old(self).wf(),
        ensures
            final(self).wf(),
            final(self).spec_settings() == old(self).spec_settings(),
            final(self).spec_started() == old(self).spec_started(),
            final(self).spec_table() == old(self).spec_table(),
            final(self).spec_dealer_iter() == old(self).spec_dealer_iter(),
            final(self).spec_selection() == selection::Action::Resize(
                if old(self).spec_selection().spec_count() < usize::MAX {
                    (old(self).spec_selection().spec_count() + 1) as usize
                } else {
                    usize::MAX
                },
            ).applied(old(self).spec_selection()),
    {
        let count = self.selection.count();
        let new_count = if count < usize::MAX {
            count + 1
        } else {
            count
        };
        self.do_selection_action(selection::Action::Resize(new_count));
    }

    /// Hold one card fewer, saturating at zero (which clears the
    /// selection back to visual mode).
    pub fn select_less(&mut self)
        requires
            old(self).wf(),
        ensures
            final(self).wf(),
            final(self).spec_settings() == old(self).spec_settings(),
            final(self).spec_started() == old(self).spec_started(),
            final(self).spec_table() == old(self).spec_table(),
            final(self).spec_dealer_iter() == old(self).spec_dealer_iter(),
            final(self).spec_selection() == selection::Action::Resize(
                if old(self).spec_selection().spec_count() > 0 {
                    (old(self).spec_selection().spec_count() - 1) as usize
                } else {
                    0
                },
            ).applied(old(self).spec_selection()),
    {
        let count = self.selection.count();
        let new_count = if count > 0 {
            count - 1
        } else {
            0
        };
        self.do_selection_action(selection::Action::Resize(new_count));
    }

    /// Hold the whole maximal face-up run on top of the current target
    /// pile.
    pub fn select_all(&mut self)
        requires
            old(self).wf(),
        ensures
            final(self).wf(),
            final(self).spec_settings() == old(self).spec_settings(),
            final(self).spec_started() == old(self).spec_started(),
            final(self).spec_table() == old(self).spec_table(),
            final(self).spec_dealer_iter() == old(self).spec_dealer_iter(),
            final(self).spec_selection() == selection::Action::Resize(
                face_up_run(
                    old(self).spec_table().pile(old(self).spec_selection().target),
                ) as usize,
            ).applied(old(self).spec_selection()),
    {
        let target = self.selection.target();
        let run = self.table_guard.target().pile(target).top_face_up_cards();
        self.do_selection_action(selection::Action::Resize(run.len()));
    }

    /// Hold a single card from the waste, cancelling any prior held
    /// selection.
    pub fn take_from_waste(&mut self)
        requires
            old(self).wf(),
        ensures
            final(self).wf(),
            final(self).spec_settings() == old(self).spec_settings(),
            final(self).spec_started() == old(self).spec_started(),
            final(self).spec_table() == old(self).spec_table(),
            final(self).spec_dealer_iter() == old(self).spec_dealer_iter(),
            final(self).spec_selection() == selection::Action::Hold(
                KlondikePileId::Waste,
                1,
            ).applied(old(self).spec_selection()),
    {
        self.do_selection_action(selection::Action::Hold(KlondikePileId::Waste, 1));
    }

    /// Snap the target back to the held source and drop the held cards.
    pub fn cancel_move(&mut self)
        requires
            old(self).wf(),
        ensures
            final(self).wf(),
            final(self).spec_settings() == old(self).spec_settings(),
            final(self).spec_started() == old(self).spec_started(),
            final(self).spec_table() == old(self).spec_table(),
            final(self).spec_dealer_iter() == old(self).spec_dealer_iter(),
            final(self).spec_selection() == selection::Action::Return.applied(
                old(self).spec_selection(),
            ),
    {
        self.do_selection_action(selection::Action::Return);
    }

    /// Draw from the stock (or recycle the waste) through the guarded
    /// pipeline. Drawing is always legal and always completes.
    pub fn draw(&mut self, count: usize) -> (r: Result<(), KlondikeGameError>)
        requires
            old(self).wf(),
        ensures
            final(self).wf(),
            final(self).spec_settings() == old(self).spec_settings(),
            final(self).spec_started() == old(self).spec_started(),
            final(self).spec_selection() == old(self).spec_selection(),
            final(self).spec_dealer_iter() == old(self).spec_dealer_iter(),
            r is Ok,
            final(self).spec_table() == KlondikeTableAction::Draw(count).applied(
                old(self).spec_table(),
            ),
    {
        self.do_table_action(KlondikeTableAction::Draw(count))
    }

    /// Reveal the top card of the current target pile through the guarded
    /// pipeline.
    pub fn reveal_top(&mut self) -> (r: Result<(), KlondikeGameError>)
        requires
            old(self).wf(),
        ensures
            final(self).wf(),
            final(self).spec_settings() == old(self).spec_settings(),
            final(self).spec_started() == old(self).spec_started(),
            final(self).spec_selection() == old(self).spec_selection(),
            final(self).spec_dealer_iter() == old(self).spec_dealer_iter(),
            r is Ok <==> klondike_legal(
                old(self).spec_rules_context(),
                old(self).spec_table(),
                KlondikeTableAction::Reveal(old(self).spec_selection().target),
            ),
            r is Ok ==> final(self).spec_table() == KlondikeTableAction::Reveal(
                old(self).spec_selection().target,
            ).applied(old(self).spec_table()),
            r !is Ok ==> final(self).spec_table() == old(self).spec_table(),
    {
        let target = self.selection.target();
        self.do_table_action(KlondikeTableAction::Reveal(target))
    }

    /// Place the held run on the current target: when source and target
    /// differ, a move passes through the guarded pipeline; in every case —
    /// even when the rules reject the move — the held selection is
    /// released back to visual mode.
    pub fn place_move(&mut self) -> (r: Result<(), KlondikeGameError>)
        requires
            old(self).wf(),
        ensures
            final(self).wf(),
            final(self).spec_settings() == old(self).spec_settings(),
            final(self).spec_started() == old(self).spec_started(),
            final(self).spec_dealer_iter() == old(self).spec_dealer_iter(),
            final(self).spec_selection().state == State::Visual,
            final(self).spec_selection().spec_count() == 0,
            final(self).spec_selection().target == old(self).spec_selection().target,
            ({
                let source = old(self).spec_selection().spec_source();
                let target = old(self).spec_selection().target;
                let action = KlondikeTableAction::Move(
                    source,
                    target,
                    old(self).spec_selection().spec_count() as usize,
                );
                if source != target {
                    &&& r is Ok <==> (klondike_legal(
                        old(self).spec_rules_context(),
                        old(self).spec_table(),
                        action,
                    ) && action.succeeds(old(self).spec_table()))
                    &&& r is Ok ==> final(self).spec_table() == action.applied(
                        old(self).spec_table(),
                    )
                    &&& r !is Ok ==> final(self).spec_table() == old(self).spec_table()
                } else {
                    r is Ok && final(self).spec_table() == old(self).spec_table()
                }
            }),
    {
        let source = self.selection.source();
        let target = self.selection.target();
        let count = self.selection.count();
        let r = if source != target {
            self.do_table_action(KlondikeTableAction::Move(source, target, count))
        } else {
            Ok(())
        };
        self.do_selection_action(selection::Action::Resize(0));
        r
    }

    /// Send the top card of the held source pile to its suit's
    /// foundation, and let go of one held card (saturating at zero).
    pub fn send_to_foundation(&mut self) -> (r: Result<(), KlondikeGameError>)
        requires
            old(self).wf(),
        ensures
            final(self).wf(),
            final(self).spec_settings() == old(self).spec_settings(),
            final(self).spec_started() == old(self).spec_started(),
            final(self).spec_dealer_iter() == old(self).spec_dealer_iter(),
            ({
                let source = old(self).spec_selection().spec_source();
                let pile = old(self).spec_table().pile(source);
                if pile.len() > 0 {
                    let action = KlondikeTableAction::Move(
                        source,
                        KlondikePileId::Foundation(pile.last().face.suit),
                        1,
                    );
                    &&& r is Ok <==> (klondike_legal(
                        old(self).spec_rules_context(),
                        old(self).spec_table(),
                        action,
                    ) && action.succeeds(old(self).spec_table()))
                    &&& r is Ok ==> final(self).spec_table() == action.applied(
                        old(self).spec_table(),
                    )
                    &&& r !is Ok ==> final(self).spec_table() == old(self).spec_table()
                    &&& final(self).spec_selection() == selection::Action::Resize(
                        if old(self).spec_selection().spec_count() > 0 {
                            (old(self).spec_selection().spec_count() - 1) as usize
                        } else {
                            0
                        },
                    ).applied(old(self).spec_selection())
                } else {
                    &&& r is Ok
                    &&& final(self).spec_table() == old(self).spec_table()
                    &&& final(self).spec_selection() == old(self).spec_selection()
                }
            }),
    {
        let source = self.selection.source();
        let top = self.table_guard.target().top_card_at(source);
        match top {
            Some(card) => {
                let action = KlondikeTableAction::Move(
                    source,
                    KlondikePileId::Foundation(card.suit()),
                    1,
                );
                let r = self.do_table_action(action);
                let count = self.selection.count();
                let new_count = if count > 0 {
                    count - 1
                } else {
                    0
                };
                self.do_selection_action(selection::Action::Resize(new_count));
                r
            },
            None => Ok(()),
        }
    }
}

/// A game-level action: restart with a fresh shuffle, or mark the game as
/// started.
#[derive(Debug, Copy, Clone, Eq, PartialEq, Structural)]
pub enum GameAction {
    Clear,
    Start,
}

impl GameAction {
    /// Clearing discards the dealer cursor, replaces the table with a
    /// freshly shuffled one, and marks the game not started; starting
    /// only sets the started flag.
    pub fn apply_to<SH: Shuffle>(self, target: &mut Game<SH>)
        requires
            old(target).wf(),
        ensures
            final(target).wf(),
            final(target).spec_settings() == old(target).spec_settings(),
            final(target).spec_selection() == old(target).spec_selection(),
            self is Clear ==> {
                &&& !final(target).spec_started()
                &&& final(target).spec_dealer_iter() is None
                &&& fresh_table(final(target).spec_table())
            },
            self is Start ==> {
                &&& final(target).spec_started()
                &&& final(target).spec_dealer_iter() == old(target).spec_dealer_iter()
                &&& final(target).spec_table() == old(target).spec_table()
            },
    {
        match self {
            Self::Clear => {
                target.dealer_iter = None;
                let deck = Deck::new_shuffled(&mut target.shuffle);
                target.table_guard.set_target(KlondikeTable::new_with_cards(deck.into_cards()));
                target.started = false;
                proof {
                    assert(tableaux_count(Seq::<Seq<Card>>::empty()) == 0);
                    lemma_fresh_table_faces(target.spec_table());
                }
            },
            Self::Start => {
                target.started = true;
            },
        }
    }
}

/// A table action lifted to the game: it passes through the guarded
/// pipeline against a context assembled from the game's settings and
/// started flag.
#[derive(Debug, Copy, Clone, Eq, PartialEq, Structural)]
pub struct TableAction(pub KlondikeTableAction);

impl TableAction {
    pub fn apply_to<SH: Shuffle>(self, target: &mut Game<SH>) -> (r: Result<
        (),
        KlondikeGameError,
    >)
        requires
            old(target).wf(),
        ensures
            final(target).wf(),
            final(target).spec_settings() == old(target).spec_settings(),
            final(target).spec_started() == old(target).spec_started(),
            final(target).spec_selection() == old(target).spec_selection(),
            final(target).spec_dealer_iter() == old(target).spec_dealer_iter(),
            r is Ok <==> (klondike_legal(
                old(target).spec_rules_context(),
                old(target).spec_table(),
                self.0,
            ) && self.0.succeeds(old(target).spec_table())),
            r is Ok ==> final(target).spec_table() == self.0.applied(old(target).spec_table()),
            r !is Ok ==> final(target).spec_table() == old(target).spec_table(),
    {
        let TableAction(action) = self;
        target.do_table_action(action)
    }
}

/// One dealing step: create the dealer cursor on first use, take its next
/// action if any, and pass that action through the guarded pipeline.
#[derive(Debug, Copy, Clone, Eq, PartialEq, Structural)]
pub struct DealAction;

impl DealAction {
    pub fn apply_to<SH: Shuffle>(self, target: &mut Game<SH>) -> (r: Result<
        (),
        KlondikeGameError,
    >)
        requires
            old(target).wf(),
        ensures
            final(target).wf(),
            final(target).spec_settings() == old(target).spec_settings(),
            final(target).spec_started() == old(target).spec_started(),
            final(target).spec_selection() == old(target).spec_selection(),
            final(target).spec_dealer_iter() == Some(
                KlondikeDealerIter {
                    tableaux_width: old(target).spec_dealer_cursor().tableaux_width,
                    state: old(target).spec_dealer_cursor().state.spec_next(
                        old(target).spec_dealer_cursor().tableaux_width as int,
                    ),
                },
            ),
            match old(target).spec_dealer_cursor().state.spec_action() {
                None => r is Ok && final(target).spec_table() == old(target).spec_table(),
                Some(action) => {
                    &&& r is Ok <==> (klondike_legal(
                        old(target).spec_rules_context(),
                        old(target).spec_table(),
                        action,
                    ) && action.succeeds(old(target).spec_table()))
                    &&& r is Ok ==> final(target).spec_table() == action.applied(
                        old(target).spec_table(),
                    )
                    &&& r !is Ok ==> final(target).spec_table() == old(target).spec_table()
                },
            },
    {
        let mut iter = match target.dealer_iter {
            Some(it) => it,
            None => {
                let context = KlondikeDealerContext {
                    tableaux_width: target.settings.tableaux_width,
                };
                target.dealer.deal(context)
            },
        };
        let action_opt = iter.next();
        target.dealer_iter = Some(iter);
        match action_opt {
            Some(action) => target.do_table_action(action),
            None => Ok(()),
        }
    }
}

} // verus!
