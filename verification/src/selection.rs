//! The player-intent cursor: either a highlighted target pile (visual
//! mode) or a held run of cards remembered by source pile and count,
//! pending placement at the target.

use vstd::prelude::*;

use crate::action;
use crate::table::KlondikePileId;

verus! {

/// The held half of the selection: either a source pile with one more than
/// `extra_count` cards held, or nothing held.
#[derive(Debug, Copy, Clone, Eq, PartialEq, Structural)]
pub enum State {
    Held { source: KlondikePileId, extra_count: usize },
    Visual,
}

impl State {
    /// The held source pile, if any.
    pub open spec fn spec_source(self) -> Option<KlondikePileId> {
        match self {
            State::Held { source, .. } => Some(source),
            State::Visual => None,
        }
    }

    /// The number of held cards: zero in visual mode, positive when held.
    pub open spec fn spec_count(self) -> int {
        match self {
            State::Held { extra_count, .. } => extra_count + 1,
            State::Visual => 0,
        }
    }

    /// The state resized to hold `new_count` cards: zero clears back to
    /// visual; a positive count holds from the previous source, or from
    /// the current target when nothing was held.
    pub open spec fn spec_resize(self, new_count: int, current_target: KlondikePileId) -> State {
        if new_count == 0 {
            State::Visual
        } else {
            State::Held {
                source: match self.spec_source() {
                    Some(source) => source,
                    None => current_target,
                },
                extra_count: (new_count - 1) as usize,
            }
        }
    }

    /// The held count fits the machine: it can always be returned as a
    /// `usize`.
    pub open spec fn wf(self) -> bool {
        self.spec_count() <= usize::MAX
    }

    fn source(&self) -> (r: Option<KlondikePileId>)
        ensures
            r == self.spec_source(),
    {
        match *self {
            Self::Held { source, .. } => Some(source),
            Self::Visual => None,
        }
    }

    fn count(&self) -> (r: usize)
        requires
            self.wf(),
        ensures
            r == self.spec_count(),
    {
        match *self {
            Self::Held { extra_count, .. } => extra_count + 1,
            Self::Visual => 0,
        }
    }

    fn resize(self, new_count: usize, current_target: KlondikePileId) -> (r: Self)
        ensures
            r == self.spec_resize(new_count as int, current_target),
            r.wf(),
    {
        if new_count == 0 {
            Self::Visual
        } else {
            Self::Held {
                source: match self.source() {
                    Some(source) => source,
                    None => current_target,
                },
                extra_count: new_count - 1,
            }
        }
    }
}

/// The selection: a target pile, and possibly a held run of cards.
#[derive(Debug, Copy, Clone, Eq, PartialEq, Structural)]
pub struct Selection {
    pub target: KlondikePileId,
    pub state: State,
}

impl View for Selection {
    type V = Selection;

    open spec fn view(&self) -> Selection {
        *self
    }
}

impl Selection {
    pub open spec fn wf(self) -> bool {
        self.state.wf()
    }

    /// The held source pile, falling back to the target when nothing is
    /// held.
    pub open spec fn spec_source(self) -> KlondikePileId {
        match self.state.spec_source() {
            Some(source) => source,
            None => self.target,
        }
    }

    /// The number of held cards; zero in visual mode.
    pub open spec fn spec_count(self) -> int {
        self.state.spec_count()
    }

    /// A fresh selection: visual mode, targeting the stock.
    pub fn new() -> (s: Self)
        ensures
            s == (Selection { target: KlondikePileId::Stock, state: State::Visual }),
    {
        Self { target: KlondikePileId::Stock, state: State::Visual }
    }

    pub fn target(&self) -> (r: KlondikePileId)
        ensures
            r == self.target,
    {
        self.target
    }

    pub fn source(&self) -> (r: KlondikePileId)
        ensures
            r == self.spec_source(),
    {
        match self.state.source() {
            Some(source) => source,
            None => self.target,
        }
    }

    pub fn count(&self) -> (r: usize)
        requires
            self.wf(),
        ensures
            r == self.spec_count(),
    {
        self.state.count()
    }
}

impl Default for Selection {
    fn default() -> (s: Self)
        ensures
            s == (Selection { target: KlondikePileId::Stock, state: State::Visual }),
    {
        Selection::new()
    }
}

/// Selection failures: none are ever produced — selection actions are
/// total — but the error channel stays explicit, uniform with the table
/// actions'.
#[derive(Debug, Copy, Clone, Eq, PartialEq, Structural)]
pub struct SelectionError;

/// An action on the selection: retarget, hold a run from a new source,
/// resize the held run, or snap back to the held source.
#[derive(Debug, Copy, Clone, Eq, PartialEq, Structural)]
pub enum Action {
    /// Change the target pile, preserving any held state.
    GoTo(KlondikePileId),
    /// Resize to the given count, then hold from the given source.
    Hold(KlondikePileId, usize),
    /// Resize the held run: zero clears back to visual mode.
    Resize(usize),
    /// Snap the target back to the held source, if any, and drop to
    /// visual mode.
    Return,
}

impl action::Action<Selection> for Action {
    type Error = SelectionError;

    /// Selection actions are total functions of their inputs.
    open spec fn succeeds(self, s: Selection) -> bool {
        true
    }

    open spec fn applied(self, s: Selection) -> Selection {
        match self {
            Action::GoTo(target) => Selection { target, ..s },
            Action::Hold(new_source, count) => {
                let resized = s.state.spec_resize(count as int, s.target);
                match resized {
                    State::Held { extra_count, .. } => Selection {
                        state: State::Held { source: new_source, extra_count },
                        ..s
                    },
                    State::Visual => Selection { state: State::Visual, ..s },
                }
            },
            Action::Resize(count) => Selection {
                state: s.state.spec_resize(count as int, s.target),
                ..s
            },
            Action::Return => Selection { target: s.spec_source(), state: State::Visual },
        }
    }

    open spec fn failure(self, s: Selection) -> SelectionError {
        arbitrary()
    }

    fn apply_to(self, selection: &mut Selection) -> (r: Result<(), SelectionError>) {
        match self {
            Self::GoTo(target) => {
                selection.target = target;
            },
            Self::Hold(new_source, count) => {
                // First set the new size, in case zero cards are to be
                // held; then, if cards are held, override the source.
                selection.state = selection.state.resize(count, selection.target);
                if let State::Held { extra_count, .. } = selection.state {
                    selection.state = State::Held { source: new_source, extra_count };
                }
            },
            Self::Resize(count) => {
                selection.state = selection.state.resize(count, selection.target);
            },
            Self::Return => {
                if let Some(source) = selection.state.source() {
                    selection.target = source;
                }
                selection.state = State::Visual;
            },
        }
        Ok(())
    }
}

/// Selection actions keep the held count a machine number.
pub proof fn lemma_selection_wf(a: Action, s: Selection)
    requires
        s.wf(),
    ensures
        action::Action::applied(a, s).wf(),
{
}

/// The selection round trip: resizing to zero from any state — held or
/// not — drops back to visual mode with nothing held, and returning from
/// a held state snaps the target to the held source while clearing it.
pub proof fn lemma_selection_round_trip(s: Selection)
    ensures
        action::Action::applied(Action::Resize(0), s).state == State::Visual,
        action::Action::applied(Action::Resize(0), s).spec_count() == 0,
        action::Action::applied(Action::Resize(0), s).target == s.target,
        s.state matches State::Held { source, .. } ==> action::Action::applied(
            Action::Return,
            s,
        ).target == source,
        action::Action::applied(Action::Return, s).state == State::Visual,
{
}

} // verus!
