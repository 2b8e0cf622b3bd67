//! Per-game configuration.

use vstd::prelude::*;

verus! {

/// Immutable per-game configuration: whether a card may be moved back out
/// of a foundation pile, and how many tableaux piles are dealt at setup.
#[derive(Debug, Copy, Clone, Eq, PartialEq, Structural)]
pub struct KlondikeSettings {
    pub allow_move_from_foundation: bool,
    pub tableaux_width: usize,
}

impl Default for KlondikeSettings {
    /// The standard Klondike layout: seven tableaux piles, and moving out
    /// of a foundation allowed.
    fn default() -> (s: Self)
        ensures
            s == (KlondikeSettings { allow_move_from_foundation: true, tableaux_width: 7 }),
    {
        Self { allow_move_from_foundation: true, tableaux_width: 7 }
    }
}

} // verus!
