//! A verified rules engine for Klondike patience.
//!
//! The crate owns the authoritative game state (cards, piles, table), the
//! deterministic triangular dealing algorithm, the guarded-apply mechanism
//! that gates every table mutation behind a legality check, and the concrete
//! Klondike legality rules, together with the selection state machine and the
//! game-level interpreter that turns player intents into validated mutations.

pub mod action;
pub mod card;
pub mod dealer;
pub mod deck;
pub mod game;
pub mod pile;
pub mod klondike_rules;
pub mod rules;
pub mod selection;
pub mod settings;
pub mod table;
