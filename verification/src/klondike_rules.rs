//! The concrete Klondike legality rules: for each table action, whether it
//! is legal against the current table and settings, and the exact error
//! reported for the first violated precondition.

use vstd::prelude::*;

use crate::card::CardFace;
use crate::card::Facing;
use crate::card::Rank;
use crate::card::Suit;
use crate::rules::Rules;
use crate::settings::KlondikeSettings;
use crate::table::KlondikePileId;
use crate::table::KlondikeTable;
use crate::table::KlondikeTableAction;
use crate::table::TableView;

verus! {

/// The read-only context a rule check runs against, assembled by the
/// caller immediately before the guarded call.
#[derive(Debug, Copy, Clone, Eq, PartialEq, Structural)]
pub struct KlondikeRulesContext {
    pub settings: KlondikeSettings,
    pub started: bool,
}

/// Why a deal was rejected.
#[derive(Debug, Copy, Clone, Eq, PartialEq, Structural)]
pub enum DealRulesError {
    /// The target is not a tableaux pile.
    IllegalTarget { pile_id: KlondikePileId },
    /// The target pile's top card is already revealed.
    IllegalTargetFacing { facing: Facing },
    /// The target tableaux index lies outside the configured width.
    PileOutOfBounds { index: usize },
}

/// Why a reveal was rejected.
#[derive(Debug, Copy, Clone, Eq, PartialEq, Structural)]
pub enum RevealRulesError {
    /// The target is not a tableaux pile.
    IllegalTarget { pile_id: KlondikePileId },
    /// The target tableaux index lies outside the configured width.
    PileOutOfBounds { index: usize },
}

/// Which foundation requirement a move failed.
#[derive(Debug, Copy, Clone, Eq, PartialEq, Structural)]
pub enum FoundationMismatchType {
    /// An empty foundation takes only the Ace of its own suit.
    Start(Suit),
    /// An occupied foundation takes only the next rank of the same suit.
    Follow(CardFace),
}

/// Which tableaux requirement a move failed.
#[derive(Debug, Copy, Clone, Eq, PartialEq, Structural)]
pub enum TableauxMismatchType {
    /// An empty tableaux pile takes only a run led by a King.
    Start,
    /// An occupied tableaux pile takes only the next rank down in the
    /// other color.
    Follow(CardFace),
}

/// Why a move was rejected.
#[derive(Debug, Copy, Clone, Eq, PartialEq, Structural)]
pub enum MoveRulesError {
    /// A move of zero cards.
    EmptyMove,
    /// The moved card does not continue the foundation.
    FoundationMismatch { card: CardFace, mismatch: FoundationMismatchType },
    /// Moving a card out of a foundation is disabled in the settings.
    IllegalMoveFromFoundation,
    /// The source is not a pile cards may be moved from.
    IllegalSource { pile_id: KlondikePileId },
    /// The bottom card of the moved run is not face up.
    IllegalSourceFacing { facing: Facing },
    /// The target is not a pile cards may be moved to.
    IllegalTarget { pile_id: KlondikePileId },
    /// The target pile's top card is not face up.
    IllegalTargetFacing { facing: Facing },
    /// The source pile holds fewer cards than the move asks for.
    InsufficientCards,
    /// A tableaux index lies outside the configured width.
    PileOutOfBounds { index: usize },
    /// The moved run does not continue the tableaux pile.
    TableauxMismatch { card: CardFace, mismatch: TableauxMismatchType },
    /// More than one card moved to a foundation.
    TooManyCardsForTarget { pile_id: KlondikePileId },
    /// More than one card moved from a foundation or the waste.
    TooManyCardsForSource { pile_id: KlondikePileId },
}

/// Why a table action was rejected, by action kind. A draw is never
/// rejected.
#[derive(Debug, Copy, Clone, Eq, PartialEq, Structural)]
pub enum KlondikeRulesError {
    Deal(DealRulesError),
    Move(MoveRulesError),
    Reveal(RevealRulesError),
}

/// A deal is legal onto a tableaux pile within the configured width whose
/// top card, if any, is still face down.
pub open spec fn deal_legal(c: KlondikeRulesContext, v: TableView, target: KlondikePileId) -> bool {
    match target {
        KlondikePileId::Tableaux(index) => {
            &&& index < c.settings.tableaux_width
            &&& (v.pile(target).len() == 0 || v.pile(target).last().facing == Facing::FaceDown)
        },
        _ => false,
    }
}

/// The first deal precondition violated, in the order they are checked.
pub open spec fn spec_check_deal(
    c: KlondikeRulesContext,
    v: TableView,
    target: KlondikePileId,
) -> Result<(), DealRulesError> {
    match target {
        KlondikePileId::Tableaux(index) => if index >= c.settings.tableaux_width {
            Err(DealRulesError::PileOutOfBounds { index })
        } else if v.pile(target).len() > 0 && v.pile(target).last().facing != Facing::FaceDown {
            Err(DealRulesError::IllegalTargetFacing { facing: v.pile(target).last().facing })
        } else {
            Ok(())
        },
        _ => Err(DealRulesError::IllegalTarget { pile_id: target }),
    }
}

/// A reveal is legal on any tableaux pile within the configured width.
pub open spec fn reveal_legal(
    c: KlondikeRulesContext,
    v: TableView,
    target: KlondikePileId,
) -> bool {
    match target {
        KlondikePileId::Tableaux(index) => index < c.settings.tableaux_width,
        _ => false,
    }
}

/// The first reveal precondition violated, in the order they are checked.
pub open spec fn spec_check_reveal(
    c: KlondikeRulesContext,
    v: TableView,
    target: KlondikePileId,
) -> Result<(), RevealRulesError> {
    match target {
        KlondikePileId::Tableaux(index) => if index >= c.settings.tableaux_width {
            Err(RevealRulesError::PileOutOfBounds { index })
        } else {
            Ok(())
        },
        _ => Err(RevealRulesError::IllegalTarget { pile_id: target }),
    }
}

/// A move is legal when it moves a positive number of cards that the
/// source actually holds, the bottom of the moved run is face up, the
/// source kind permits the move (tableaux within width; foundation only
/// when enabled, one card; waste one card), and the target accepts the
/// run: an occupied tableaux pile whose face-up top card is one rank above
/// the run's leading card and of the other color, an empty tableaux pile
/// only for a King-led run, an occupied foundation of the same suit one
/// rank below the single moved card, or an empty foundation for the Ace of
/// its suit.
pub open spec fn move_legal(
    c: KlondikeRulesContext,
    v: TableView,
    source: KlondikePileId,
    target: KlondikePileId,
    count: int,
) -> bool {
    let s = v.pile(source);
    let moving = s[s.len() - count];
    &&& count > 0
    &&& s.len() >= count
    &&& moving.facing == Facing::FaceUp
    &&& match source {
        KlondikePileId::Tableaux(index) => index < c.settings.tableaux_width,
        KlondikePileId::Foundation(_) => c.settings.allow_move_from_foundation && count == 1,
        KlondikePileId::Waste => count == 1,
        KlondikePileId::Stock => false,
    }
    &&& match target {
        KlondikePileId::Tableaux(index) => {
            let t = v.pile(target);
            &&& index < c.settings.tableaux_width
            &&& if t.len() > 0 {
                &&& t.last().facing == Facing::FaceUp
                &&& t.last().face.rank.spec_follows(moving.face.rank)
                &&& t.last().face.suit.spec_color() != moving.face.suit.spec_color()
            } else {
                moving.face.rank == Rank::King
            }
        },
        KlondikePileId::Foundation(suit) => {
            let t = v.pile(target);
            &&& count == 1
            &&& if t.len() > 0 {
                &&& t.last().face.suit == moving.face.suit
                &&& moving.face.rank.spec_follows(t.last().face.rank)
            } else {
                moving.face.suit == suit && moving.face.rank == Rank::Ace
            }
        },
        _ => false,
    }
}

/// The first move precondition violated, in the order they are checked:
/// the shape of the move, then the source pile, then the target pile.
pub open spec fn spec_check_move(
    c: KlondikeRulesContext,
    v: TableView,
    source: KlondikePileId,
    target: KlondikePileId,
    count: int,
) -> Result<(), MoveRulesError> {
    let s = v.pile(source);
    let moving = s[s.len() - count];
    if count <= 0 {
        Err(MoveRulesError::EmptyMove)
    } else if s.len() < count {
        Err(MoveRulesError::InsufficientCards)
    } else if moving.facing != Facing::FaceUp {
        Err(MoveRulesError::IllegalSourceFacing { facing: moving.facing })
    } else {
        match source {
            KlondikePileId::Tableaux(index) => if index >= c.settings.tableaux_width {
                Err(MoveRulesError::PileOutOfBounds { index })
            } else {
                spec_check_move_target(c, v, source, target, count)
            },
            KlondikePileId::Foundation(_) => if !c.settings.allow_move_from_foundation {
                Err(MoveRulesError::IllegalMoveFromFoundation)
            } else if count != 1 {
                Err(MoveRulesError::TooManyCardsForSource { pile_id: source })
            } else {
                spec_check_move_target(c, v, source, target, count)
            },
            KlondikePileId::Waste => if count != 1 {
                Err(MoveRulesError::TooManyCardsForSource { pile_id: source })
            } else {
                spec_check_move_target(c, v, source, target, count)
            },
            KlondikePileId::Stock => Err(MoveRulesError::IllegalSource { pile_id: source }),
        }
    }
}

/// The target half of the move check, reached once the shape and the
/// source have passed.
pub open spec fn spec_check_move_target(
    c: KlondikeRulesContext,
    v: TableView,
    source: KlondikePileId,
    target: KlondikePileId,
    count: int,
) -> Result<(), MoveRulesError> {
    let s = v.pile(source);
    let moving = s[s.len() - count];
    let t = v.pile(target);
    match target {
        KlondikePileId::Tableaux(index) => if index >= c.settings.tableaux_width {
            Err(MoveRulesError::PileOutOfBounds { index })
        } else if t.len() > 0 {
            if t.last().facing != Facing::FaceUp {
                Err(MoveRulesError::IllegalTargetFacing { facing: t.last().facing })
            } else if !t.last().face.rank.spec_follows(moving.face.rank) {
                Err(
                    MoveRulesError::TableauxMismatch {
                        card: moving.face,
                        mismatch: TableauxMismatchType::Follow(t.last().face),
                    },
                )
            } else if t.last().face.suit.spec_color() == moving.face.suit.spec_color() {
                Err(
                    MoveRulesError::TableauxMismatch {
                        card: t.last().face,
                        mismatch: TableauxMismatchType::Follow(t.last().face),
                    },
                )
            } else {
                Ok(())
            }
        } else {
            if moving.face.rank != Rank::King {
                Err(
                    MoveRulesError::TableauxMismatch {
                        card: moving.face,
                        mismatch: TableauxMismatchType::Start,
                    },
                )
            } else {
                Ok(())
            }
        },
        KlondikePileId::Foundation(suit) => if count != 1 {
            Err(MoveRulesError::TooManyCardsForTarget { pile_id: target })
        } else if t.len() > 0 {
            if t.last().face.suit != moving.face.suit {
                Err(
                    MoveRulesError::FoundationMismatch {
                        card: t.last().face,
                        mismatch: FoundationMismatchType::Follow(t.last().face),
                    },
                )
            } else if !moving.face.rank.spec_follows(t.last().face.rank) {
                Err(
                    MoveRulesError::FoundationMismatch {
                        card: moving.face,
                        mismatch: FoundationMismatchType::Follow(t.last().face),
                    },
                )
            } else {
                Ok(())
            }
        } else {
            if moving.face.suit != suit {
                Err(
                    MoveRulesError::FoundationMismatch {
                        card: moving.face,
                        mismatch: FoundationMismatchType::Start(suit),
                    },
                )
            } else if moving.face.rank != Rank::Ace {
                Err(
                    MoveRulesError::FoundationMismatch {
                        card: moving.face,
                        mismatch: FoundationMismatchType::Start(suit),
                    },
                )
            } else {
                Ok(())
            }
        },
        _ => Err(MoveRulesError::IllegalTarget { pile_id: target }),
    }
}

/// Whether the Klondike rules allow a table action.
pub open spec fn klondike_legal(
    c: KlondikeRulesContext,
    v: TableView,
    action: KlondikeTableAction,
) -> bool {
    match action {
        KlondikeTableAction::Deal(target) => deal_legal(c, v, target),
        KlondikeTableAction::Draw(_) => true,
        KlondikeTableAction::Move(source, target, count) => move_legal(
            c,
            v,
            source,
            target,
            count as int,
        ),
        KlondikeTableAction::Reveal(target) => reveal_legal(c, v, target),
    }
}

/// The error the Klondike rules report for an action, by action kind.
pub open spec fn spec_check_klondike(
    c: KlondikeRulesContext,
    v: TableView,
    action: KlondikeTableAction,
) -> Result<(), KlondikeRulesError> {
    match action {
        KlondikeTableAction::Deal(target) => match spec_check_deal(c, v, target) {
            Ok(()) => Ok(()),
            Err(e) => Err(KlondikeRulesError::Deal(e)),
        },
        KlondikeTableAction::Draw(_) => Ok(()),
        KlondikeTableAction::Move(source, target, count) => match spec_check_move(
            c,
            v,
            source,
            target,
            count as int,
        ) {
            Ok(()) => Ok(()),
            Err(e) => Err(KlondikeRulesError::Move(e)),
        },
        KlondikeTableAction::Reveal(target) => match spec_check_reveal(c, v, target) {
            Ok(()) => Ok(()),
            Err(e) => Err(KlondikeRulesError::Reveal(e)),
        },
    }
}

/// The Klondike rule set.
#[derive(Debug, Copy, Clone, Eq, PartialEq, Structural, Default)]
pub struct KlondikeRules;

impl KlondikeRules {
    /// Decide whether a table action is legal, reporting the first
    /// violated precondition when it is not.
    pub fn check_rules(
        &self,
        context: &KlondikeRulesContext,
        table: &KlondikeTable,
        action: &KlondikeTableAction,
    ) -> (r: Result<(), KlondikeRulesError>)
        ensures
            r == spec_check_klondike(*context, table@, *action),
            r is Ok <==> klondike_legal(*context, table@, *action),
    {
        match *action {
            KlondikeTableAction::Deal(target) => match Self::check_deal(context, table, target) {
                Ok(()) => Ok(()),
                Err(e) => Err(KlondikeRulesError::Deal(e)),
            },
            KlondikeTableAction::Draw(_) => Ok(()),
            KlondikeTableAction::Move(source, target, count) => match Self::check_move(
                context,
                table,
                source,
                target,
                count,
            ) {
                Ok(()) => Ok(()),
                Err(e) => Err(KlondikeRulesError::Move(e)),
            },
            KlondikeTableAction::Reveal(target) => match Self::check_reveal(
                context,
                table,
                target,
            ) {
                Ok(()) => Ok(()),
                Err(e) => Err(KlondikeRulesError::Reveal(e)),
            },
        }
    }

    fn check_deal(
        context: &KlondikeRulesContext,
        table: &KlondikeTable,
        target: KlondikePileId,
    ) -> (r: Result<(), DealRulesError>)
        ensures
            r == spec_check_deal(*context, table@, target),
            r is Ok <==> deal_legal(*context, table@, target),
    {
        if let KlondikePileId::Tableaux(index) = target {
            if index >= context.settings.tableaux_width {
                return Err(DealRulesError::PileOutOfBounds { index });
            }
            if let Some(top_card) = table.top_card_at(target) {
                if !top_card.is_face_down() {
                    return Err(DealRulesError::IllegalTargetFacing { facing: top_card.facing });
                }
            }
            Ok(())
        } else {
            Err(DealRulesError::IllegalTarget { pile_id: target })
        }
    }

    fn check_reveal(
        context: &KlondikeRulesContext,
        table: &KlondikeTable,
        target: KlondikePileId,
    ) -> (r: Result<(), RevealRulesError>)
        ensures
            r == spec_check_reveal(*context, table@, target),
            r is Ok <==> reveal_legal(*context, table@, target),
    {
        if let KlondikePileId::Tableaux(index) = target {
            if index >= context.settings.tableaux_width {
                return Err(RevealRulesError::PileOutOfBounds { index });
            }
            Ok(())
        } else {
            Err(RevealRulesError::IllegalTarget { pile_id: target })
        }
    }

    fn check_move(
        context: &KlondikeRulesContext,
        table: &KlondikeTable,
        source: KlondikePileId,
        target: KlondikePileId,
        count: usize,
    ) -> (r: Result<(), MoveRulesError>)
        ensures
            r == spec_check_move(*context, table@, source, target, count as int),
            r is Ok <==> move_legal(*context, table@, source, target, count as int),
    {
        if count == 0 {
            return Err(MoveRulesError::EmptyMove);
        }
        let source_top_cards = table.pile(source).top_cards(count);
        if count != source_top_cards.len() {
            return Err(MoveRulesError::InsufficientCards);
        }
        let moving = source_top_cards[0];
        if !moving.is_face_up() {
            return Err(MoveRulesError::IllegalSourceFacing { facing: moving.facing });
        }
        match source {
            KlondikePileId::Tableaux(index) => {
                if index >= context.settings.tableaux_width {
                    return Err(MoveRulesError::PileOutOfBounds { index });
                }
            },
            KlondikePileId::Foundation(_) => {
                if !context.settings.allow_move_from_foundation {
                    return Err(MoveRulesError::IllegalMoveFromFoundation);
                }
                if count != 1 {
                    return Err(MoveRulesError::TooManyCardsForSource { pile_id: source });
                }
            },
            KlondikePileId::Waste => {
                if count != 1 {
                    return Err(MoveRulesError::TooManyCardsForSource { pile_id: source });
                }
            },
            KlondikePileId::Stock => {
                return Err(MoveRulesError::IllegalSource { pile_id: source });
            },
        }
        match target {
            KlondikePileId::Tableaux(index) => {
                if index >= context.settings.tableaux_width {
                    return Err(MoveRulesError::PileOutOfBounds { index });
                }
                if let Some(target_top_card) = table.top_card_at(target) {
                    if !target_top_card.is_face_up() {
                        return Err(
                            MoveRulesError::IllegalTargetFacing { facing: target_top_card.facing },
                        );
                    }
                    if !target_top_card.rank().follows(moving.rank()) {
                        return Err(
                            MoveRulesError::TableauxMismatch {
                                card: moving.face,
                                mismatch: TableauxMismatchType::Follow(target_top_card.face),
                            },
                        );
                    }
                    if target_top_card.color() == moving.color() {
                        return Err(
                            MoveRulesError::TableauxMismatch {
                                card: target_top_card.face,
                                mismatch: TableauxMismatchType::Follow(target_top_card.face),
                            },
                        );
                    }
                } else {
                    if !moving.is_king() {
                        return Err(
                            MoveRulesError::TableauxMismatch {
                                card: moving.face,
                                mismatch: TableauxMismatchType::Start,
                            },
                        );
                    }
                }
            },
            KlondikePileId::Foundation(suit) => {
                if count != 1 {
                    return Err(MoveRulesError::TooManyCardsForTarget { pile_id: target });
                }
                if let Some(target_top_card) = table.top_card_at(target) {
                    if target_top_card.suit() != moving.suit() {
                        return Err(
                            MoveRulesError::FoundationMismatch {
                                card: target_top_card.face,
                                mismatch: FoundationMismatchType::Follow(target_top_card.face),
                            },
                        );
                    }
                    if !moving.rank().follows(target_top_card.rank()) {
                        return Err(
                            MoveRulesError::FoundationMismatch {
                                card: moving.face,
                                mismatch: FoundationMismatchType::Follow(target_top_card.face),
                            },
                        );
                    }
                } else {
                    if moving.suit() != suit {
                        return Err(
                            MoveRulesError::FoundationMismatch {
                                card: moving.face,
                                mismatch: FoundationMismatchType::Start(suit),
                            },
                        );
                    }
                    if !moving.is_ace() {
                        return Err(
                            MoveRulesError::FoundationMismatch {
                                card: moving.face,
                                mismatch: FoundationMismatchType::Start(suit),
                            },
                        );
                    }
                }
            },
            _ => {
                return Err(MoveRulesError::IllegalTarget { pile_id: target });
            },
        }
        Ok(())
    }
}

impl Rules<KlondikeRulesContext, KlondikeTable, KlondikeTableAction> for KlondikeRules {
    type Error = KlondikeRulesError;

    open spec fn allows(
        &self,
        context: KlondikeRulesContext,
        target: TableView,
        action: KlondikeTableAction,
    ) -> bool {
        klondike_legal(context, target, action)
    }

    open spec fn denial(
        &self,
        context: KlondikeRulesContext,
        target: TableView,
        action: KlondikeTableAction,
    ) -> KlondikeRulesError {
        match spec_check_klondike(context, target, action) {
            Ok(()) => arbitrary(),
            Err(e) => e,
        }
    }

    fn validate(
        &self,
        context: &KlondikeRulesContext,
        target: &KlondikeTable,
        action: &KlondikeTableAction,
    ) -> (r: Result<(), KlondikeRulesError>) {
        self.check_rules(context, target, action)
    }
}

} // verus!
