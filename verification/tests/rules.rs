use klondike::action::Action;
use klondike::card::Facing;
use klondike::card::Rank;
use klondike::card::Suit;
use klondike::klondike_rules::DealRulesError;
use klondike::klondike_rules::FoundationMismatchType;
use klondike::klondike_rules::KlondikeRules;
use klondike::klondike_rules::KlondikeRulesContext;
use klondike::klondike_rules::KlondikeRulesError;
use klondike::klondike_rules::MoveRulesError;
use klondike::klondike_rules::RevealRulesError;
use klondike::klondike_rules::TableauxMismatchType;
use klondike::rules::CompoundRules;
use klondike::rules::Rules;
use klondike::rules::RulesGuard;
use klondike::rules::RulesGuardError;
use klondike::settings::KlondikeSettings;
use klondike::table::KlondikeActionError;
use klondike::table::KlondikePileId;
use klondike::table::KlondikeTable;
use klondike::table::KlondikeTableAction;

fn context() -> KlondikeRulesContext {
    KlondikeRulesContext {
        settings: KlondikeSettings {
            allow_move_from_foundation: true,
            tableaux_width: 7,
        },
        started: true,
    }
}

/// A table whose stock holds the given faces, bottom to top, face down.
fn table_with_stock(faces: Vec<klondike::card::CardFace>) -> KlondikeTable {
    let cards = faces.into_iter().map(|face| face.face_down()).collect();
    KlondikeTable::new_with_cards(cards)
}

/// Deal the stock's top card onto the pile and turn it face up. This uses
/// the raw table actions, so it can build positions the rules would not
/// allow in play.
fn deal_face_up(table: &mut KlondikeTable, pile_id: KlondikePileId) {
    KlondikeTableAction::Deal(pile_id).apply_to(table).unwrap();
    KlondikeTableAction::Reveal(pile_id).apply_to(table).unwrap();
}

fn check(
    table: &KlondikeTable,
    action: KlondikeTableAction,
) -> Result<(), KlondikeRulesError> {
    KlondikeRules.check_rules(&context(), table, &action)
}

#[test]
fn black_jack_is_rejected_on_an_empty_tableaux_pile() {
    let jack = Rank::Jack.of(Suit::Spades);
    let mut table = table_with_stock(vec![jack]);
    deal_face_up(&mut table, KlondikePileId::Tableaux(0));

    let action =
        KlondikeTableAction::Move(KlondikePileId::Tableaux(0), KlondikePileId::Tableaux(1), 1);
    assert_eq!(
        check(&table, action),
        Err(KlondikeRulesError::Move(MoveRulesError::TableauxMismatch {
            card: jack,
            mismatch: TableauxMismatchType::Start,
        }))
    );
}

#[test]
fn black_jack_is_accepted_on_a_red_queen() {
    let queen = Rank::Queen.of(Suit::Hearts);
    let jack = Rank::Jack.of(Suit::Spades);
    // The stock's top card is dealt first, so the jack goes on top.
    let mut table = table_with_stock(vec![queen, jack]);
    deal_face_up(&mut table, KlondikePileId::Tableaux(0));
    deal_face_up(&mut table, KlondikePileId::Tableaux(1));

    let action =
        KlondikeTableAction::Move(KlondikePileId::Tableaux(0), KlondikePileId::Tableaux(1), 1);
    assert_eq!(check(&table, action), Ok(()));
}

#[test]
fn ace_of_spades_starts_its_foundation_but_the_two_does_not() {
    let two = Rank::Two.of(Suit::Spades);
    let ace = Rank::Ace.of(Suit::Spades);
    let mut table = table_with_stock(vec![two, ace]);
    deal_face_up(&mut table, KlondikePileId::Tableaux(0));
    deal_face_up(&mut table, KlondikePileId::Tableaux(1));

    let spades = KlondikePileId::Foundation(Suit::Spades);
    let move_ace = KlondikeTableAction::Move(KlondikePileId::Tableaux(0), spades, 1);
    let move_two = KlondikeTableAction::Move(KlondikePileId::Tableaux(1), spades, 1);

    assert_eq!(check(&table, move_ace), Ok(()));
    assert_eq!(
        check(&table, move_two),
        Err(KlondikeRulesError::Move(MoveRulesError::FoundationMismatch {
            card: two,
            mismatch: FoundationMismatchType::Start(Suit::Spades),
        }))
    );

    // Once the ace is placed, the two continues the foundation.
    move_ace.apply_to(&mut table).unwrap();
    assert_eq!(check(&table, move_two), Ok(()));
}

#[test]
fn deal_rules_reject_bad_targets() {
    let ace = Rank::Ace.of(Suit::Clubs);
    let mut table = table_with_stock(vec![ace, Rank::Two.of(Suit::Clubs)]);
    assert_eq!(
        check(&table, KlondikeTableAction::Deal(KlondikePileId::Waste)),
        Err(KlondikeRulesError::Deal(DealRulesError::IllegalTarget {
            pile_id: KlondikePileId::Waste,
        }))
    );
    assert_eq!(
        check(&table, KlondikeTableAction::Deal(KlondikePileId::Tableaux(7))),
        Err(KlondikeRulesError::Deal(DealRulesError::PileOutOfBounds { index: 7 }))
    );
    assert_eq!(
        check(&table, KlondikeTableAction::Deal(KlondikePileId::Tableaux(0))),
        Ok(())
    );
    deal_face_up(&mut table, KlondikePileId::Tableaux(0));
    assert_eq!(
        check(&table, KlondikeTableAction::Deal(KlondikePileId::Tableaux(0))),
        Err(KlondikeRulesError::Deal(DealRulesError::IllegalTargetFacing {
            facing: Facing::FaceUp,
        }))
    );
}

#[test]
fn reveal_rules_accept_only_tableaux_piles_within_the_width() {
    let table = table_with_stock(vec![Rank::Ace.of(Suit::Clubs)]);
    assert_eq!(
        check(&table, KlondikeTableAction::Reveal(KlondikePileId::Tableaux(3))),
        Ok(())
    );
    assert_eq!(
        check(&table, KlondikeTableAction::Reveal(KlondikePileId::Stock)),
        Err(KlondikeRulesError::Reveal(RevealRulesError::IllegalTarget {
            pile_id: KlondikePileId::Stock,
        }))
    );
    assert_eq!(
        check(&table, KlondikeTableAction::Reveal(KlondikePileId::Tableaux(9))),
        Err(KlondikeRulesError::Reveal(RevealRulesError::PileOutOfBounds { index: 9 }))
    );
}

#[test]
fn draw_is_always_legal() {
    let table = table_with_stock(Vec::new());
    assert_eq!(check(&table, KlondikeTableAction::Draw(0)), Ok(()));
    assert_eq!(check(&table, KlondikeTableAction::Draw(5)), Ok(()));
}

#[test]
fn move_shape_errors_come_first() {
    let ace = Rank::Ace.of(Suit::Spades);
    let mut table = table_with_stock(vec![ace, Rank::Two.of(Suit::Spades)]);
    let t0 = KlondikePileId::Tableaux(0);
    let t1 = KlondikePileId::Tableaux(1);

    assert_eq!(
        check(&table, KlondikeTableAction::Move(t0, t1, 0)),
        Err(KlondikeRulesError::Move(MoveRulesError::EmptyMove))
    );
    assert_eq!(
        check(&table, KlondikeTableAction::Move(t0, t1, 1)),
        Err(KlondikeRulesError::Move(MoveRulesError::InsufficientCards))
    );

    // A face-down top card cannot be moved.
    KlondikeTableAction::Deal(t0).apply_to(&mut table).unwrap();
    assert_eq!(
        check(&table, KlondikeTableAction::Move(t0, t1, 1)),
        Err(KlondikeRulesError::Move(MoveRulesError::IllegalSourceFacing {
            facing: Facing::FaceDown,
        }))
    );
}

#[test]
fn move_source_kind_errors() {
    let t0 = KlondikePileId::Tableaux(0);

    // A source tableaux index outside the width, with a face-up card on it.
    let mut table = table_with_stock(vec![Rank::Ace.of(Suit::Spades)]);
    deal_face_up(&mut table, KlondikePileId::Tableaux(9));
    assert_eq!(
        check(&table, KlondikeTableAction::Move(KlondikePileId::Tableaux(9), t0, 1)),
        Err(KlondikeRulesError::Move(MoveRulesError::PileOutOfBounds { index: 9 }))
    );

    // The stock is never a legal source, even with a face-up top card.
    let mut table = table_with_stock(vec![Rank::Ace.of(Suit::Spades)]);
    KlondikeTableAction::Reveal(KlondikePileId::Stock).apply_to(&mut table).unwrap();
    assert_eq!(
        check(&table, KlondikeTableAction::Move(KlondikePileId::Stock, t0, 1)),
        Err(KlondikeRulesError::Move(MoveRulesError::IllegalSource {
            pile_id: KlondikePileId::Stock,
        }))
    );

    // At most one card may leave the waste at a time.
    let mut table = table_with_stock(vec![
        Rank::Five.of(Suit::Clubs),
        Rank::Four.of(Suit::Hearts),
    ]);
    KlondikeTableAction::Draw(2).apply_to(&mut table).unwrap();
    assert_eq!(
        check(&table, KlondikeTableAction::Move(KlondikePileId::Waste, t0, 2)),
        Err(KlondikeRulesError::Move(MoveRulesError::TooManyCardsForSource {
            pile_id: KlondikePileId::Waste,
        }))
    );
}

#[test]
fn move_from_foundation_respects_the_setting() {
    // Pile 0 ends with a red two under the black ace, so that taking the
    // ace back out of the foundation has a legal landing place.
    let mut table = table_with_stock(vec![
        Rank::Ace.of(Suit::Spades),
        Rank::Two.of(Suit::Hearts),
    ]);
    deal_face_up(&mut table, KlondikePileId::Tableaux(0));
    deal_face_up(&mut table, KlondikePileId::Tableaux(0));
    let spades = KlondikePileId::Foundation(Suit::Spades);
    KlondikeTableAction::Move(KlondikePileId::Tableaux(0), spades, 1)
        .apply_to(&mut table)
        .unwrap();

    let take_back = KlondikeTableAction::Move(spades, KlondikePileId::Tableaux(0), 1);
    assert_eq!(check(&table, take_back), Ok(()));

    let mut strict = context();
    strict.settings.allow_move_from_foundation = false;
    assert_eq!(
        KlondikeRules.check_rules(&strict, &table, &take_back),
        Err(KlondikeRulesError::Move(MoveRulesError::IllegalMoveFromFoundation))
    );
}

#[test]
fn move_target_errors() {
    let faces = vec![
        Rank::Ace.of(Suit::Spades),
        Rank::Ten.of(Suit::Spades),
        Rank::Queen.of(Suit::Hearts),
        Rank::Jack.of(Suit::Clubs),
    ];
    let mut table = table_with_stock(faces);
    let t0 = KlondikePileId::Tableaux(0);
    let t1 = KlondikePileId::Tableaux(1);
    let t2 = KlondikePileId::Tableaux(2);
    let t3 = KlondikePileId::Tableaux(3);

    deal_face_up(&mut table, t0); // black jack
    deal_face_up(&mut table, t1); // red queen
    deal_face_up(&mut table, t2); // black ten
    KlondikeTableAction::Deal(t3).apply_to(&mut table).unwrap(); // face-down ace

    assert_eq!(
        check(&table, KlondikeTableAction::Move(t0, KlondikePileId::Tableaux(9), 1)),
        Err(KlondikeRulesError::Move(MoveRulesError::PileOutOfBounds { index: 9 }))
    );
    assert_eq!(
        check(&table, KlondikeTableAction::Move(t0, KlondikePileId::Waste, 1)),
        Err(KlondikeRulesError::Move(MoveRulesError::IllegalTarget {
            pile_id: KlondikePileId::Waste,
        }))
    );
    assert_eq!(
        check(&table, KlondikeTableAction::Move(t0, t3, 1)),
        Err(KlondikeRulesError::Move(MoveRulesError::IllegalTargetFacing {
            facing: Facing::FaceDown,
        }))
    );
    // The jack does not follow the queen by one rank upward.
    assert_eq!(
        check(&table, KlondikeTableAction::Move(t1, t0, 1)),
        Err(KlondikeRulesError::Move(MoveRulesError::TableauxMismatch {
            card: Rank::Queen.of(Suit::Hearts),
            mismatch: TableauxMismatchType::Follow(Rank::Jack.of(Suit::Clubs)),
        }))
    );
    // The black ten follows the black jack in rank but not in color.
    assert_eq!(
        check(&table, KlondikeTableAction::Move(t2, t0, 1)),
        Err(KlondikeRulesError::Move(MoveRulesError::TableauxMismatch {
            card: Rank::Jack.of(Suit::Clubs),
            mismatch: TableauxMismatchType::Follow(Rank::Jack.of(Suit::Clubs)),
        }))
    );
    // The red ten on the black jack is a legal continuation.
    assert_eq!(
        check(
            &table,
            KlondikeTableAction::Move(t1, KlondikePileId::Tableaux(5), 1)
        ),
        Err(KlondikeRulesError::Move(MoveRulesError::TableauxMismatch {
            card: Rank::Queen.of(Suit::Hearts),
            mismatch: TableauxMismatchType::Start,
        }))
    );
}

#[test]
fn foundation_target_errors() {
    let faces = vec![
        Rank::Three.of(Suit::Spades),
        Rank::Two.of(Suit::Hearts),
        Rank::Ace.of(Suit::Spades),
    ];
    let mut table = table_with_stock(faces);
    let t0 = KlondikePileId::Tableaux(0);
    let t1 = KlondikePileId::Tableaux(1);
    let t2 = KlondikePileId::Tableaux(2);
    let spades = KlondikePileId::Foundation(Suit::Spades);
    let hearts = KlondikePileId::Foundation(Suit::Hearts);

    deal_face_up(&mut table, t0); // ace of spades
    deal_face_up(&mut table, t1); // two of hearts
    deal_face_up(&mut table, t2); // three of spades

    // An ace belongs to its own suit's foundation.
    assert_eq!(
        check(&table, KlondikeTableAction::Move(t0, hearts, 1)),
        Err(KlondikeRulesError::Move(MoveRulesError::FoundationMismatch {
            card: Rank::Ace.of(Suit::Spades),
            mismatch: FoundationMismatchType::Start(Suit::Hearts),
        }))
    );

    KlondikeTableAction::Move(t0, spades, 1).apply_to(&mut table).unwrap();

    // Wrong suit on an occupied foundation.
    assert_eq!(
        check(&table, KlondikeTableAction::Move(t1, spades, 1)),
        Err(KlondikeRulesError::Move(MoveRulesError::FoundationMismatch {
            card: Rank::Ace.of(Suit::Spades),
            mismatch: FoundationMismatchType::Follow(Rank::Ace.of(Suit::Spades)),
        }))
    );
    // Right suit, wrong rank.
    assert_eq!(
        check(&table, KlondikeTableAction::Move(t2, spades, 1)),
        Err(KlondikeRulesError::Move(MoveRulesError::FoundationMismatch {
            card: Rank::Three.of(Suit::Spades),
            mismatch: FoundationMismatchType::Follow(Rank::Ace.of(Suit::Spades)),
        }))
    );
}

#[test]
fn only_one_card_may_reach_a_foundation_at_a_time() {
    let ace = Rank::Ace.of(Suit::Spades);
    let two = Rank::Two.of(Suit::Spades);
    let mut table = table_with_stock(vec![two, ace]);
    let t0 = KlondikePileId::Tableaux(0);

    // Build a two-card face-up run on one pile, bypassing the deal rules.
    deal_face_up(&mut table, t0);
    deal_face_up(&mut table, t0);

    assert_eq!(
        check(
            &table,
            KlondikeTableAction::Move(t0, KlondikePileId::Foundation(Suit::Spades), 2)
        ),
        Err(KlondikeRulesError::Move(MoveRulesError::TooManyCardsForTarget {
            pile_id: KlondikePileId::Foundation(Suit::Spades),
        }))
    );
}

#[test]
fn guard_distinguishes_rule_errors_from_action_errors() {
    // A move the rules reject: the guard reports a rule error and leaves
    // the table unmutated.
    let ace = Rank::Ace.of(Suit::Spades);
    let table = table_with_stock(vec![ace]);
    let mut guard = RulesGuard::new(KlondikeRules, table);
    let illegal =
        KlondikeTableAction::Move(KlondikePileId::Tableaux(0), KlondikePileId::Tableaux(1), 0);
    match guard.apply_guarded(illegal, &context()) {
        Err(RulesGuardError::RuleError { action, source }) => {
            assert_eq!(action, illegal);
            assert_eq!(source, KlondikeRulesError::Move(MoveRulesError::EmptyMove));
        }
        other => panic!("expected a rule error, got {:?}", other),
    }
    assert_eq!(guard.target().pile_len(KlondikePileId::Stock), 1);

    // A deal the rules accept but the mechanics cannot complete: the
    // guard reports an action error instead.
    let empty = KlondikeTable::new_with_cards(Vec::new());
    let mut guard = RulesGuard::new(KlondikeRules, empty);
    let deal = KlondikeTableAction::Deal(KlondikePileId::Tableaux(0));
    match guard.apply_guarded(deal, &context()) {
        Err(RulesGuardError::ActionError { action, source }) => {
            assert_eq!(action, deal);
            assert_eq!(source, KlondikeActionError::EmptyStock);
        }
        other => panic!("expected an action error, got {:?}", other),
    }
}

#[test]
fn compound_rules_require_every_constituent_to_agree() {
    let ace = Rank::Ace.of(Suit::Spades);
    let mut table = table_with_stock(vec![ace]);
    deal_face_up(&mut table, KlondikePileId::Tableaux(0));

    let compound = CompoundRules::new(vec![KlondikeRules, KlondikeRules]);
    let legal =
        KlondikeTableAction::Move(KlondikePileId::Tableaux(0), KlondikePileId::Foundation(Suit::Spades), 1);
    let illegal = KlondikeTableAction::Move(KlondikePileId::Tableaux(0), KlondikePileId::Stock, 1);

    assert_eq!(compound.validate(&context(), &table, &legal), Ok(()));
    assert_eq!(
        compound.validate(&context(), &table, &illegal),
        Err(KlondikeRulesError::Move(MoveRulesError::IllegalTarget {
            pile_id: KlondikePileId::Stock,
        }))
    );

    // An empty compound allows everything.
    let permissive: CompoundRules<KlondikeRules> = CompoundRules::new(Vec::new());
    assert_eq!(permissive.validate(&context(), &table, &illegal), Ok(()));
}
