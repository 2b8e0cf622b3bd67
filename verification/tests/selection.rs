use klondike::action::Action as _;
use klondike::selection::Action;
use klondike::selection::Selection;
use klondike::table::KlondikePileId;

fn apply(selection: &mut Selection, action: Action) {
    action.apply_to(selection).expect("selection actions are total");
}

#[test]
fn a_fresh_selection_targets_the_stock_holding_nothing() {
    let selection = Selection::new();
    assert_eq!(selection.target(), KlondikePileId::Stock);
    assert_eq!(selection.source(), KlondikePileId::Stock);
    assert_eq!(selection.count(), 0);
}

#[test]
fn go_to_changes_the_target_and_keeps_the_held_state() {
    let mut selection = Selection::new();
    apply(&mut selection, Action::Hold(KlondikePileId::Waste, 2));
    apply(&mut selection, Action::GoTo(KlondikePileId::Tableaux(3)));
    assert_eq!(selection.target(), KlondikePileId::Tableaux(3));
    assert_eq!(selection.source(), KlondikePileId::Waste);
    assert_eq!(selection.count(), 2);
}

#[test]
fn resize_holds_from_the_current_target_when_nothing_was_held() {
    let mut selection = Selection::new();
    apply(&mut selection, Action::GoTo(KlondikePileId::Tableaux(1)));
    apply(&mut selection, Action::Resize(3));
    assert_eq!(selection.count(), 3);
    assert_eq!(selection.source(), KlondikePileId::Tableaux(1));

    // Resizing a held selection keeps its source.
    apply(&mut selection, Action::GoTo(KlondikePileId::Tableaux(4)));
    apply(&mut selection, Action::Resize(1));
    assert_eq!(selection.count(), 1);
    assert_eq!(selection.source(), KlondikePileId::Tableaux(1));
}

#[test]
fn resize_to_zero_returns_to_visual_from_any_held_state() {
    let mut selection = Selection::new();
    apply(&mut selection, Action::Hold(KlondikePileId::Tableaux(2), 5));
    assert_eq!(selection.count(), 5);
    apply(&mut selection, Action::Resize(0));
    assert_eq!(selection.count(), 0);
    // With nothing held, the source falls back to the target.
    assert_eq!(selection.source(), selection.target());

    // Resize(0) in visual mode stays visual.
    apply(&mut selection, Action::Resize(0));
    assert_eq!(selection.count(), 0);
}

#[test]
fn return_snaps_the_target_back_to_the_held_source() {
    let mut selection = Selection::new();
    apply(&mut selection, Action::Hold(KlondikePileId::Waste, 1));
    apply(&mut selection, Action::GoTo(KlondikePileId::Tableaux(6)));
    apply(&mut selection, Action::Return);
    assert_eq!(selection.target(), KlondikePileId::Waste);
    assert_eq!(selection.count(), 0);

    // Return in visual mode keeps the target and stays visual.
    apply(&mut selection, Action::GoTo(KlondikePileId::Tableaux(2)));
    apply(&mut selection, Action::Return);
    assert_eq!(selection.target(), KlondikePileId::Tableaux(2));
    assert_eq!(selection.count(), 0);
}

#[test]
fn hold_overrides_the_source_only_when_cards_are_held() {
    let mut selection = Selection::new();
    apply(&mut selection, Action::Hold(KlondikePileId::Waste, 0));
    assert_eq!(selection.count(), 0);
    assert_eq!(selection.source(), KlondikePileId::Stock);

    apply(&mut selection, Action::Hold(KlondikePileId::Waste, 1));
    assert_eq!(selection.count(), 1);
    assert_eq!(selection.source(), KlondikePileId::Waste);
}
