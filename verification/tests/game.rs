use klondike::card::Suit;
use klondike::dealer::KlondikeDealer;
use klondike::deck::NoShuffle;
use klondike::game::DealAction;
use klondike::game::Game;
use klondike::game::GameAction;
use klondike::game::TableAction;
use klondike::klondike_rules::KlondikeRules;
use klondike::settings::KlondikeSettings;
use klondike::table::KlondikePileId;
use klondike::table::KlondikeTableAction;

fn new_game() -> Game<NoShuffle> {
    Game::new(
        KlondikeDealer,
        KlondikeRules,
        KlondikeSettings::default(),
        NoShuffle,
    )
}

fn total_cards(game: &Game<NoShuffle>) -> usize {
    let table = game.table();
    let mut total = table.pile_len(KlondikePileId::Stock) + table.pile_len(KlondikePileId::Waste);
    for suit in [Suit::Spades, Suit::Hearts, Suit::Diamonds, Suit::Clubs] {
        total += table.pile_len(KlondikePileId::Foundation(suit));
    }
    for index in 0..game.settings().tableaux_width {
        total += table.pile_len(KlondikePileId::Tableaux(index));
    }
    total
}

#[test]
fn a_new_game_holds_the_whole_deck_in_the_stock() {
    let game = new_game();
    assert!(!game.is_started());
    assert_eq!(game.table().pile_len(KlondikePileId::Stock), 52);
    assert_eq!(game.table().pile_len(KlondikePileId::Waste), 0);
    assert!(game.table().pile(KlondikePileId::Stock).is_face_down());
    assert_eq!(total_cards(&game), 52);
}

#[test]
fn dealing_through_the_game_sets_up_the_tableaux() {
    let mut game = new_game();
    GameAction::Start.apply_to(&mut game);
    assert!(game.is_started());

    // One dealing step per action: 28 deals, 7 reveals, then the cursor
    // is exhausted and further steps change nothing.
    for _ in 0..40 {
        DealAction.apply_to(&mut game).expect("setup actions are legal");
        assert_eq!(total_cards(&game), 52);
    }
    for index in 0..7 {
        let pile = game.table().pile(KlondikePileId::Tableaux(index));
        assert_eq!(pile.len(), index + 1);
        assert_eq!(pile.top_face_up_cards().len(), 1);
    }
    assert_eq!(game.table().pile_len(KlondikePileId::Stock), 24);
}

#[test]
fn clear_restores_a_fresh_table() {
    let mut game = new_game();
    GameAction::Start.apply_to(&mut game);
    for _ in 0..10 {
        DealAction.apply_to(&mut game).unwrap();
    }
    assert!(game.table().pile_len(KlondikePileId::Stock) < 52);

    GameAction::Clear.apply_to(&mut game);
    assert!(!game.is_started());
    assert_eq!(game.table().pile_len(KlondikePileId::Stock), 52);
    assert_eq!(total_cards(&game), 52);
}

#[test]
fn draw_intent_moves_cards_to_the_waste() {
    let mut game = new_game();
    game.draw(3).expect("drawing is always legal");
    assert_eq!(game.table().pile_len(KlondikePileId::Stock), 49);
    assert_eq!(game.table().pile_len(KlondikePileId::Waste), 3);
    assert!(game.table().pile(KlondikePileId::Waste).is_face_up());
}

#[test]
fn table_action_intents_pass_through_the_rules() {
    let mut game = new_game();
    // Dealing onto the waste is against the rules, so nothing moves.
    let result = TableAction(KlondikeTableAction::Deal(KlondikePileId::Waste)).apply_to(&mut game);
    assert!(result.is_err());
    assert_eq!(game.table().pile_len(KlondikePileId::Stock), 52);
    assert_eq!(game.table().pile_len(KlondikePileId::Waste), 0);
}

#[test]
fn place_move_clears_the_selection_even_when_the_move_is_rejected() {
    let mut game = new_game();
    // Hold a card from the (empty) waste and aim at a tableaux pile: the
    // move cannot be legal.
    game.take_from_waste();
    game.go_to(KlondikePileId::Tableaux(0));
    assert_eq!(game.selection().count(), 1);

    let result = game.place_move();
    assert!(result.is_err());

    // The table is untouched and the held selection was still released.
    assert_eq!(game.table().pile_len(KlondikePileId::Waste), 0);
    assert_eq!(game.table().pile_len(KlondikePileId::Tableaux(0)), 0);
    assert_eq!(game.selection().count(), 0);
    assert_eq!(game.selection().target(), KlondikePileId::Tableaux(0));
}

#[test]
fn place_move_moves_a_legal_run() {
    let mut game = new_game();
    // Set up the tableaux, then draw; with an unshuffled deck the deal is
    // deterministic, so just exercise a legal selection round: select the
    // revealed card on pile 6 and return it to itself (source == target
    // leaves the table unchanged but still clears the selection).
    GameAction::Start.apply_to(&mut game);
    for _ in 0..35 {
        DealAction.apply_to(&mut game).unwrap();
    }
    game.go_to(KlondikePileId::Tableaux(6));
    game.select_all();
    assert_eq!(game.selection().count(), 1);
    let result = game.place_move();
    assert!(result.is_ok());
    assert_eq!(game.selection().count(), 0);
    assert_eq!(total_cards(&game), 52);
}

#[test]
fn select_more_and_less_saturate() {
    let mut game = new_game();
    game.go_to(KlondikePileId::Tableaux(0));
    game.select_less();
    assert_eq!(game.selection().count(), 0);
    game.select_more();
    game.select_more();
    assert_eq!(game.selection().count(), 2);
    game.select_less();
    assert_eq!(game.selection().count(), 1);
}

#[test]
fn select_all_holds_the_face_up_run() {
    let mut game = new_game();
    GameAction::Start.apply_to(&mut game);
    for _ in 0..35 {
        DealAction.apply_to(&mut game).unwrap();
    }
    // After setup each pile shows exactly its top card.
    game.go_to(KlondikePileId::Tableaux(4));
    game.select_all();
    assert_eq!(game.selection().count(), 1);
    // The stock is all face down: selecting all there holds nothing.
    game.go_to(KlondikePileId::Stock);
    game.select_all();
    assert_eq!(game.selection().count(), 0);
}

#[test]
fn cancel_move_returns_to_the_source() {
    let mut game = new_game();
    game.take_from_waste();
    game.go_to(KlondikePileId::Tableaux(5));
    game.cancel_move();
    assert_eq!(game.selection().target(), KlondikePileId::Waste);
    assert_eq!(game.selection().count(), 0);
}

#[test]
fn reveal_top_respects_the_rules() {
    let mut game = new_game();
    game.go_to(KlondikePileId::Waste);
    assert!(game.reveal_top().is_err());
    game.go_to(KlondikePileId::Tableaux(0));
    assert!(game.reveal_top().is_ok());
}

#[test]
fn send_to_foundation_releases_one_held_card() {
    let mut game = new_game();
    // With nothing on the waste, sending from an empty source does
    // nothing at all.
    game.take_from_waste();
    let result = game.send_to_foundation();
    assert!(result.is_ok());
    assert_eq!(game.selection().count(), 1);

    // Draw a card and try to send it: the selection lets go of its card
    // whether or not the foundation accepted the move.
    game.draw(1).unwrap();
    let before = game.selection().count();
    let _ = game.send_to_foundation();
    assert_eq!(game.selection().count(), before - 1);
    assert_eq!(total_cards(&game), 52);
}
