use klondike::action::Action;
use klondike::action::Actionable;
use klondike::card::Rank;
use klondike::card::Suit;
use klondike::dealer::KlondikeDealer;
use klondike::dealer::KlondikeDealerContext;
use klondike::deck::Deck;
use klondike::table::KlondikeActionError;
use klondike::table::KlondikePileId;
use klondike::table::KlondikeTable;
use klondike::table::KlondikeTableAction;

fn full_table() -> KlondikeTable {
    KlondikeTable::new_with_cards(Deck::new().into_cards())
}

fn total_cards(table: &KlondikeTable, tableaux_width: usize) -> usize {
    let mut total = table.pile_len(KlondikePileId::Stock) + table.pile_len(KlondikePileId::Waste);
    for suit in [Suit::Spades, Suit::Hearts, Suit::Diamonds, Suit::Clubs] {
        total += table.pile_len(KlondikePileId::Foundation(suit));
    }
    for index in 0..tableaux_width {
        total += table.pile_len(KlondikePileId::Tableaux(index));
    }
    total
}

#[test]
fn dealing_the_full_triangle_builds_the_tableaux() {
    let mut table = full_table();
    let dealer = KlondikeDealer;
    let mut dealer_iter = dealer.deal(KlondikeDealerContext { tableaux_width: 7 });

    while let Some(action) = dealer_iter.next() {
        action.apply_to(&mut table).expect("setup actions apply to a full stock");
        // Card conservation: the table always holds the whole deck.
        assert_eq!(total_cards(&table, 7), 52);
    }

    // Pile i ends with i + 1 cards, with only its top card face up.
    for index in 0..7 {
        let pile = table.pile(KlondikePileId::Tableaux(index));
        assert_eq!(pile.len(), index + 1);
        assert_eq!(pile.top_face_up_cards().len(), 1);
    }
    assert_eq!(table.pile_len(KlondikePileId::Stock), 52 - 28);
    assert_eq!(table.pile_len(KlondikePileId::Waste), 0);
}

#[test]
fn deal_moves_the_stock_top_card_face_down() {
    let mut table = full_table();
    let top = table.top_card_at(KlondikePileId::Stock).unwrap();
    KlondikeTableAction::Deal(KlondikePileId::Tableaux(3))
        .apply_to(&mut table)
        .unwrap();
    assert_eq!(table.pile_len(KlondikePileId::Stock), 51);
    assert_eq!(table.top_card_at(KlondikePileId::Tableaux(3)), Some(top));
    assert!(top.is_face_down());
}

#[test]
fn deal_from_an_empty_stock_fails_without_mutating() {
    let mut table = KlondikeTable::new_with_cards(Vec::new());
    let result = KlondikeTableAction::Deal(KlondikePileId::Tableaux(0)).apply_to(&mut table);
    assert_eq!(result, Err(KlondikeActionError::EmptyStock));
    assert_eq!(total_cards(&table, 7), 0);
}

#[test]
fn draw_flips_cards_into_the_waste() {
    let mut table = full_table();
    let top = table.top_card_at(KlondikePileId::Stock).unwrap();
    KlondikeTableAction::Draw(3).apply_to(&mut table).unwrap();
    assert_eq!(table.pile_len(KlondikePileId::Stock), 49);
    assert_eq!(table.pile_len(KlondikePileId::Waste), 3);
    // The stock's former top card lands at the bottom of the drawn run,
    // turned face up.
    let waste = table.pile(KlondikePileId::Waste);
    assert_eq!(waste.top_cards(3)[0], top.face_up());
    assert!(waste.is_face_up());
}

#[test]
fn draw_on_an_empty_stock_recycles_the_waste() {
    let two = Rank::Two.of(Suit::Hearts).face_down();
    let ace = Rank::Ace.of(Suit::Spades).face_down();
    let mut table = KlondikeTable::new_with_cards(vec![two, ace]);
    KlondikeTableAction::Draw(2).apply_to(&mut table).unwrap();
    assert_eq!(table.pile_len(KlondikePileId::Stock), 0);
    assert_eq!(table.pile_len(KlondikePileId::Waste), 2);

    KlondikeTableAction::Draw(1).apply_to(&mut table).unwrap();
    // The whole waste went back, reversed and face down again.
    assert_eq!(table.pile_len(KlondikePileId::Stock), 2);
    assert_eq!(table.pile_len(KlondikePileId::Waste), 0);
    assert_eq!(table.top_card_at(KlondikePileId::Stock), Some(ace));
    assert!(table.pile(KlondikePileId::Stock).is_face_down());
}

#[test]
fn move_of_more_cards_than_held_fails_without_mutating() {
    let mut table = full_table();
    let result = KlondikeTableAction::Move(
        KlondikePileId::Waste,
        KlondikePileId::Tableaux(0),
        1,
    )
    .apply_to(&mut table);
    assert_eq!(result, Err(KlondikeActionError::InsufficientCards));
    assert_eq!(table.pile_len(KlondikePileId::Stock), 52);
    assert_eq!(total_cards(&table, 7), 52);
}

#[test]
fn move_carries_a_run_between_piles() {
    let mut table = full_table();
    KlondikeTableAction::Deal(KlondikePileId::Tableaux(0)).apply_to(&mut table).unwrap();
    KlondikeTableAction::Deal(KlondikePileId::Tableaux(0)).apply_to(&mut table).unwrap();
    let run = table.pile(KlondikePileId::Tableaux(0)).top_cards(2);
    KlondikeTableAction::Move(KlondikePileId::Tableaux(0), KlondikePileId::Tableaux(4), 2)
        .apply_to(&mut table)
        .unwrap();
    assert_eq!(table.pile_len(KlondikePileId::Tableaux(0)), 0);
    assert_eq!(table.pile(KlondikePileId::Tableaux(4)).top_cards(2), run);
    assert_eq!(total_cards(&table, 7), 52);
}

#[test]
fn reveal_turns_the_top_card_face_up() {
    let mut table = full_table();
    KlondikeTableAction::Deal(KlondikePileId::Tableaux(2)).apply_to(&mut table).unwrap();
    assert!(table.top_card_at(KlondikePileId::Tableaux(2)).unwrap().is_face_down());
    KlondikeTableAction::Reveal(KlondikePileId::Tableaux(2)).apply_to(&mut table).unwrap();
    assert!(table.top_card_at(KlondikePileId::Tableaux(2)).unwrap().is_face_up());

    // Revealing an empty pile changes nothing and still succeeds.
    KlondikeTableAction::Reveal(KlondikePileId::Tableaux(6)).apply_to(&mut table).unwrap();
    assert_eq!(table.pile_len(KlondikePileId::Tableaux(6)), 0);
}

#[test]
fn pile_id_enumeration_lists_standard_then_tableaux_piles() {
    let standard = KlondikePileId::standard_iter();
    assert_eq!(
        standard,
        vec![
            KlondikePileId::Stock,
            KlondikePileId::Waste,
            KlondikePileId::Foundation(Suit::Spades),
            KlondikePileId::Foundation(Suit::Hearts),
            KlondikePileId::Foundation(Suit::Diamonds),
            KlondikePileId::Foundation(Suit::Clubs),
        ]
    );
    let full = KlondikePileId::full_iter(2);
    assert_eq!(full.len(), 8);
    assert_eq!(&full[..6], &standard[..]);
    assert_eq!(full[6], KlondikePileId::Tableaux(0));
    assert_eq!(full[7], KlondikePileId::Tableaux(1));
}

#[test]
fn apply_all_stops_at_the_first_failing_action() {
    let ace = Rank::Ace.of(Suit::Spades).face_down();
    let mut table = KlondikeTable::new_with_cards(vec![ace]);
    let actions = vec![
        KlondikeTableAction::Deal(KlondikePileId::Tableaux(0)),
        KlondikeTableAction::Reveal(KlondikePileId::Tableaux(0)),
        KlondikeTableAction::Deal(KlondikePileId::Tableaux(1)),
    ];
    // The first two actions apply; the second deal finds the stock empty.
    let result = table.apply_all(actions);
    assert_eq!(result, Err(KlondikeActionError::EmptyStock));
    assert_eq!(table.pile_len(KlondikePileId::Tableaux(0)), 1);
    assert!(table.top_card_at(KlondikePileId::Tableaux(0)).unwrap().is_face_up());
    assert_eq!(table.pile_len(KlondikePileId::Stock), 0);

    let mut table = KlondikeTable::new_with_cards(vec![ace]);
    let result = table.apply_all(vec![
        KlondikeTableAction::Deal(KlondikePileId::Tableaux(0)),
        KlondikeTableAction::Reveal(KlondikePileId::Tableaux(0)),
    ]);
    assert_eq!(result, Ok(()));
}
