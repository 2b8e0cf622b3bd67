use klondike::dealer::KlondikeDealer;
use klondike::dealer::KlondikeDealerContext;
use klondike::table::KlondikePileId;
use klondike::table::KlondikeTableAction;

#[test]
fn dealer_should_deal_next_card() {
    let dealer = KlondikeDealer;
    let context = KlondikeDealerContext { tableaux_width: 7 };
    let mut dealer_iter = dealer.deal(context);

    match dealer_iter.next() {
        Some(KlondikeTableAction::Deal(pile_id)) => {
            assert_eq!(pile_id, KlondikePileId::Tableaux(0));
        }
        other => panic!("expected a deal action, got {:?}", other),
    }
}

#[test]
fn dealer_should_eventually_finish() {
    let dealer = KlondikeDealer;
    let context = KlondikeDealerContext { tableaux_width: 7 };

    // Expected to deal 7 + 6 + ... + 1, then reveal 7.
    let expected_length = (1..=7).sum::<usize>() + 7;

    // Skip ahead the expected amount.
    let mut dealer_iter = dealer.deal(context);
    for _ in 0..expected_length {
        assert!(dealer_iter.next().is_some());
    }

    // Iterator should end on the next call.
    assert!(dealer_iter.next().is_none());
}

#[test]
fn dealer_with_no_tableaux_should_finish() {
    let dealer = KlondikeDealer;
    let context = KlondikeDealerContext { tableaux_width: 0 };
    let mut dealer_iter = dealer.deal(context);

    assert!(dealer_iter.next().is_none());
}

#[test]
fn dealer_deal_sequence_for_width_four() {
    let dealer = KlondikeDealer;
    let context = KlondikeDealerContext { tableaux_width: 4 };
    let mut dealer_iter = dealer.deal(context);

    let expected_indices = [0, 1, 2, 3, 1, 2, 3, 2, 3, 3];
    for expected_index in expected_indices {
        match dealer_iter.next() {
            Some(KlondikeTableAction::Deal(pile_id)) => {
                assert_eq!(pile_id, KlondikePileId::Tableaux(expected_index));
            }
            other => panic!("expected a deal action, got {:?}", other),
        }
    }
    for expected_index in 0..4 {
        match dealer_iter.next() {
            Some(KlondikeTableAction::Reveal(pile_id)) => {
                assert_eq!(pile_id, KlondikePileId::Tableaux(expected_index));
            }
            other => panic!("expected a reveal action, got {:?}", other),
        }
    }
    assert!(dealer_iter.next().is_none());
}

#[test]
fn dealer_sequence_for_width_seven() {
    let dealer = KlondikeDealer;
    let context = KlondikeDealerContext { tableaux_width: 7 };
    let mut dealer_iter = dealer.deal(context);

    let mut deals = Vec::new();
    let mut reveals = Vec::new();
    while let Some(action) = dealer_iter.next() {
        match action {
            KlondikeTableAction::Deal(KlondikePileId::Tableaux(index)) => {
                assert!(reveals.is_empty(), "all deals must come before any reveal");
                deals.push(index);
            }
            KlondikeTableAction::Reveal(KlondikePileId::Tableaux(index)) => {
                reveals.push(index);
            }
            other => panic!("unexpected dealer action {:?}", other),
        }
    }
    assert_eq!(deals.len(), 28);
    assert_eq!(reveals, vec![0, 1, 2, 3, 4, 5, 6]);
}

#[test]
fn dealer_emits_triangle_counts_for_small_widths() {
    for width in 0..10usize {
        let dealer = KlondikeDealer;
        let context = KlondikeDealerContext { tableaux_width: width };
        let mut dealer_iter = dealer.deal(context);

        let mut deals = 0usize;
        let mut reveals = 0usize;
        while let Some(action) = dealer_iter.next() {
            match action {
                KlondikeTableAction::Deal(_) => {
                    assert_eq!(reveals, 0);
                    deals += 1;
                }
                KlondikeTableAction::Reveal(_) => reveals += 1,
                other => panic!("unexpected dealer action {:?}", other),
            }
        }
        assert_eq!(deals, width * (width + 1) / 2);
        assert_eq!(reveals, width);
    }
}
