use card_table::actions::PlayAction;
use card_table::actions::PlayActionQueue;
use card_table::cards::TAPPED_ROTATION_DEGREES;
use card_table::cards::UNTAPPED_ROTATION_DEGREES;
use card_table::geometry::Point;
use card_table::table::InboundEvent;
use card_table::table::PointerButton;
use card_table::table::Table;

fn table_with_don_cards(count: usize) -> (Table, PlayActionQueue) {
    let mut table = Table::new();
    let mut queue = PlayActionQueue::new();
    table.spawn_don_cards(&mut queue, count, &String::from("don.png"));
    (table, queue)
}

#[test]
fn dealt_don_cards_are_draggable_and_logged() {
    let (table, queue) = table_with_don_cards(10);
    assert_eq!(table.cards.len(), 10);
    assert_eq!(queue.len(), 10);
    for (i, card) in table.cards.iter().enumerate() {
        assert_eq!(card.id, i as u64);
        assert!(card.draggable);
        assert!(card.right_clickable);
        assert!(!card.tapped);
        assert_eq!(card.position, Point { x: -100, y: -100 });
        assert_eq!(queue.get(i), PlayAction::PlayCharacter { card_entity: card.id });
    }
}

#[test]
fn secondary_click_taps_the_target() {
    let (mut table, _queue) = table_with_don_cards(3);
    table.handle_click(PointerButton::Secondary, 1);
    assert!(table.cards[1].tapped);
    assert_eq!(table.cards[1].rotation_degrees, TAPPED_ROTATION_DEGREES);
    assert!(!table.cards[0].tapped);
    assert!(!table.cards[2].tapped);
}

#[test]
fn secondary_click_untaps_a_tapped_target() {
    let (mut table, _queue) = table_with_don_cards(2);
    table.handle_click(PointerButton::Secondary, 0);
    table.handle_click(PointerButton::Secondary, 0);
    assert!(!table.cards[0].tapped);
    assert_eq!(table.cards[0].rotation_degrees, UNTAPPED_ROTATION_DEGREES);
}

#[test]
fn primary_click_changes_nothing() {
    let (mut table, _queue) = table_with_don_cards(2);
    table.handle_click(PointerButton::Primary, 0);
    assert!(!table.cards[0].tapped);
}

#[test]
fn click_on_unknown_target_is_a_silent_no_op() {
    let (mut table, _queue) = table_with_don_cards(2);
    table.handle_click(PointerButton::Secondary, 99);
    assert!(!table.cards[0].tapped);
    assert!(!table.cards[1].tapped);
}

#[test]
fn drag_moves_only_the_target() {
    let (mut table, _queue) = table_with_don_cards(2);
    table.handle_drag(1, Point { x: 25, y: 40 });
    assert_eq!(table.cards[0].position, Point { x: -100, y: -100 });
    assert_eq!(table.cards[1].position, Point { x: -75, y: -140 });
}

#[test]
fn drag_on_non_draggable_card_is_a_no_op() {
    let mut table = Table::new();
    let id = table.spawn_card(String::from("character.png"), Point { x: 0, y: 0 });
    table.handle_drag(id, Point { x: 5, y: 5 });
    assert_eq!(table.cards[0].position, Point { x: 0, y: 0 });
}

#[test]
fn cursor_moves_record_the_last_position() {
    let mut table = Table::new();
    let moves = vec![Point { x: 1, y: 2 }, Point { x: 3, y: 4 }, Point { x: 5, y: 6 }];
    table.apply_cursor_moves(&moves);
    assert_eq!(table.cursor, Point { x: 5, y: 6 });
    table.apply_cursor_moves(&Vec::new());
    assert_eq!(table.cursor, Point { x: 5, y: 6 });
}

#[test]
fn remove_takes_the_first_card_under_the_cursor() {
    let (mut table, _queue) = table_with_don_cards(3);
    // All three cards overlap the deal position; only the first goes.
    table.update_cursor(Point { x: -100, y: -100 });
    let removed = table.remove_card_under_cursor();
    assert_eq!(removed, Some(0));
    assert_eq!(table.cards.len(), 2);
    assert_eq!(table.cards[0].id, 1);
    assert_eq!(table.cards[1].id, 2);
}

#[test]
fn remove_with_no_card_under_the_cursor_does_nothing() {
    let (mut table, _queue) = table_with_don_cards(2);
    table.update_cursor(Point { x: 10_000, y: 10_000 });
    let removed = table.remove_card_under_cursor();
    assert_eq!(removed, None);
    assert_eq!(table.cards.len(), 2);
}

#[test]
fn events_dispatch_to_the_handlers() {
    let (mut table, _queue) = table_with_don_cards(2);
    table.handle_event(&InboundEvent::PointerMove { position: Point { x: 8, y: 9 } });
    assert_eq!(table.cursor, Point { x: 8, y: 9 });
    table.handle_event(&InboundEvent::PointerClick { button: PointerButton::Secondary, target: 0 });
    assert!(table.cards[0].tapped);
    table.handle_event(&InboundEvent::PointerDrag { target: 1, delta: Point { x: 1, y: 1 } });
    assert_eq!(table.cards[1].position, Point { x: -99, y: -101 });
}

#[test]
fn spawned_character_cards_get_fresh_handles() {
    let mut table = Table::new();
    let a = table.spawn_card(String::from("character.png"), Point { x: 0, y: 0 });
    let b = table.spawn_card(String::from("character.png"), Point { x: 1, y: 1 });
    assert_ne!(a, b);
    assert_eq!(table.cards.len(), 2);
    assert!(!table.cards[0].draggable);
    assert!(table.cards[0].right_clickable);
}
