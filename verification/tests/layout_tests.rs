use card_table::actions::PlayActionQueue;
use card_table::cards::Role;
use card_table::cards::Zone;
use card_table::geometry::Point;
use card_table::layout::CHARACTER_ROW_Y;
use card_table::layout::CHARACTER_SLOT_WIDTH;
use card_table::layout::DON_ROW_Y;
use card_table::layout::DON_SLOT_WIDTH;
use card_table::layout::arrange_row;
use card_table::layout::row_offsets;
use card_table::table::Table;

#[test]
fn empty_row_has_no_offsets() {
    let offsets = row_offsets(0, CHARACTER_SLOT_WIDTH);
    assert!(offsets.is_empty());
}

#[test]
fn arranging_an_empty_table_is_a_no_op() {
    let mut table = Table::new();
    table.arrange_rows();
    assert!(table.cards.is_empty());
}

#[test]
fn single_card_sits_at_center() {
    let offsets = row_offsets(1, CHARACTER_SLOT_WIDTH);
    assert_eq!(offsets, vec![0]);
}

#[test]
fn three_cards_flank_the_center() {
    let w = CHARACTER_SLOT_WIDTH;
    let offsets = row_offsets(3, w);
    assert_eq!(offsets, vec![-w, 0, w]);
}

#[test]
fn offsets_sum_to_zero() {
    for n in 1..9usize {
        let offsets = row_offsets(n, DON_SLOT_WIDTH);
        let sum: i64 = offsets.iter().sum();
        assert_eq!(sum, 0, "row of {n} cards is not centered");
    }
}

#[test]
fn even_count_offsets_are_symmetric() {
    let offsets = row_offsets(4, 168);
    assert_eq!(offsets, vec![-252, -84, 84, 252]);
}

fn table_with_cards_in_play() -> Table {
    let mut table = Table::new();
    let mut queue = PlayActionQueue::new();
    for i in 0..3usize {
        let id = table.spawn_card(String::from("character.png"), Point { x: 9, y: 9 });
        assert_eq!(id as usize, i);
        table.cards[i].zone = Some(Zone::InPlay);
    }
    table.spawn_don_cards(&mut queue, 2, &String::from("don.png"));
    table.cards[3].zone = Some(Zone::InPlay);
    table.cards[4].zone = Some(Zone::InPlay);
    // One card stays out of play and must not move.
    table.spawn_card(String::from("character.png"), Point { x: 77, y: 88 });
    table
}

#[test]
fn arrange_rows_places_both_rows() {
    let mut table = table_with_cards_in_play();
    table.arrange_rows();
    // Character row: three cards, full-height slots, at y = 0.
    let w = CHARACTER_SLOT_WIDTH;
    assert_eq!(table.cards[0].position, Point { x: -w, y: CHARACTER_ROW_Y });
    assert_eq!(table.cards[1].position, Point { x: 0, y: CHARACTER_ROW_Y });
    assert_eq!(table.cards[2].position, Point { x: w, y: CHARACTER_ROW_Y });
    // Resource row: two cards, half-height slots, centered above.
    let h = DON_SLOT_WIDTH / 2;
    assert_eq!(table.cards[3].position, Point { x: -h, y: DON_ROW_Y });
    assert_eq!(table.cards[4].position, Point { x: h, y: DON_ROW_Y });
    // The out-of-play card did not move.
    assert_eq!(table.cards[5].position, Point { x: 77, y: 88 });
}

#[test]
fn arranged_rows_sum_to_zero() {
    let mut table = table_with_cards_in_play();
    table.arrange_rows();
    let char_sum: i64 = table
        .cards
        .iter()
        .filter(|c| c.has_role_in_play(Role::CharacterCard))
        .map(|c| c.position.x)
        .sum();
    let don_sum: i64 = table
        .cards
        .iter()
        .filter(|c| c.has_role_in_play(Role::DonCard))
        .map(|c| c.position.x)
        .sum();
    assert_eq!(char_sum, 0);
    assert_eq!(don_sum, 0);
}

#[test]
fn arrange_row_keeps_iteration_order() {
    let mut table = table_with_cards_in_play();
    let ids: Vec<u64> = table.cards.iter().map(|c| c.id).collect();
    arrange_row(&mut table.cards, Role::CharacterCard, CHARACTER_SLOT_WIDTH, CHARACTER_ROW_Y);
    let ids_after: Vec<u64> = table.cards.iter().map(|c| c.id).collect();
    assert_eq!(ids, ids_after);
    // Slots grow strictly left to right in iteration order.
    assert!(table.cards[0].position.x < table.cards[1].position.x);
    assert!(table.cards[1].position.x < table.cards[2].position.x);
}

#[test]
fn arrange_rows_leaves_tap_state_alone() {
    let mut table = table_with_cards_in_play();
    table.cards[1].toggle_tap();
    table.arrange_rows();
    assert!(table.cards[1].tapped);
    assert!(!table.cards[0].tapped);
}
