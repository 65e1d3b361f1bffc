use card_table::cards::Card;
use card_table::cards::TAPPED_ROTATION_DEGREES;
use card_table::cards::UNTAPPED_ROTATION_DEGREES;
use card_table::geometry::HalfSize;
use card_table::geometry::Point;

fn sample_card() -> Card {
    Card::new(
        7,
        String::from("character.png"),
        Point { x: 5, y: -3 },
        Some(HalfSize { x: 60, y: 84 }),
    )
}

#[test]
fn new_card_is_untapped_and_upright() {
    let card = sample_card();
    assert!(!card.tapped);
    assert_eq!(card.rotation_degrees, UNTAPPED_ROTATION_DEGREES);
    assert_eq!(card.id, 7);
    assert_eq!(card.asset, "character.png");
}

#[test]
fn tapping_rotates_a_quarter_turn() {
    let mut card = sample_card();
    card.toggle_tap();
    assert!(card.tapped);
    assert_eq!(card.rotation_degrees, TAPPED_ROTATION_DEGREES);
}

#[test]
fn toggling_twice_returns_to_identity() {
    let mut card = sample_card();
    card.toggle_tap();
    card.toggle_tap();
    assert!(!card.tapped);
    assert_eq!(card.rotation_degrees, UNTAPPED_ROTATION_DEGREES);
    assert_eq!(card.position, Point { x: 5, y: -3 });
    assert_eq!(card.id, 7);
}

#[test]
fn drag_adds_x_and_subtracts_y() {
    let mut card = sample_card();
    card.apply_drag(Point { x: 30, y: 12 });
    assert_eq!(card.position, Point { x: 35, y: -15 });
}

#[test]
fn drag_applies_exactly_once_without_clamping() {
    let mut card = sample_card();
    card.apply_drag(Point { x: 1_000_000, y: -2_000_000 });
    assert_eq!(card.position, Point { x: 1_000_005, y: 1_999_997 });
    card.apply_drag(Point { x: -1, y: 0 });
    assert_eq!(card.position, Point { x: 1_000_004, y: 1_999_997 });
}
