use menu_core::OptionComponents;
use menu_core::Rect;
use menu_core::RegisteredComponents;

fn rect(x: u16, y: u16, width: u16, height: u16) -> Rect {
    Rect { x, y, width, height }
}

#[test]
fn hit_test_finds_the_unique_containing_control() {
    let mut reg = RegisteredComponents::new();
    reg.clear();
    reg.register(OptionComponents::NewGame, rect(10, 1, 15, 3));
    reg.register(OptionComponents::KeyBindings, rect(10, 5, 15, 3));
    reg.register(OptionComponents::Back, rect(10, 9, 15, 3));
    assert_eq!(reg.hit_test(12, 2), Some(OptionComponents::NewGame));
    assert_eq!(reg.hit_test(12, 6), Some(OptionComponents::KeyBindings));
    assert_eq!(reg.hit_test(24, 11), Some(OptionComponents::Back));
    assert_eq!(reg.hit_test(0, 0), None);
    assert_eq!(reg.hit_test(12, 4), None);
}

#[test]
fn containment_is_half_open() {
    let mut reg = RegisteredComponents::new();
    reg.register(OptionComponents::Video, rect(10, 5, 15, 3));
    // Near edges belong to the rectangle.
    assert_eq!(reg.hit_test(10, 5), Some(OptionComponents::Video));
    // Far edges do not: x ranges over [10, 25), y over [5, 8).
    assert_eq!(reg.hit_test(25, 5), None);
    assert_eq!(reg.hit_test(10, 8), None);
    assert_eq!(reg.hit_test(24, 7), Some(OptionComponents::Video));
}

#[test]
fn clear_twice_leaves_the_registry_identical() {
    let mut reg = RegisteredComponents::new();
    reg.register(OptionComponents::Audio, rect(0, 0, 4, 4));
    reg.clear();
    let after_once = reg.clone();
    reg.clear();
    assert_eq!(reg, after_once);
    assert_eq!(reg.hit_test(1, 1), None);
}

#[test]
fn registering_twice_with_the_same_rectangle_is_idempotent() {
    let mut reg = RegisteredComponents::new();
    reg.register(OptionComponents::Audio, rect(2, 2, 5, 5));
    let after_once = reg.clone();
    reg.register(OptionComponents::Audio, rect(2, 2, 5, 5));
    assert_eq!(reg, after_once);
    assert_eq!(reg.hit_test(3, 3), Some(OptionComponents::Audio));
}

#[test]
fn registering_again_overwrites_the_rectangle() {
    let mut reg = RegisteredComponents::new();
    reg.register(OptionComponents::Audio, rect(0, 0, 4, 4));
    reg.register(OptionComponents::Audio, rect(20, 20, 4, 4));
    assert_eq!(reg.hit_test(1, 1), None);
    assert_eq!(reg.hit_test(21, 21), Some(OptionComponents::Audio));
    assert!(reg.is_over(OptionComponents::Audio, 21, 21));
    assert!(!reg.is_over(OptionComponents::Audio, 1, 1));
}

#[test]
fn is_over_misses_unregistered_controls() {
    let mut reg = RegisteredComponents::new();
    reg.register(OptionComponents::NewGame, rect(0, 0, 10, 10));
    assert!(!reg.is_over(OptionComponents::Back, 5, 5));
    assert!(reg.is_over(OptionComponents::NewGame, 5, 5));
}

#[test]
fn overlapping_rectangles_answer_the_first_registered() {
    let mut reg = RegisteredComponents::new();
    reg.register(OptionComponents::NewGame, rect(0, 0, 10, 10));
    reg.register(OptionComponents::Back, rect(0, 0, 10, 10));
    assert_eq!(reg.hit_test(5, 5), Some(OptionComponents::NewGame));
}

#[test]
fn empty_rectangle_contains_no_point() {
    let empty = Rect::new_empty();
    assert!(!empty.contains(0, 0));
    let mut reg = RegisteredComponents::new();
    reg.register(OptionComponents::Video, empty);
    assert_eq!(reg.hit_test(0, 0), None);
}
