use menu_core::BindingError;
use menu_core::KeyBinding;
use menu_core::KeyBindings;
use menu_core::KeyBindingsTrait;
use menu_core::KeyCode;
use menu_core::Modifiers;
use menu_core::MouseContext;
use menu_core::Rect;
use menu_core::convert_key_code_and_modifiers_to_string;

fn no_mods() -> Modifiers {
    Modifiers { ctrl: false, alt: false, shift: false }
}

fn record(action: &str, user: KeyCode, system: KeyCode, customizable: bool) -> KeyBinding {
    KeyBinding {
        defined_action_description: action.to_string(),
        user_key: user,
        user_key_modifiers: no_mods(),
        system_key: system,
        system_key_modifiers: no_mods(),
        is_customizable: customizable,
    }
}

#[test]
fn bind_jump_then_resolve() {
    let mut table = KeyBindings::new();
    let jump = record("Jump", KeyCode::Char('j'), KeyCode::Char(' '), true);
    assert!(table.bind(jump).is_ok());
    let resolved = table.resolve(KeyCode::Char('j'), no_mods());
    assert_eq!(resolved, Ok((KeyCode::Char(' '), no_mods())));
}

#[test]
fn rebinding_same_pair_conflicts() {
    let mut table = KeyBindings::new();
    let jump = record("Jump", KeyCode::Char('j'), KeyCode::Char(' '), true);
    assert!(table.bind(jump).is_ok());
    let duck = record("Duck", KeyCode::Char('j'), KeyCode::Char('d'), true);
    assert_eq!(table.bind(duck), Err(BindingError::Conflict));
}

#[test]
fn conflict_leaves_table_unchanged() {
    let mut table = KeyBindings::new();
    let jump = record("Jump", KeyCode::Char('j'), KeyCode::Char(' '), true);
    assert!(table.bind(jump).is_ok());
    let duck = record("Duck", KeyCode::Char('j'), KeyCode::Char('d'), true);
    assert_eq!(table.bind(duck), Err(BindingError::Conflict));
    let resolved = table.resolve(KeyCode::Char('j'), no_mods());
    assert_eq!(resolved, Ok((KeyCode::Char(' '), no_mods())));
    assert_eq!(table.record_count(), 1);
}

#[test]
fn unbound_pair_resolves_to_not_bound() {
    let table = KeyBindings::new();
    let resolved = table.resolve(KeyCode::Char('k'), no_mods());
    assert_eq!(resolved, Err(BindingError::NotBound));
}

#[test]
fn same_key_different_modifiers_do_not_conflict() {
    let mut table = KeyBindings::new();
    let plain = record("Jump", KeyCode::Char('j'), KeyCode::Char(' '), true);
    assert!(table.bind(plain).is_ok());
    let mut chorded = record("Duck", KeyCode::Char('j'), KeyCode::Char('d'), true);
    chorded.user_key_modifiers = Modifiers { ctrl: true, alt: false, shift: false };
    assert!(table.bind(chorded).is_ok());
    assert_eq!(
        table.resolve(KeyCode::Char('j'), Modifiers { ctrl: true, alt: false, shift: false }),
        Ok((KeyCode::Char('d'), no_mods()))
    );
}

#[test]
fn trait_methods_mirror_resolution_and_insertion() {
    let mut table = KeyBindings::new();
    let jump = record("Jump", KeyCode::Char('j'), KeyCode::Char(' '), true);
    assert!(table.add_custom_key_binding(jump).is_ok());
    assert_eq!(
        table.convert_to_system_key_binding(KeyCode::Char('j'), no_mods()),
        Ok((KeyCode::Char(' '), no_mods()))
    );
    let duck = record("Duck", KeyCode::Char('j'), KeyCode::Char('d'), true);
    assert_eq!(table.add_custom_key_binding(duck), Err(BindingError::Conflict));
}

#[test]
fn default_record_is_unset_and_fixed() {
    let d = KeyBinding::default();
    assert_eq!(d.defined_action_description, "");
    assert_eq!(d.user_key, KeyCode::Null);
    assert_eq!(d.user_key_modifiers, no_mods());
    assert_eq!(d.system_key, KeyCode::Null);
    assert_eq!(d.system_key_modifiers, no_mods());
    assert!(!d.is_customizable);
}

#[test]
fn display_order_groups_non_customizable_first() {
    let mut table = KeyBindings::new();
    assert!(table.bind(record("Jump", KeyCode::Char('j'), KeyCode::Char(' '), true)).is_ok());
    assert!(table.bind(record("Quit", KeyCode::Null, KeyCode::Char('q'), false)).is_ok());
    assert!(table.bind(record("Duck", KeyCode::Char('d'), KeyCode::Char('c'), true)).is_ok());
    // Non-customizable records come first; within each group insertion
    // order is kept.
    assert_eq!(table.display_order(), vec![1, 0, 2]);
}

#[test]
fn display_order_of_empty_table_is_empty() {
    let table = KeyBindings::new();
    assert_eq!(table.display_order(), Vec::<usize>::new());
}

#[test]
fn display_label_prefers_user_pair_when_set() {
    let jump = record("Jump", KeyCode::Char('j'), KeyCode::Char(' '), true);
    let (label, fallback) = KeyBindings::display_label(&jump);
    assert_eq!(label, "j+");
    assert!(!fallback);
}

#[test]
fn display_label_falls_back_to_system_pair_when_unset() {
    let quit = record("Quit", KeyCode::Null, KeyCode::Char('q'), false);
    let (label, fallback) = KeyBindings::display_label(&quit);
    assert_eq!(label, "q+");
    assert!(fallback);
}

#[test]
fn selection_tracks_lead_row() {
    let mut table = KeyBindings::new();
    assert!(!table.is_selected_row(0));
    assert_eq!(table.lead_selection(), None);
    table.select(4);
    assert!(table.is_selected_row(4));
    assert!(!table.is_selected_row(3));
    assert!(!table.is_selected_column(0));
    assert!(!table.is_selected_cell(0, 4));
    assert_eq!(table.lead_selection(), Some((0, 4)));
}

#[test]
fn mouse_context_tracks_the_drawn_rectangle() {
    let mut table = KeyBindings::new();
    assert!(!table.is_over(12, 6));
    table.set_context(Rect { x: 10, y: 5, width: 15, height: 3 });
    assert!(table.is_over(12, 6));
    assert!(!table.is_over(25, 6));
    assert_eq!(table.rect, Rect { x: 10, y: 5, width: 15, height: 3 });
}

#[test]
fn fresh_tables_get_distinct_identifiers() {
    let a = KeyBindings::new();
    let b = KeyBindings::new();
    assert_ne!(a.id, b.id);
}

#[test]
fn three_modifier_chord_renders_the_three_way_label() {
    let all = Modifiers { ctrl: true, alt: true, shift: true };
    let label = convert_key_code_and_modifiers_to_string(KeyCode::Char('a'), all);
    assert_eq!(label, "a+Ctrl+Alt+Shift");
}

#[test]
fn modifier_labels_follow_precedence() {
    let k = KeyCode::Esc;
    let combos = [
        (Modifiers { ctrl: true, alt: false, shift: false }, "Esc+Ctrl"),
        (Modifiers { ctrl: false, alt: true, shift: false }, "Esc+Alt"),
        (Modifiers { ctrl: false, alt: false, shift: true }, "Esc+Shift"),
        (Modifiers { ctrl: true, alt: true, shift: false }, "Esc+Ctrl+Alt"),
        (Modifiers { ctrl: true, alt: false, shift: true }, "Esc+Ctrl+Shift"),
        (Modifiers { ctrl: false, alt: true, shift: true }, "Esc+Alt+Shift"),
        (Modifiers { ctrl: true, alt: true, shift: true }, "Esc+Ctrl+Alt+Shift"),
        (Modifiers { ctrl: false, alt: false, shift: false }, "Esc+"),
    ];
    for (mods, expected) in combos {
        assert_eq!(convert_key_code_and_modifiers_to_string(k, mods), expected);
    }
}

#[test]
fn key_code_labels_match_their_names() {
    let n = no_mods();
    assert_eq!(convert_key_code_and_modifiers_to_string(KeyCode::Null, n), "Null+");
    assert_eq!(convert_key_code_and_modifiers_to_string(KeyCode::Enter, n), "Enter+");
    assert_eq!(convert_key_code_and_modifiers_to_string(KeyCode::BackTab, n), "BackTab+");
    assert_eq!(convert_key_code_and_modifiers_to_string(KeyCode::F(1), n), "F1+");
    assert_eq!(convert_key_code_and_modifiers_to_string(KeyCode::F(12), n), "F12+");
    assert_eq!(convert_key_code_and_modifiers_to_string(KeyCode::F(255), n), "F255+");
    assert_eq!(convert_key_code_and_modifiers_to_string(KeyCode::Char('Z'), n), "Z+");
    assert_eq!(convert_key_code_and_modifiers_to_string(KeyCode::PageDown, n), "PageDown+");
    assert_eq!(convert_key_code_and_modifiers_to_string(KeyCode::KeypadBegin, n), "KeypadBegin+");
}
