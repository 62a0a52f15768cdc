use menu_core::AppState;
use menu_core::InputEvent;
use menu_core::KeyBinding;
use menu_core::KeyCode;
use menu_core::KeyEvent;
use menu_core::KeyEventKind;
use menu_core::Modifiers;
use menu_core::MouseButton;
use menu_core::MouseEvent;
use menu_core::MouseEventKind;
use menu_core::OptionComponents;
use menu_core::OptionsState;
use menu_core::Rect;
use menu_core::Router;

fn no_mods() -> Modifiers {
    Modifiers { ctrl: false, alt: false, shift: false }
}

fn key(code: KeyCode, kind: KeyEventKind) -> InputEvent {
    InputEvent::Key(KeyEvent { code, modifiers: no_mods(), kind })
}

fn mouse(kind: MouseEventKind, column: u16, row: u16) -> InputEvent {
    InputEvent::Mouse(MouseEvent { kind, column, row })
}

fn router_on_options() -> Router {
    let mut router = Router::new();
    router.screen = AppState::Options;
    router.begin_render_pass();
    router.options_registry.register(
        OptionComponents::KeyBindings,
        Rect { x: 10, y: 5, width: 15, height: 3 },
    );
    router.options_registry.register(
        OptionComponents::Back,
        Rect { x: 10, y: 9, width: 15, height: 3 },
    );
    router
}

#[test]
fn escape_release_on_options_returns_home_and_resets() {
    let mut router = router_on_options();
    router.options_state = OptionsState::KeyBindingsOver;
    let out = router.handle_event(&key(KeyCode::Esc, KeyEventKind::Release));
    assert!(!out.exit_requested);
    assert_eq!(router.screen, AppState::Home);
    // The options screen's interaction state and registry are reset before
    // the home screen's next render pass.
    assert_eq!(router.options_state, OptionsState::Idle);
    assert_eq!(router.options_registry.entries, vec![]);
}

#[test]
fn escape_press_and_repeat_are_ignored() {
    let mut router = router_on_options();
    router.handle_event(&key(KeyCode::Esc, KeyEventKind::Press));
    assert_eq!(router.screen, AppState::Options);
    router.handle_event(&key(KeyCode::Esc, KeyEventKind::Repeat));
    assert_eq!(router.screen, AppState::Options);
}

#[test]
fn home_exits_on_q_or_escape_release_only() {
    let mut router = Router::new();
    assert!(!router.handle_event(&key(KeyCode::Char('q'), KeyEventKind::Press)).exit_requested);
    assert!(router.handle_event(&key(KeyCode::Char('q'), KeyEventKind::Release)).exit_requested);
    assert!(router.handle_event(&key(KeyCode::Esc, KeyEventKind::Release)).exit_requested);
    assert!(!router.handle_event(&key(KeyCode::Char('x'), KeyEventKind::Release)).exit_requested);
}

#[test]
fn home_ignores_mouse_events() {
    let mut router = Router::new();
    let out = router.handle_event(&mouse(MouseEventKind::Down(MouseButton::Left), 3, 3));
    assert!(!out.exit_requested);
    assert_eq!(out.activated, None);
    assert_eq!(router.screen, AppState::Home);
}

#[test]
fn click_on_options_fires_the_control_on_release() {
    let mut router = router_on_options();
    router.handle_event(&mouse(MouseEventKind::Moved, 12, 6));
    assert_eq!(router.options_state, OptionsState::KeyBindingsOver);
    router.handle_event(&mouse(MouseEventKind::Down(MouseButton::Left), 12, 6));
    assert_eq!(router.options_state, OptionsState::KeyBindingsDown);
    let out = router.handle_event(&mouse(MouseEventKind::Up(MouseButton::Left), 12, 6));
    assert_eq!(out.activated, Some(OptionComponents::KeyBindings));
    assert_eq!(router.options_state, OptionsState::KeyBindingsOver);
}

#[test]
fn batch_applies_transitions_for_later_events() {
    let mut router = router_on_options();
    // Esc returns home mid-batch; the q release after it is handled by the
    // home screen and requests exit.
    let events = vec![
        key(KeyCode::Esc, KeyEventKind::Release),
        key(KeyCode::Char('q'), KeyEventKind::Release),
    ];
    let out = router.process_events(&events);
    assert!(out.exit_requested);
    assert_eq!(router.screen, AppState::Home);
}

#[test]
fn batch_collects_activations_in_order() {
    let mut router = router_on_options();
    let events = vec![
        mouse(MouseEventKind::Down(MouseButton::Left), 12, 6),
        mouse(MouseEventKind::Up(MouseButton::Left), 12, 6),
        mouse(MouseEventKind::Down(MouseButton::Left), 12, 10),
        mouse(MouseEventKind::Up(MouseButton::Left), 12, 10),
        mouse(MouseEventKind::Scroll, 12, 10),
    ];
    let out = router.process_events(&events);
    assert!(!out.exit_requested);
    assert_eq!(
        out.activations,
        vec![OptionComponents::KeyBindings, OptionComponents::Back]
    );
}

#[test]
fn key_events_resolve_through_the_binding_table() {
    let mut router = router_on_options();
    // The user binds `b` to the system's Esc; releasing `b` then leaves
    // the options screen.
    let record = KeyBinding {
        defined_action_description: "Go back".to_string(),
        user_key: KeyCode::Char('b'),
        user_key_modifiers: no_mods(),
        system_key: KeyCode::Esc,
        system_key_modifiers: no_mods(),
        is_customizable: true,
    };
    assert!(router.key_bindings.bind(record).is_ok());
    router.handle_event(&key(KeyCode::Char('b'), KeyEventKind::Release));
    assert_eq!(router.screen, AppState::Home);
}

#[test]
fn begin_render_pass_clears_only_the_options_registry() {
    let mut router = router_on_options();
    assert_eq!(router.options_registry.entries.len(), 2);
    router.begin_render_pass();
    assert!(router.options_registry.entries.is_empty());

    let mut home_router = Router::new();
    home_router.options_registry.register(
        OptionComponents::Back,
        Rect { x: 0, y: 0, width: 1, height: 1 },
    );
    home_router.begin_render_pass();
    assert_eq!(home_router.options_registry.entries.len(), 1);
}

#[test]
fn fresh_router_starts_at_home_with_nothing_bound() {
    let router = Router::new();
    assert_eq!(router.screen, AppState::Home);
    assert_eq!(router.options_state, OptionsState::Idle);
    assert!(router.options_registry.entries.is_empty());
    assert_eq!(router.key_bindings.record_count(), 0);
}
