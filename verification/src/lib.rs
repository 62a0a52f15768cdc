//! Core logic of an interactive terminal menu: hit-testing of controls
//! against their last-rendered rectangles, a conflict-checked key-binding
//! table, the per-screen interaction state machine, and the screen router
//! that dispatches decoded input events.

mod bindings;
mod geometry;
mod interaction;
mod keys;
mod mouse_context;
mod registry;
mod router;
mod table;

pub use bindings::BindingError;
pub use bindings::KeyBinding;
pub use bindings::KeyBindings;
pub use bindings::KeyBindingsTrait;
pub use geometry::Rect;
pub use interaction::ButtonVisual;
pub use interaction::HomeState;
pub use interaction::OptionsState;
pub use keys::KeyCode;
pub use keys::KeyEventKind;
pub use keys::Modifiers;
pub use keys::convert_key_code_and_modifiers_to_string;
pub use mouse_context::MouseContext;
pub use registry::OptionComponents;
pub use registry::RegisteredComponents;
pub use router::AppState;
pub use router::BatchOutcome;
pub use router::EventOutcome;
pub use router::InputEvent;
pub use router::KeyEvent;
pub use router::MouseButton;
pub use router::MouseEvent;
pub use router::MouseEventKind;
pub use router::Router;
pub use table::KeyBindingsState;
