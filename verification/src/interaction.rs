//! Per-screen interaction state: which control is hovered or pressed, and
//! how routed pointer events move between those states.

use vstd::prelude::*;

use crate::registry::OptionComponents;
use crate::registry::RegisteredComponents;
use crate::registry::hit_spec;

verus! {

/// The home screen's own view state.
#[derive(Debug, Clone, Copy, PartialEq, Eq, Hash, Structural)]
pub enum HomeState {
    Home,
    Options,
}

impl Default for HomeState {
    /// The home view.
    fn default() -> (s: Self)
        ensures
            s == HomeState::Home,
    {
        HomeState::Home
    }
}

/// The options screen's interaction state: at most one control is hovered
/// or pressed at a time, so one flat enumeration covers every case.
#[derive(Debug, Clone, Copy, PartialEq, Eq, Hash, Structural)]
pub enum OptionsState {
    Idle,
    NewGameOver,
    NewGameDown,
    KeyBindingsOver,
    KeyBindingsDown,
    VideoOver,
    VideoDown,
    AudioOver,
    AudioDown,
    BackOver,
    BackDown,
}

impl Default for OptionsState {
    /// The state on screen entry: nothing hovered, nothing pressed.
    fn default() -> (s: Self)
        ensures
            s == OptionsState::Idle,
    {
        OptionsState::Idle
    }
}

/// The state in which `c` is hovered.
pub open spec fn hover_state(c: OptionComponents) -> OptionsState {
    match c {
        OptionComponents::NewGame => OptionsState::NewGameOver,
        OptionComponents::KeyBindings => OptionsState::KeyBindingsOver,
        OptionComponents::Video => OptionsState::VideoOver,
        OptionComponents::Audio => OptionsState::AudioOver,
        OptionComponents::Back => OptionsState::BackOver,
    }
}

/// The state in which `c` is pressed.
pub open spec fn press_state(c: OptionComponents) -> OptionsState {
    match c {
        OptionComponents::NewGame => OptionsState::NewGameDown,
        OptionComponents::KeyBindings => OptionsState::KeyBindingsDown,
        OptionComponents::Video => OptionsState::VideoDown,
        OptionComponents::Audio => OptionsState::AudioDown,
        OptionComponents::Back => OptionsState::BackDown,
    }
}

/// The control hovered in state `s`, if any.
pub open spec fn hovered_control(s: OptionsState) -> Option<OptionComponents> {
    match s {
        OptionsState::NewGameOver => Some(OptionComponents::NewGame),
        OptionsState::KeyBindingsOver => Some(OptionComponents::KeyBindings),
        OptionsState::VideoOver => Some(OptionComponents::Video),
        OptionsState::AudioOver => Some(OptionComponents::Audio),
        OptionsState::BackOver => Some(OptionComponents::Back),
        _ => None,
    }
}

/// The control pressed in state `s`, if any.
pub open spec fn pressed_control(s: OptionsState) -> Option<OptionComponents> {
    match s {
        OptionsState::NewGameDown => Some(OptionComponents::NewGame),
        OptionsState::KeyBindingsDown => Some(OptionComponents::KeyBindings),
        OptionsState::VideoDown => Some(OptionComponents::Video),
        OptionsState::AudioDown => Some(OptionComponents::Audio),
        OptionsState::BackDown => Some(OptionComponents::Back),
        _ => None,
    }
}

/// Where a pointer move leads: a press is not disturbed by movement; any
/// other state follows the hit-test to a hover, or back to idle.
pub open spec fn moved_spec(
    s: OptionsState,
    reg: Seq<(OptionComponents, crate::geometry::Rect)>,
    x: u16,
    y: u16,
) -> OptionsState {
    if pressed_control(s) is Some {
        s
    } else {
        match hit_spec(reg, x, y) {
            Some(c) => hover_state(c),
            None => OptionsState::Idle,
        }
    }
}

/// Where a button press leads: the control under the pointer becomes
/// pressed; a miss leaves nothing active. Pressing fires no action — the
/// action is decided at release.
pub open spec fn down_spec(
    s: OptionsState,
    reg: Seq<(OptionComponents, crate::geometry::Rect)>,
    x: u16,
    y: u16,
) -> OptionsState {
    match hit_spec(reg, x, y) {
        Some(c) => press_state(c),
        None => OptionsState::Idle,
    }
}

/// Where a button release leads, and which control's action fires: the
/// pressed control fires exactly when the release is over it, and the
/// state settles on whatever the pointer is over; a release over a
/// different control, or over nothing, cancels the press and fires
/// nothing.
pub open spec fn up_spec(
    s: OptionsState,
    reg: Seq<(OptionComponents, crate::geometry::Rect)>,
    x: u16,
    y: u16,
) -> (OptionsState, Option<OptionComponents>) {
    let hit = hit_spec(reg, x, y);
    let landing = match hit {
        Some(c) => hover_state(c),
        None => OptionsState::Idle,
    };
    match pressed_control(s) {
        Some(c) => if hit == Some(c) {
            (hover_state(c), Some(c))
        } else {
            (landing, None)
        },
        None => (landing, None),
    }
}

impl OptionsState {
    /// The control hovered in this state, if any.
    pub fn hovered(self) -> (r: Option<OptionComponents>)
        ensures
            r == hovered_control(self),
    {
        match self {
            OptionsState::NewGameOver => Some(OptionComponents::NewGame),
            OptionsState::KeyBindingsOver => Some(OptionComponents::KeyBindings),
            OptionsState::VideoOver => Some(OptionComponents::Video),
            OptionsState::AudioOver => Some(OptionComponents::Audio),
            OptionsState::BackOver => Some(OptionComponents::Back),
            _ => None,
        }
    }

    /// The control pressed in this state, if any.
    pub fn pressed(self) -> (r: Option<OptionComponents>)
        ensures
            r == pressed_control(self),
    {
        match self {
            OptionsState::NewGameDown => Some(OptionComponents::NewGame),
            OptionsState::KeyBindingsDown => Some(OptionComponents::KeyBindings),
            OptionsState::VideoDown => Some(OptionComponents::Video),
            OptionsState::AudioDown => Some(OptionComponents::Audio),
            OptionsState::BackDown => Some(OptionComponents::Back),
            _ => None,
        }
    }

    /// The state in which `c` is hovered.
    pub fn to_hover(c: OptionComponents) -> (s: OptionsState)
        ensures
            s == hover_state(c),
    {
        match c {
            OptionComponents::NewGame => OptionsState::NewGameOver,
            OptionComponents::KeyBindings => OptionsState::KeyBindingsOver,
            OptionComponents::Video => OptionsState::VideoOver,
            OptionComponents::Audio => OptionsState::AudioOver,
            OptionComponents::Back => OptionsState::BackOver,
        }
    }

    /// The state in which `c` is pressed.
    pub fn to_press(c: OptionComponents) -> (s: OptionsState)
        ensures
            s == press_state(c),
    {
        match c {
            OptionComponents::NewGame => OptionsState::NewGameDown,
            OptionComponents::KeyBindings => OptionsState::KeyBindingsDown,
            OptionComponents::Video => OptionsState::VideoDown,
            OptionComponents::Audio => OptionsState::AudioDown,
            OptionComponents::Back => OptionsState::BackDown,
        }
    }

    /// Follows a pointer move against the registry as it stood at the end
    /// of the previous render pass.
    pub fn on_pointer_moved(self, reg: &RegisteredComponents, x: u16, y: u16) -> (s: OptionsState)
        ensures
            s == moved_spec(self, reg@, x, y),
    {
        if self.pressed().is_some() {
            self
        } else {
            match reg.hit_test(x, y) {
                Some(c) => Self::to_hover(c),
                None => OptionsState::Idle,
            }
        }
    }

    /// Follows a pointer button press.
    pub fn on_pointer_down(self, reg: &RegisteredComponents, x: u16, y: u16) -> (s: OptionsState)
        ensures
            s == down_spec(self, reg@, x, y),
    {
        match reg.hit_test(x, y) {
            Some(c) => Self::to_press(c),
            None => OptionsState::Idle,
        }
    }

    /// Follows a pointer button release; the second component is the
    /// control whose action fires, if any.
    pub fn on_pointer_up(self, reg: &RegisteredComponents, x: u16, y: u16) -> (r: (
        OptionsState,
        Option<OptionComponents>,
    ))
        ensures
            r == up_spec(self, reg@, x, y),
    {
        let hit = reg.hit_test(x, y);
        let landing = match hit {
            Some(c) => Self::to_hover(c),
            None => OptionsState::Idle,
        };
        match self.pressed() {
            Some(c) => {
                if hit == Some(c) {
                    (Self::to_hover(c), Some(c))
                } else {
                    (landing, None)
                }
            },
            None => (landing, None),
        }
    }
}

/// How a control is drawn, given the screen's interaction state.
#[derive(Debug, Clone, Copy, PartialEq, Eq, Structural)]
pub enum ButtonVisual {
    Hovered,
    Pressed,
    Plain,
}

impl OptionsState {
    /// The visual a render pass gives control `c` in this state.
    pub fn button_visual(self, c: OptionComponents) -> (v: ButtonVisual)
        ensures
            v == (if hovered_control(self) == Some(c) {
                ButtonVisual::Hovered
            } else if pressed_control(self) == Some(c) {
                ButtonVisual::Pressed
            } else {
                ButtonVisual::Plain
            }),
    {
        let hovered = self.hovered();
        let pressed = self.pressed();
        if hovered.is_some() && hovered.unwrap() == c {
            ButtonVisual::Hovered
        } else if pressed.is_some() && pressed.unwrap() == c {
            ButtonVisual::Pressed
        } else {
            ButtonVisual::Plain
        }
    }
}

/// The states are mutually exclusive: at most one control is active at a
/// time, and never hovered and pressed at once.
pub proof fn lemma_interaction_states_exclusive(s: OptionsState)
    ensures
        !(hovered_control(s) is Some && pressed_control(s) is Some),
{
}

/// What the activation discipline comes to: across a press at one point
/// and a release at another, an action fires exactly once when both points
/// hit the same control, and never otherwise — pressing alone fires
/// nothing, and releasing over a different control, or over nothing,
/// cancels the press.
pub proof fn lemma_press_release_activation(
    s0: OptionsState,
    reg: Seq<(OptionComponents, crate::geometry::Rect)>,
    x1: u16,
    y1: u16,
    x2: u16,
    y2: u16,
)
    ensures
        ({
            let s1 = down_spec(s0, reg, x1, y1);
            let r = up_spec(s1, reg, x2, y2);
            match hit_spec(reg, x1, y1) {
                Some(c) => {
                    &&& (hit_spec(reg, x2, y2) == Some(c) ==> r == (hover_state(c), Some(c)))
                    &&& (hit_spec(reg, x2, y2) != Some(c) ==> r.1 is None)
                },
                None => r.1 is None,
            }
        }),
{
    let s1 = down_spec(s0, reg, x1, y1);
    match hit_spec(reg, x1, y1) {
        Some(c) => {
            assert(pressed_control(press_state(c)) == Some(c));
        },
        None => {
            assert(pressed_control(OptionsState::Idle) is None);
        },
    }
}

} // verus!
