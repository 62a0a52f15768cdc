//! The screen router and its event dispatch: one active screen at a time,
//! decoded events routed to the active screen's handler, transitions applied
//! synchronously so later events of the same batch see the new screen.

use vstd::prelude::*;

use crate::bindings::KeyBinding;
use crate::bindings::KeyBindings;
use crate::bindings::find_binding;
use crate::bindings::table_wf;
use crate::geometry::Rect;
use crate::interaction::OptionsState;
use crate::interaction::down_spec;
use crate::interaction::moved_spec;
use crate::interaction::up_spec;
use crate::keys::KeyCode;
use crate::keys::KeyEventKind;
use crate::keys::Modifiers;
use crate::registry::OptionComponents;
use crate::registry::RegisteredComponents;

verus! {

/// The top-level views of the application; exactly one is active.
#[derive(Debug, Clone, Copy, PartialEq, Eq, Hash, Structural)]
pub enum AppState {
    Home,
    Options,
}

impl Default for AppState {
    /// The application starts on the home screen.
    fn default() -> (s: Self)
        ensures
            s == AppState::Home,
    {
        AppState::Home
    }
}

/// A pointer button.
#[derive(Debug, Clone, Copy, PartialEq, Eq, Structural)]
pub enum MouseButton {
    Left,
    Right,
    Middle,
}

/// What a decoded mouse event reports.
#[derive(Debug, Clone, Copy, PartialEq, Eq, Structural)]
pub enum MouseEventKind {
    Moved,
    Down(MouseButton),
    Up(MouseButton),
    Scroll,
}

/// A decoded mouse event at a cell of the character grid.
#[derive(Debug, Clone, Copy, PartialEq, Eq, Structural)]
pub struct MouseEvent {
    pub kind: MouseEventKind,
    pub column: u16,
    pub row: u16,
}

/// A decoded key event.
#[derive(Debug, Clone, Copy, PartialEq, Eq, Structural)]
pub struct KeyEvent {
    pub code: KeyCode,
    pub modifiers: Modifiers,
    pub kind: KeyEventKind,
}

/// One raw input event, as the input feed delivers them.
#[derive(Debug, Clone, Copy, PartialEq, Eq, Structural)]
pub enum InputEvent {
    Mouse(MouseEvent),
    Key(KeyEvent),
}

/// What dispatching one event produced: an application-exit request, and
/// the control whose action fired, if any.
#[derive(Debug, Clone, Copy, PartialEq, Eq, Structural)]
pub struct EventOutcome {
    pub exit_requested: bool,
    pub activated: Option<OptionComponents>,
}

/// The outcome of dispatching one event without any request or action.
pub open spec fn quiet_outcome() -> EventOutcome {
    EventOutcome { exit_requested: false, activated: None }
}

/// The key combination an event stands for once the binding table has
/// spoken: the bound system combination, or the event's own pair when the
/// pair is not bound (the system default).
pub open spec fn effective_key(binds: Seq<KeyBinding>, code: KeyCode, modifiers: Modifiers) -> (
    KeyCode,
    Modifiers,
) {
    match find_binding(binds, code, modifiers) {
        Some(b) => (b.system_key, b.system_key_modifiers),
        None => (code, modifiers),
    }
}

/// Does a key event, already resolved to `code`, ask the home screen to
/// exit the application? Only the release edge of `q` or `Esc` does.
pub open spec fn home_exit_requested(code: KeyCode, kind: KeyEventKind) -> bool {
    kind == KeyEventKind::Release && (code == KeyCode::Char('q') || code == KeyCode::Esc)
}

/// Does a key event, already resolved to `code`, ask the options screen to
/// go back home? Only the release edge of `Esc` does.
pub open spec fn options_back_requested(code: KeyCode, kind: KeyEventKind) -> bool {
    kind == KeyEventKind::Release && code == KeyCode::Esc
}

/// The router's whole state, as mathematics: the active screen, the options
/// screen's interaction state and registry contents, and the binding
/// table's records.
pub struct RouterModel {
    pub screen: AppState,
    pub options_state: OptionsState,
    pub options_registry: Seq<(OptionComponents, Rect)>,
    pub key_bindings: Seq<KeyBinding>,
}

/// What dispatching one event does to the router. Key events are resolved
/// through the binding table first. A transition away from the options
/// screen resets its interaction state and empties its registry, so no
/// stale rectangle outlives the screen.
pub open spec fn step_spec(m: RouterModel, e: InputEvent) -> (RouterModel, EventOutcome) {
    match m.screen {
        AppState::Home => match e {
            InputEvent::Mouse(_) => (m, quiet_outcome()),
            InputEvent::Key(k) => {
                let (code, _mods) = effective_key(m.key_bindings, k.code, k.modifiers);
                if home_exit_requested(code, k.kind) {
                    (m, EventOutcome { exit_requested: true, activated: None })
                } else {
                    (m, quiet_outcome())
                }
            },
        },
        AppState::Options => match e {
            InputEvent::Mouse(me) => match me.kind {
                MouseEventKind::Moved => (
                    RouterModel {
                        options_state: moved_spec(
                            m.options_state,
                            m.options_registry,
                            me.column,
                            me.row,
                        ),
                        ..m
                    },
                    quiet_outcome(),
                ),
                MouseEventKind::Down(_) => (
                    RouterModel {
                        options_state: down_spec(
                            m.options_state,
                            m.options_registry,
                            me.column,
                            me.row,
                        ),
                        ..m
                    },
                    quiet_outcome(),
                ),
                MouseEventKind::Up(_) => {
                    let r = up_spec(m.options_state, m.options_registry, me.column, me.row);
                    (
                        RouterModel { options_state: r.0, ..m },
                        EventOutcome { exit_requested: false, activated: r.1 },
                    )
                },
                MouseEventKind::Scroll => (m, quiet_outcome()),
            },
            InputEvent::Key(k) => {
                let (code, _mods) = effective_key(m.key_bindings, k.code, k.modifiers);
                if options_back_requested(code, k.kind) {
                    (
                        RouterModel {
                            screen: AppState::Home,
                            options_state: OptionsState::Idle,
                            options_registry: Seq::empty(),
                            key_bindings: m.key_bindings,
                        },
                        quiet_outcome(),
                    )
                } else {
                    (m, quiet_outcome())
                }
            },
        },
    }
}

/// Dispatching a whole batch, front to back: each event is handled by the
/// screen active when its turn comes, exit requests accumulate, and fired
/// activations are collected in order.
pub open spec fn run_spec(m: RouterModel, es: Seq<InputEvent>) -> (
    RouterModel,
    bool,
    Seq<OptionComponents>,
)
    decreases es.len(),
{
    if es.len() == 0 {
        (m, false, Seq::empty())
    } else {
        let (m1, o1) = step_spec(m, es[0]);
        let (m2, exit, acts) = run_spec(m1, es.drop_first());
        let first_acts = match o1.activated {
            Some(c) => seq![c],
            None => Seq::<OptionComponents>::empty(),
        };
        (m2, o1.exit_requested || exit, first_acts + acts)
    }
}

/// The screen router: owner of the active screen, of the options screen's
/// interaction state and control registry, and of the process-wide key
/// binding table.
#[derive(Debug)]
pub struct Router {
    pub screen: AppState,
    pub options_state: OptionsState,
    pub options_registry: RegisteredComponents,
    pub key_bindings: KeyBindings,
}

/// What dispatching a whole batch produced.
#[derive(Debug)]
pub struct BatchOutcome {
    pub exit_requested: bool,
    pub activations: Vec<OptionComponents>,
}

impl Router {
    /// The router's state as mathematics.
    pub open spec fn model(&self) -> RouterModel {
        RouterModel {
            screen: self.screen,
            options_state: self.options_state,
            options_registry: self.options_registry@,
            key_bindings: self.key_bindings@,
        }
    }

    /// A fresh router: home screen active, nothing hovered or pressed, no
    /// control registered, no binding recorded.
    pub fn new() -> (r: Router)
        ensures
            r.model() == (RouterModel {
                screen: AppState::Home,
                options_state: OptionsState::Idle,
                options_registry: Seq::<(OptionComponents, Rect)>::empty(),
                key_bindings: Seq::<KeyBinding>::empty(),
            }),
            table_wf(r.key_bindings@),
    {
        Router {
            screen: AppState::Home,
            options_state: OptionsState::Idle,
            options_registry: RegisteredComponents::new(),
            key_bindings: KeyBindings::new(),
        }
    }

    /// Dispatches one event to the handler of the screen that is active
    /// now, applying a requested transition at once.
    pub fn handle_event(&mut self, e: &InputEvent) -> (out: EventOutcome)
        requires
            table_wf(old(self).key_bindings@),
        ensures
            final(self).model() == step_spec(old(self).model(), *e).0,
            out == step_spec(old(self).model(), *e).1,
            final(self).key_bindings == old(self).key_bindings,
            table_wf(final(self).key_bindings@),
    {
        match self.screen {
            AppState::Home => match e {
                InputEvent::Mouse(_) => EventOutcome { exit_requested: false, activated: None },
                InputEvent::Key(k) => {
                    let code = match self.key_bindings.resolve(k.code, k.modifiers) {
                        Ok(p) => p.0,
                        Err(_) => k.code,
                    };
                    let exit = k.kind == KeyEventKind::Release && (code == KeyCode::Char('q')
                        || code == KeyCode::Esc);
                    EventOutcome { exit_requested: exit, activated: None }
                },
            },
            AppState::Options => match e {
                InputEvent::Mouse(me) => match me.kind {
                    MouseEventKind::Moved => {
                        self.options_state = self.options_state.on_pointer_moved(
                            &self.options_registry,
                            me.column,
                            me.row,
                        );
                        EventOutcome { exit_requested: false, activated: None }
                    },
                    MouseEventKind::Down(_) => {
                        self.options_state = self.options_state.on_pointer_down(
                            &self.options_registry,
                            me.column,
                            me.row,
                        );
                        EventOutcome { exit_requested: false, activated: None }
                    },
                    MouseEventKind::Up(_) => {
                        let r = self.options_state.on_pointer_up(
                            &self.options_registry,
                            me.column,
                            me.row,
                        );
                        self.options_state = r.0;
                        EventOutcome { exit_requested: false, activated: r.1 }
                    },
                    MouseEventKind::Scroll => EventOutcome {
                        exit_requested: false,
                        activated: None,
                    },
                },
                InputEvent::Key(k) => {
                    let code = match self.key_bindings.resolve(k.code, k.modifiers) {
                        Ok(p) => p.0,
                        Err(_) => k.code,
                    };
                    if k.kind == KeyEventKind::Release && code == KeyCode::Esc {
                        self.screen = AppState::Home;
                        self.options_state = OptionsState::Idle;
                        self.options_registry.clear();
                    }
                    EventOutcome { exit_requested: false, activated: None }
                },
            },
        }
    }

    /// Drains a batch of events in arrival order. A transition requested by
    /// one event takes effect for the events after it; events already
    /// routed are not revisited.
    pub fn process_events(&mut self, events: &Vec<InputEvent>) -> (out: BatchOutcome)
        requires
            table_wf(old(self).key_bindings@),
        ensures
            final(self).model() == run_spec(old(self).model(), events@).0,
            out.exit_requested == run_spec(old(self).model(), events@).1,
            out.activations@ == run_spec(old(self).model(), events@).2,
            final(self).key_bindings == old(self).key_bindings,
            table_wf(final(self).key_bindings@),
    {
        let ghost m0 = self.model();
        let n: usize = events.len();
        let mut exit: bool = false;
        let mut acts: Vec<OptionComponents> = Vec::new();
        let mut i: usize = 0;
        proof {
            assert(events@.skip(0) =~= events@);
        }
        while i < n
            invariant
                i <= n,
                n == events@.len(),
                table_wf(self.key_bindings@),
                self.key_bindings == old(self).key_bindings,
                run_spec(m0, events@).0 == run_spec(self.model(), events@.skip(i as int)).0,
                run_spec(m0, events@).1 == (exit || run_spec(
                    self.model(),
                    events@.skip(i as int),
                ).1),
                run_spec(m0, events@).2 == acts@ + run_spec(
                    self.model(),
                    events@.skip(i as int),
                ).2,
                m0 == old(self).model(),
            decreases n - i,
        {
            let ghost pre_model = self.model();
            let ghost rest = events@.skip(i as int);
            let o = self.handle_event(&events[i]);
            if o.exit_requested {
                exit = true;
            }
            match o.activated {
                Some(c) => acts.push(c),
                None => (),
            }
            i += 1;
            proof {
                assert(rest[0] == events@[i - 1]);
                assert(rest.drop_first() =~= events@.skip(i as int));
                assert(step_spec(pre_model, rest[0]).0 == self.model());
                assert(step_spec(pre_model, rest[0]).1 == o);
                match o.activated {
                    Some(c) => {
                        assert(run_spec(pre_model, rest).2 == seq![c] + run_spec(
                            self.model(),
                            events@.skip(i as int),
                        ).2);
                    },
                    None => {
                        assert(run_spec(pre_model, rest).2 =~= Seq::<
                            OptionComponents,
                        >::empty() + run_spec(self.model(), events@.skip(i as int)).2);
                    },
                }
            }
        }
        proof {
            assert(events@.skip(n as int) =~= Seq::<InputEvent>::empty());
            assert(run_spec(self.model(), events@.skip(n as int)).2 =~= Seq::<
                OptionComponents,
            >::empty());
            assert(acts@ + Seq::<OptionComponents>::empty() =~= acts@);
        }
        BatchOutcome { exit_requested: exit, activations: acts }
    }

    /// Begins a render pass: the active screen's registry is emptied so the
    /// pass can rebuild it from the current layout before any hit-testing
    /// trusts it. The home screen registers no controls.
    pub fn begin_render_pass(&mut self)
        ensures
            final(self).screen == old(self).screen,
            final(self).options_state == old(self).options_state,
            final(self).key_bindings == old(self).key_bindings,
            old(self).screen == AppState::Options ==> final(self).options_registry@ == Seq::<
                (OptionComponents, Rect),
            >::empty(),
            old(self).screen != AppState::Options ==> final(self).options_registry
                == old(self).options_registry,
    {
        if self.screen == AppState::Options {
            self.options_registry.clear();
        }
    }
}

} // verus!
