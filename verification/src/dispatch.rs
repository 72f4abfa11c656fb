//! The event dispatcher as a state machine: what to ask of the operating
//! system next, given what it answered last.
//!
//! The caller runs the loop. It starts in [`State::Waiting`] with
//! [`Action::Wait`], performs each action, and hands the answer to
//! [`KeyBindRegistry::step`] as an [`Event`], until the action is
//! [`Action::Exit`].

use crate::layout::{Layout, Rect};
use crate::registry::KeyBindRegistry;
use vstd::prelude::*;

verus! {

/// The message that ends the process.
pub const WM_QUIT: u32 = 0x0012;

/// The message that says a registered hotkey was pressed; its parameter is the
/// hotkey's identifier.
pub const WM_HOTKEY: u32 = 0x0312;

/// Placement flag: keep the window's place in the z-order.
pub const SWP_NOZORDER: u32 = 0x0004;

/// Placement flag: do not activate the window.
pub const SWP_NOACTIVATE: u32 = 0x0010;

/// Placement flag: have the window redraw its frame.
pub const SWP_FRAMECHANGED: u32 = 0x0020;

/// The flags of every placement: the three above together.
pub const PLACEMENT_FLAGS: u32 = 0x0034;

/// The placement flags are the three single flags, and nothing else.
pub proof fn lemma_placement_flags()
    ensures
        PLACEMENT_FLAGS == SWP_NOZORDER | SWP_NOACTIVATE | SWP_FRAMECHANGED,
{
    assert(0x0034u32 == 0x0004u32 | 0x0010u32 | 0x0020u32) by (bit_vector);
}

/// Where the dispatcher stands. `Focusing`, `Measuring` and `Placing` are the
/// stages of processing one activation; each hands over to the next or gives
/// the activation up and waits again.
#[derive(Clone, Copy, Debug, PartialEq, Eq, Structural)]
pub enum State {
    /// Waiting for the next message.
    Waiting,
    /// A hotkey of a binding with this layout was pressed; the focused window
    /// is being asked for.
    Focusing { layout: Layout },
    /// The work area of the monitor that holds `window` is being asked for.
    Measuring { layout: Layout, window: isize },
    /// The window is being placed.
    Placing,
    /// The quit message came: nothing more happens.
    Stopped,
}

/// What the operating system answered to the last action.
#[derive(Clone, Copy, Debug, PartialEq, Eq, Structural)]
pub enum Event {
    /// The next message of the queue, and its first parameter.
    Message { message: u32, param: usize },
    /// The focused window, if there is one.
    Focus { window: Option<isize> },
    /// The work area that was asked for, if the query succeeded.
    WorkArea { area: Option<Rect> },
    /// Whether the window was placed.
    Placed { ok: bool },
}

/// What to ask of the operating system next.
#[derive(Clone, Copy, Debug, PartialEq, Eq, Structural)]
pub enum Action {
    /// Block until the next message; answer with [`Event::Message`].
    Wait,
    /// Find the focused window; answer with [`Event::Focus`].
    QueryFocus,
    /// Find the work area of the monitor nearest to `window`; answer with
    /// [`Event::WorkArea`].
    QueryWorkArea { window: isize },
    /// Move `window` to the rectangle, under `flags`; answer with
    /// [`Event::Placed`].
    Place { window: isize, x: i32, y: i32, w: i32, h: i32, flags: u32 },
    /// Leave the loop.
    Exit,
}

/// What went wrong in a step. None of it ends the loop.
#[derive(Clone, Copy, Debug, PartialEq, Eq, Structural)]
pub enum Diagnostic {
    /// A hotkey message named an identifier that no binding was registered
    /// under.
    UnknownHotkey { id: usize },
    /// The work area could not be found.
    NoWorkArea,
    /// The layout's rectangle cannot be written in 32-bit coordinates.
    OutOfRange,
    /// The window could not be placed.
    NotPlaced,
    /// The event does not answer the action that the state waits for.
    Unexpected,
}

/// The outcome of one step.
#[derive(Clone, Copy, Debug, PartialEq, Eq, Structural)]
pub struct Step {
    pub state: State,
    pub action: Action,
    pub note: Option<Diagnostic>,
}

impl State {
    /// Whether one activation is being processed.
    pub open spec fn processing(self) -> bool {
        self is Focusing || self is Measuring || self is Placing
    }

    /// How many answers the state is away from waiting again, at most.
    pub open spec fn distance(self) -> nat {
        match self {
            State::Focusing { .. } => 3,
            State::Measuring { .. } => 2,
            State::Placing => 1,
            State::Waiting | State::Stopped => 0,
        }
    }
}

/// Waiting again, with nothing to report but `note`.
pub open spec fn back_to_waiting(note: Option<Diagnostic>) -> Step {
    Step { state: State::Waiting, action: Action::Wait, note }
}

impl KeyBindRegistry {
    /// The step that a message leads to while waiting: the quit message stops
    /// the dispatcher; a hotkey message of a registered identifier starts an
    /// activation with the layout of its binding; a hotkey message of any
    /// other identifier is reported; every other message is passed over.
    pub open spec fn spec_on_message(self, message: u32, param: usize) -> Step {
        if message == WM_QUIT {
            Step { state: State::Stopped, action: Action::Exit, note: None }
        } else if message == WM_HOTKEY {
            match self.spec_resolve(param) {
                Some(keybind) => Step {
                    state: State::Focusing { layout: keybind.layout },
                    action: Action::QueryFocus,
                    note: None,
                },
                None => back_to_waiting(Some(Diagnostic::UnknownHotkey { id: param })),
            }
        } else {
            back_to_waiting(None)
        }
    }

    /// The step that the work area leads to: the window goes to the layout's
    /// rectangle, if that can be written down.
    pub open spec fn spec_on_work_area(self, layout: Layout, window: isize, area: Rect) -> Step {
        let margin = self.config().margin;
        if layout.fits(margin, area) {
            let r = layout.spec_calc(margin, area);
            Step {
                state: State::Placing,
                action: Action::Place {
                    window,
                    x: r.0 as i32,
                    y: r.1 as i32,
                    w: r.2 as i32,
                    h: r.3 as i32,
                    flags: PLACEMENT_FLAGS,
                },
                note: None,
            }
        } else {
            back_to_waiting(Some(Diagnostic::OutOfRange))
        }
    }

    /// The step from `state` on `event`.
    ///
    /// Once stopped, the dispatcher stays stopped. An event that does not
    /// answer what the state waits for gives the activation up. So does a
    /// missing window, silently, and a failed query or placement, with a
    /// report.
    pub open spec fn spec_step(self, state: State, event: Event) -> Step {
        match (state, event) {
            (State::Stopped, _) => Step { state: State::Stopped, action: Action::Exit, note: None },
            (State::Waiting, Event::Message { message, param }) => self.spec_on_message(
                message,
                param,
            ),
            (State::Focusing { layout }, Event::Focus { window: Some(window) }) => Step {
                state: State::Measuring { layout, window },
                action: Action::QueryWorkArea { window },
                note: None,
            },
            (State::Focusing { .. }, Event::Focus { window: None }) => back_to_waiting(None),
            (State::Measuring { layout, window }, Event::WorkArea { area: Some(area) }) =>
                self.spec_on_work_area(layout, window, area),
            (State::Measuring { .. }, Event::WorkArea { area: None }) => back_to_waiting(
                Some(Diagnostic::NoWorkArea),
            ),
            (State::Placing, Event::Placed { ok }) => back_to_waiting(
                if ok {
                    None
                } else {
                    Some(Diagnostic::NotPlaced)
                },
            ),
            _ => back_to_waiting(Some(Diagnostic::Unexpected)),
        }
    }

    /// One step of the dispatcher: the next state, what to ask of the
    /// operating system next, and what there is to report.
    pub fn step(&self, state: State, event: Event) -> (r: Step)
        ensures
            r == self.spec_step(state, event),
    {
        match (state, event) {
            (State::Stopped, _) => Step { state: State::Stopped, action: Action::Exit, note: None },
            (State::Waiting, Event::Message { message, param }) => self.on_message(message, param),
            (State::Focusing { layout }, Event::Focus { window: Some(window) }) => Step {
                state: State::Measuring { layout, window },
                action: Action::QueryWorkArea { window },
                note: None,
            },
            (State::Focusing { .. }, Event::Focus { window: None }) => waiting(None),
            (State::Measuring { layout, window }, Event::WorkArea { area: Some(area) }) => {
                match layout.try_calc(self.margin(), &area) {
                    Some((x, y, w, h)) => Step {
                        state: State::Placing,
                        action: Action::Place { window, x, y, w, h, flags: PLACEMENT_FLAGS },
                        note: None,
                    },
                    None => waiting(Some(Diagnostic::OutOfRange)),
                }
            },
            (State::Measuring { .. }, Event::WorkArea { area: None }) => waiting(
                Some(Diagnostic::NoWorkArea),
            ),
            (State::Placing, Event::Placed { ok }) => waiting(
                if ok {
                    None
                } else {
                    Some(Diagnostic::NotPlaced)
                },
            ),
            _ => waiting(Some(Diagnostic::Unexpected)),
        }
    }

    fn on_message(&self, message: u32, param: usize) -> (r: Step)
        ensures
            r == self.spec_on_message(message, param),
    {
        if message == WM_QUIT {
            Step { state: State::Stopped, action: Action::Exit, note: None }
        } else if message == WM_HOTKEY {
            match self.resolve(param) {
                Some(keybind) => Step {
                    state: State::Focusing { layout: keybind.layout },
                    action: Action::QueryFocus,
                    note: None,
                },
                None => waiting(Some(Diagnostic::UnknownHotkey { id: param })),
            }
        } else {
            waiting(None)
        }
    }
}

fn waiting(note: Option<Diagnostic>) -> (r: Step)
    ensures
        r == back_to_waiting(note),
{
    Step { state: State::Waiting, action: Action::Wait, note }
}

/// A hotkey message whose identifier no binding was registered under changes
/// nothing: the dispatcher goes on waiting, and reports the identifier.
pub proof fn lemma_unknown_hotkey_changes_nothing(registry: KeyBindRegistry, id: usize)
    requires
        !registry.bindings().contains_key(id),
    ensures
        registry.spec_resolve(id) is None,
        registry.spec_step(State::Waiting, Event::Message { message: WM_HOTKEY, param: id })
            == back_to_waiting(Some(Diagnostic::UnknownHotkey { id })),
{
}

/// Only the quit message stops the dispatcher, and only while it waits;
/// nothing that fails does.
pub proof fn lemma_stops_on_quit_only(registry: KeyBindRegistry, state: State, event: Event)
    ensures
        registry.spec_step(state, event).state is Stopped <==> state is Stopped || (state
            is Waiting && event is Message && event->message == WM_QUIT),
        registry.spec_step(state, event).action is Exit <==> registry.spec_step(
            state,
            event,
        ).state is Stopped,
{
}

/// Processing always returns to waiting: whatever the answer, a stage hands
/// over to a later stage or to `Waiting`, so that an activation is over after
/// three answers at most.
pub proof fn lemma_processing_returns_to_waiting(
    registry: KeyBindRegistry,
    state: State,
    event: Event,
)
    requires
        state.processing(),
    ensures
        registry.spec_step(state, event).state.distance() < state.distance(),
        !(registry.spec_step(state, event).state is Stopped),
{
}

} // verus!
