use winmgr::config::Config;
use winmgr::dispatch::{
    Action, Diagnostic, Event, State, Step, PLACEMENT_FLAGS, SWP_FRAMECHANGED, SWP_NOACTIVATE,
    SWP_NOZORDER, WM_HOTKEY, WM_QUIT,
};
use winmgr::keys::{KeyBind, KeyCode};
use winmgr::layout::{CustomLayout, DefaultLayout, Layout, Rect};
use winmgr::registry::KeyBindRegistry;

const FULL_HD: Rect = Rect { left: 0, top: 0, right: 1920, bottom: 1080 };
const LEFT_HALF: Layout = Layout::Default(DefaultLayout::LeftHalf);
const CUSTOM: Layout = Layout::Custom(CustomLayout { x: 5, y: 6, w: 700, h: 800 });

fn registry() -> KeyBindRegistry {
    let cfg = Config {
        margin: 10,
        keybinds: vec![
            KeyBind { modifiers: vec![KeyCode::AltLeft], key: KeyCode::Digit1, layout: LEFT_HALF },
            KeyBind { modifiers: vec![KeyCode::AltLeft], key: KeyCode::Digit2, layout: CUSTOM },
        ],
    };
    KeyBindRegistry::new(cfg, &vec![Some(0xC010), Some(0xC011)])
}

fn waiting(note: Option<Diagnostic>) -> Step {
    Step { state: State::Waiting, action: Action::Wait, note }
}

#[test]
fn message_numbers_and_flags_have_their_system_values() {
    assert_eq!((WM_QUIT, WM_HOTKEY), (18, 786));
    assert_eq!((SWP_NOZORDER, SWP_NOACTIVATE, SWP_FRAMECHANGED), (4, 16, 32));
    assert_eq!(PLACEMENT_FLAGS, SWP_NOZORDER | SWP_NOACTIVATE | SWP_FRAMECHANGED);
}

#[test]
fn quit_message_stops_the_dispatcher() {
    let step = registry().step(State::Waiting, Event::Message { message: WM_QUIT, param: 0 });
    assert_eq!(step, Step { state: State::Stopped, action: Action::Exit, note: None });
}

#[test]
fn stopped_stays_stopped() {
    let r = registry();
    let events = [
        Event::Message { message: WM_HOTKEY, param: 0xC010 },
        Event::Focus { window: Some(1) },
        Event::WorkArea { area: Some(FULL_HD) },
        Event::Placed { ok: true },
    ];
    for event in events {
        let step = r.step(State::Stopped, event);
        assert_eq!(step, Step { state: State::Stopped, action: Action::Exit, note: None });
    }
}

#[test]
fn other_messages_are_passed_over() {
    let r = registry();
    for message in [0u32, 1, 0x000F, 0x0100, 0x0311, 0x0313, u32::MAX] {
        let step = r.step(State::Waiting, Event::Message { message, param: 0xC010 });
        assert_eq!(step, waiting(None));
    }
}

#[test]
fn unknown_hotkey_changes_nothing() {
    let r = registry();
    for id in [0usize, 0xC00F, 0xC012, usize::MAX] {
        let step = r.step(State::Waiting, Event::Message { message: WM_HOTKEY, param: id });
        assert_eq!(step, waiting(Some(Diagnostic::UnknownHotkey { id })));
    }
    assert_eq!(r.len(), 2);
    assert_eq!(r.binding_index(0xC010), Some(0));
    assert_eq!(r.binding_index(0xC011), Some(1));
}

#[test]
fn known_hotkey_asks_for_the_focused_window() {
    let r = registry();
    let step = r.step(State::Waiting, Event::Message { message: WM_HOTKEY, param: 0xC011 });
    assert_eq!(
        step,
        Step { state: State::Focusing { layout: CUSTOM }, action: Action::QueryFocus, note: None }
    );
}

#[test]
fn no_focused_window_is_passed_over_silently() {
    let step = registry().step(State::Focusing { layout: LEFT_HALF }, Event::Focus { window: None });
    assert_eq!(step, waiting(None));
}

#[test]
fn focused_window_asks_for_its_work_area() {
    let step =
        registry().step(State::Focusing { layout: LEFT_HALF }, Event::Focus { window: Some(-77) });
    assert_eq!(
        step,
        Step {
            state: State::Measuring { layout: LEFT_HALF, window: -77 },
            action: Action::QueryWorkArea { window: -77 },
            note: None,
        }
    );
}

#[test]
fn failed_monitor_query_is_reported() {
    let step = registry()
        .step(State::Measuring { layout: LEFT_HALF, window: 3 }, Event::WorkArea { area: None });
    assert_eq!(step, waiting(Some(Diagnostic::NoWorkArea)));
}

#[test]
fn work_area_places_the_window() {
    let r = registry();
    let step = r.step(
        State::Measuring { layout: LEFT_HALF, window: 3 },
        Event::WorkArea { area: Some(FULL_HD) },
    );
    assert_eq!(
        step,
        Step {
            state: State::Placing,
            action: Action::Place { window: 3, x: 10, y: 10, w: 950, h: 1060, flags: 0x34 },
            note: None,
        }
    );
    let step = r.step(
        State::Measuring { layout: CUSTOM, window: 4 },
        Event::WorkArea { area: Some(FULL_HD) },
    );
    assert_eq!(
        step.action,
        Action::Place { window: 4, x: 5, y: 6, w: 700, h: 800, flags: 0x34 }
    );
}

#[test]
fn rectangle_out_of_range_is_reported() {
    let area = Rect { left: i32::MAX - 5, top: 0, right: i32::MAX, bottom: 100 };
    let step = registry()
        .step(State::Measuring { layout: LEFT_HALF, window: 3 }, Event::WorkArea { area: Some(area) });
    assert_eq!(step, waiting(Some(Diagnostic::OutOfRange)));
}

#[test]
fn placement_ends_the_activation() {
    let r = registry();
    assert_eq!(r.step(State::Placing, Event::Placed { ok: true }), waiting(None));
    assert_eq!(
        r.step(State::Placing, Event::Placed { ok: false }),
        waiting(Some(Diagnostic::NotPlaced))
    );
}

#[test]
fn event_out_of_turn_gives_the_activation_up() {
    let r = registry();
    let cases = [
        (State::Waiting, Event::Focus { window: Some(1) }),
        (State::Waiting, Event::Placed { ok: true }),
        (State::Focusing { layout: LEFT_HALF }, Event::Message { message: WM_QUIT, param: 0 }),
        (State::Focusing { layout: LEFT_HALF }, Event::WorkArea { area: Some(FULL_HD) }),
        (State::Measuring { layout: LEFT_HALF, window: 1 }, Event::Focus { window: Some(1) }),
        (State::Placing, Event::WorkArea { area: None }),
    ];
    for (state, event) in cases {
        assert_eq!(r.step(state, event), waiting(Some(Diagnostic::Unexpected)));
    }
}

#[test]
fn whole_activation_from_hotkey_to_placement() {
    let r = registry();
    let mut state = State::Waiting;
    let answers = [
        Event::Message { message: 0x0200, param: 0 },
        Event::Message { message: WM_HOTKEY, param: 0xC010 },
        Event::Focus { window: Some(42) },
        Event::WorkArea { area: Some(FULL_HD) },
        Event::Placed { ok: true },
        Event::Message { message: WM_QUIT, param: 0 },
    ];
    let mut actions = Vec::new();
    for event in answers {
        let step = r.step(state, event);
        assert_eq!(step.note, None);
        state = step.state;
        actions.push(step.action);
    }
    assert_eq!(
        actions,
        vec![
            Action::Wait,
            Action::QueryFocus,
            Action::QueryWorkArea { window: 42 },
            Action::Place { window: 42, x: 10, y: 10, w: 950, h: 1060, flags: 0x34 },
            Action::Wait,
            Action::Exit,
        ]
    );
    assert_eq!(state, State::Stopped);
}
