use swa::cadence::{Schedule, FRAME_INTERVAL_NANOS};
use swa::event::{Callback, ElementState, LoopEvent, SemanticEvent, WindowEvent};
use swa::main_loop::MainLoop;

type Raw = WindowEvent<u32, u8, u32, (u32, u32), (f64, f64), f64>;
type Event = LoopEvent<&'static str, u32, u8, u32, (u32, u32), (f64, f64), f64>;
type Input = SemanticEvent<u32, u8, u32, (u32, u32), (f64, f64), f64>;
type Owed = Callback<&'static str, u32, u8, u32, (u32, u32), (f64, f64), f64>;

const WAIT: Schedule = Schedule::WaitUntil { nanos_after_render: FRAME_INTERVAL_NANOS };

#[test]
fn new_loop_runs_under_the_starting_factor() {
    let main_loop = MainLoop::new(1.5);
    assert!(main_loop.is_running());
    assert_eq!(main_loop.scale_factor(), 1.5);
}

#[test]
fn every_iteration_renders_first() {
    let mut main_loop = MainLoop::new(1.0);
    let iteration = main_loop.iterate(Event::Window(Raw::FocusChanged(true)));
    assert_eq!(iteration.callbacks, vec![Owed::Render, Owed::Input(Input::SetFocus(true))]);
    assert_eq!(iteration.schedule, WAIT);
}

#[test]
fn other_platform_event_only_renders() {
    let mut main_loop = MainLoop::new(1.0);
    let iteration = main_loop.iterate(Event::Other);
    assert_eq!(iteration.callbacks, vec![Owed::Render]);
    assert_eq!(iteration.schedule, WAIT);
    assert!(main_loop.is_running());
}

#[test]
fn other_window_event_only_renders() {
    let mut main_loop = MainLoop::new(1.0);
    let iteration = main_loop.iterate(Event::Window(Raw::Other));
    assert_eq!(iteration.callbacks, vec![Owed::Render]);
    assert_eq!(iteration.schedule, WAIT);
}

#[test]
fn pressed_key_reaches_the_application_twice() {
    let mut main_loop = MainLoop::new(1.0);
    let event = Event::Window(Raw::KeyInput { key: Some(7), state: ElementState::Pressed });
    let iteration = main_loop.iterate(event);
    assert_eq!(
        iteration.callbacks,
        vec![Owed::Render, Owed::Input(Input::PressKey(7)), Owed::Input(Input::PressKey(7))]
    );
}

#[test]
fn messages_are_received_in_the_order_sent() {
    let mut main_loop = MainLoop::new(1.0);
    let callbacks = main_loop.run(vec![Event::User("M1"), Event::User("M2")]);
    assert_eq!(
        callbacks,
        vec![Owed::Render, Owed::Receive("M1"), Owed::Render, Owed::Receive("M2")]
    );
}

#[test]
fn messages_keep_their_order_among_window_events() {
    let mut main_loop = MainLoop::new(1.0);
    let callbacks = main_loop.run(vec![
        Event::User("a"),
        Event::Window(Raw::FocusChanged(false)),
        Event::User("b"),
        Event::Other,
        Event::User("c"),
    ]);
    let received: Vec<&str> = callbacks
        .iter()
        .filter_map(|callback| match callback {
            Owed::Receive(message) => Some(*message),
            _ => None,
        })
        .collect();
    assert_eq!(received, vec!["a", "b", "c"]);
    assert_eq!(callbacks.len(), 5 + 3 + 1);
}

#[test]
fn resize_before_and_after_a_scale_change() {
    let mut main_loop = MainLoop::new(1.0);
    let callbacks = main_loop.run(vec![
        Event::Window(Raw::Resized((800, 600))),
        Event::Window(Raw::ScaleFactorChanged(2.0)),
        Event::Window(Raw::Resized((800, 600))),
    ]);
    assert_eq!(
        callbacks,
        vec![
            Owed::Render,
            Owed::Input(Input::Resize { size: (800, 600), scale_factor: 1.0 }),
            Owed::Render,
            Owed::Render,
            Owed::Input(Input::Resize { size: (800, 600), scale_factor: 2.0 }),
        ]
    );
    assert_eq!(main_loop.scale_factor(), 2.0);
}

#[test]
fn cursor_move_before_and_after_a_scale_change() {
    let mut main_loop = MainLoop::new(1.0);
    let before = main_loop.iterate(Event::Window(Raw::CursorMoved((30.0, 40.0))));
    let change = main_loop.iterate(Event::Window(Raw::ScaleFactorChanged(1.25)));
    let after = main_loop.iterate(Event::Window(Raw::CursorMoved((30.0, 40.0))));
    assert_eq!(
        before.callbacks,
        vec![
            Owed::Render,
            Owed::Input(Input::MoveCursor { position: (30.0, 40.0), scale_factor: 1.0 }),
        ]
    );
    assert_eq!(change.callbacks, vec![Owed::Render]);
    assert_eq!(
        after.callbacks,
        vec![
            Owed::Render,
            Owed::Input(Input::MoveCursor { position: (30.0, 40.0), scale_factor: 1.25 }),
        ]
    );
}

#[test]
fn latest_scale_change_wins() {
    let mut main_loop = MainLoop::new(1.0);
    let callbacks = main_loop.run(vec![
        Event::Window(Raw::ScaleFactorChanged(2.0)),
        Event::Window(Raw::ScaleFactorChanged(3.0)),
        Event::Window(Raw::Resized((30, 60))),
    ]);
    assert_eq!(
        callbacks.last(),
        Some(&Owed::Input(Input::Resize { size: (30, 60), scale_factor: 3.0 }))
    );
}

#[test]
fn close_request_ends_the_loop() {
    let mut main_loop = MainLoop::new(1.0);
    let iteration = main_loop.iterate(Event::Window(Raw::CloseRequested));
    assert_eq!(iteration.callbacks, vec![Owed::Render]);
    assert_eq!(iteration.schedule, Schedule::Exit);
    assert!(!main_loop.is_running());
}

#[test]
fn destroyed_window_ends_the_loop() {
    let mut main_loop = MainLoop::new(1.0);
    let iteration = main_loop.iterate(Event::Window(Raw::Destroyed));
    assert_eq!(iteration.callbacks, vec![Owed::Render]);
    assert_eq!(iteration.schedule, Schedule::Exit);
    assert!(!main_loop.is_running());
}

#[test]
fn ended_loop_owes_nothing() {
    let mut main_loop = MainLoop::new(1.0);
    main_loop.iterate(Event::Window(Raw::CloseRequested));
    for event in [
        Event::Window(Raw::FocusChanged(true)),
        Event::User("late"),
        Event::Window(Raw::ScaleFactorChanged(4.0)),
        Event::Window(Raw::CloseRequested),
        Event::Other,
    ] {
        let iteration = main_loop.iterate(event);
        assert_eq!(iteration.callbacks, vec![]);
        assert_eq!(iteration.schedule, Schedule::Exit);
        assert!(!main_loop.is_running());
        assert_eq!(main_loop.scale_factor(), 1.0);
    }
}

#[test]
fn message_queued_before_close_is_received() {
    let mut main_loop = MainLoop::new(1.0);
    let callbacks = main_loop.run(vec![Event::User("M"), Event::Window(Raw::CloseRequested)]);
    assert_eq!(callbacks, vec![Owed::Render, Owed::Receive("M"), Owed::Render]);
    assert!(!main_loop.is_running());
}

#[test]
fn message_queued_after_close_is_not_received() {
    let mut main_loop = MainLoop::new(1.0);
    let callbacks = main_loop.run(vec![Event::Window(Raw::CloseRequested), Event::User("M")]);
    assert_eq!(callbacks, vec![Owed::Render]);
    assert!(!main_loop.is_running());
}

#[test]
fn run_agrees_with_iterating_one_by_one() {
    let events = || {
        vec![
            Event::Window(Raw::KeyInput { key: Some(1), state: ElementState::Released }),
            Event::User("x"),
            Event::Window(Raw::ScaleFactorChanged(2.0)),
            Event::Window(Raw::MouseInput { button: 2, state: ElementState::Pressed }),
            Event::Window(Raw::Destroyed),
            Event::Window(Raw::Resized((1, 1))),
        ]
    };
    let mut batch = MainLoop::new(1.0);
    let all = batch.run(events());
    let mut stepwise = MainLoop::new(1.0);
    let mut collected = Vec::new();
    for event in events() {
        collected.extend(stepwise.iterate(event).callbacks);
    }
    assert_eq!(all, collected);
    assert_eq!(batch, stepwise);
    assert_eq!(
        all,
        vec![
            Owed::Render,
            Owed::Input(Input::ReleaseKey(1)),
            Owed::Render,
            Owed::Receive("x"),
            Owed::Render,
            Owed::Render,
            Owed::Input(Input::PressMouse(2)),
            Owed::Render,
        ]
    );
}

#[test]
fn empty_run_owes_nothing() {
    let mut main_loop = MainLoop::new(1.0);
    let callbacks: Vec<Owed> = main_loop.run(Vec::new());
    assert_eq!(callbacks, vec![]);
    assert!(main_loop.is_running());
}
