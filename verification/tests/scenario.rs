use swa::{AppState, Callback, Lifecycle, LoopEvent, MainLoop, Schedule, WindowEvent};

type Raw = WindowEvent<u32, u8, u32, (u32, u32), (f64, f64), f64>;
type Event = LoopEvent<&'static str, u32, u8, u32, (u32, u32), (f64, f64), f64>;
type Owed = Callback<&'static str, u32, u8, u32, (u32, u32), (f64, f64), f64>;

/// A queue that takes events while the loop behind it lives.
struct Queue {
    open: bool,
    events: Vec<Event>,
}

impl Queue {
    fn offer(&mut self, lifecycle: &mut Lifecycle, message: &'static str) -> AppState {
        if self.open {
            self.events.push(Event::User(message));
        }
        lifecycle.record(self.open)
    }
}

#[test]
fn close_request_after_message_in_flight() {
    let mut queue = Queue { open: true, events: Vec::new() };
    let mut lifecycle = Lifecycle::new();
    let mut main_loop = MainLoop::new(1.0);

    assert_eq!(queue.offer(&mut lifecycle, "M"), AppState::On);
    queue.events.push(Event::Window(Raw::CloseRequested));

    let callbacks = main_loop.run(std::mem::take(&mut queue.events));
    queue.open = main_loop.is_running();

    assert_eq!(callbacks, vec![Owed::Render, Owed::Receive("M"), Owed::Render]);
    assert_eq!(queue.offer(&mut lifecycle, "late"), AppState::Off);
    assert!(queue.events.is_empty());
}

#[test]
fn close_request_before_message_in_flight() {
    let mut queue = Queue { open: true, events: Vec::new() };
    let mut lifecycle = Lifecycle::new();
    let mut main_loop = MainLoop::new(1.0);

    let closing = main_loop.iterate(Event::Window(Raw::CloseRequested));
    queue.open = main_loop.is_running();
    assert_eq!(closing.schedule, Schedule::Exit);

    assert_eq!(queue.offer(&mut lifecycle, "M"), AppState::Off);
    assert_eq!(queue.offer(&mut lifecycle, "again"), AppState::Off);

    let again = main_loop.iterate(Event::Window(Raw::CloseRequested));
    assert_eq!(again.callbacks, vec![]);
    assert_eq!(again.schedule, Schedule::Exit);
    assert!(!main_loop.is_running());
}
