//! The bridge from the state-management task into the main loop.

use vstd::prelude::*;
use glium::glutin::event_loop::{EventLoop, EventLoopClosed, EventLoopProxy};
use crate::lifecycle::{AppState, Lifecycle};

verus! {

/// `EventLoop`, the platform's queue of events with the loop that drains it. Nothing
/// inside it is visible here.
#[verifier::external_type_specification]
#[verifier::external_body]
#[verifier::reject_recursive_types(T)]
pub struct ExEventLoop<T: 'static>(EventLoop<T>);

/// `EventLoopProxy`, the handle through which another thread puts events on an event
/// loop's queue. Nothing inside it is visible here.
#[verifier::external_type_specification]
#[verifier::external_body]
#[verifier::reject_recursive_types(T)]
pub struct ExEventLoopProxy<T: 'static>(EventLoopProxy<T>);

/// `EventLoopClosed`, the error of a send to an event loop that no longer exists. It
/// holds the event that was not sent; nothing inside it is visible here.
#[verifier::external_type_specification]
#[verifier::external_body]
#[verifier::reject_recursive_types(T)]
pub struct ExEventLoopClosed<T>(EventLoopClosed<T>);

/// `EventLoop::create_proxy` makes a handle that sends to this event loop. Nothing
/// is claimed of the handle.
pub assume_specification<T>[ EventLoop::<T>::create_proxy ](event_loop: &EventLoop<T>) -> (proxy:
    EventLoopProxy<T>)
;

/// `EventLoopProxy::send_event` puts `event` on the queue of the event loop that the
/// proxy came from, or hands it back inside the error where that loop no longer
/// exists. Which of the two happens depends on the loop, so nothing is claimed of
/// the result.
pub assume_specification<T: 'static>[ EventLoopProxy::<T>::send_event ](
    proxy: &EventLoopProxy<T>,
    event: T,
) -> (result: Result<(), EventLoopClosed<T>>)
;

/// The sending end of the bridge, owned by the state-management task. It remembers
/// whether the main loop has refused a message.
#[verifier::reject_recursive_types(U)]
pub struct Relay<U: 'static> {
    proxy: EventLoopProxy<U>,
    lifecycle: Lifecycle,
}

impl<U: 'static> View for Relay<U> {
    type V = AppState;

    /// The signal that the last send attempt gave, `On` before the first.
    closed spec fn view(&self) -> AppState {
        self.lifecycle@
    }
}

impl<U: 'static> Relay<U> {
    /// A relay into `event_loop`, for a task that is about to start.
    pub fn attach(event_loop: &EventLoop<U>) -> (relay: Self)
        ensures
            relay@ == AppState::On,
    {
        Relay { proxy: event_loop.create_proxy(), lifecycle: Lifecycle::new() }
    }

    /// The signal that the last send attempt gave, `On` before the first.
    pub fn signal(&self) -> (signal: AppState)
        ensures
            signal == self@,
    {
        self.lifecycle.signal()
    }

    /// Offers `message` to the main loop and answers with the lifecycle signal. Once
    /// a message was refused the relay offers no more, so after `Off` every answer
    /// is `Off`.
    pub fn send(&mut self, message: U) -> (signal: AppState)
        ensures
            signal == final(self)@,
            old(self)@ == AppState::Off ==> signal == AppState::Off,
    {
        if !self.lifecycle.signal().is_on() {
            return AppState::Off;
        }
        let accepted = match self.proxy.send_event(message) {
            Ok(()) => true,
            Err(_) => false,
        };
        self.lifecycle.record(accepted)
    }
}

} // verus!
