//! The events that enter the main loop and the callbacks that leave it.
//!
//! Payloads are type parameters: `K` a key code, `B` a mouse button, `M` a set of
//! modifiers, `S` a physical size, `P` a physical position, `F` a scale factor and
//! `U` an application update message. The core moves them around and never looks
//! inside one.

use vstd::prelude::*;

verus! {

/// Whether a key or a button went down or up.
#[derive(Clone, Copy, Debug, PartialEq, Eq, Structural)]
pub enum ElementState {
    Pressed,
    Released,
}

/// One raw event of the window, as the platform reports it.
#[derive(Clone, Debug, PartialEq, Eq)]
pub enum WindowEvent<K, B, M, S, P, F> {
    /// The user asked to close the window.
    CloseRequested,
    /// The window is gone.
    Destroyed,
    /// A key changed state; `key` is `None` where the platform could not name it.
    KeyInput { key: Option<K>, state: ElementState },
    /// The window gained (`true`) or lost (`false`) the focus.
    FocusChanged(bool),
    /// The window has a new size, in physical pixels.
    Resized(S),
    /// The cursor moved, in physical pixels.
    CursorMoved(P),
    /// The set of held modifiers changed.
    ModifiersChanged(M),
    /// A mouse button changed state.
    MouseInput { button: B, state: ElementState },
    /// The ratio of physical to logical pixels changed.
    ScaleFactorChanged(F),
    /// Anything else the platform reports of a window.
    Other,
}

/// One event taken from the main loop's queue.
#[derive(Clone, Debug, PartialEq, Eq)]
pub enum LoopEvent<U, K, B, M, S, P, F> {
    /// An event of the window.
    Window(WindowEvent<K, B, M, S, P, F>),
    /// A message that the state-management task sent through the relay.
    User(U),
    /// Any other event of the platform.
    Other,
}

/// A normalized input event: one operation of the application for each.
///
/// A size or a position comes with the scale factor that was in force when its raw
/// event was handled; dividing by it gives the logical value.
#[derive(Clone, Debug, PartialEq, Eq)]
pub enum SemanticEvent<K, B, M, S, P, F> {
    PressKey(K),
    ReleaseKey(K),
    SetFocus(bool),
    MoveCursor { position: P, scale_factor: F },
    PressMouse(B),
    ReleaseMouse(B),
    ChangeModifiers(M),
    Resize { size: S, scale_factor: F },
}

/// One invocation that the main loop owes the application.
#[derive(Clone, Debug, PartialEq, Eq)]
pub enum Callback<U, K, B, M, S, P, F> {
    /// Draw a frame.
    Render,
    /// Take one update message.
    Receive(U),
    /// Handle one input event.
    Input(SemanticEvent<K, B, M, S, P, F>),
}

} // verus!
