//! The event translator: from one raw window event to the input events it stands for.

use vstd::prelude::*;
use crate::event::{ElementState, SemanticEvent, WindowEvent};

verus! {

/// The input events that one raw window event stands for, in the order in which the
/// application must see them, under the scale factor in force.
///
/// A pressed key is reported twice; a key that the platform could not name, a change
/// of scale factor, a close or destroy and any other event are reported not at all.
pub open spec fn semantic_events<K, B, M, S, P, F>(
    event: WindowEvent<K, B, M, S, P, F>,
    scale_factor: F,
) -> Seq<SemanticEvent<K, B, M, S, P, F>> {
    match event {
        WindowEvent::CloseRequested => seq![],
        WindowEvent::Destroyed => seq![],
        WindowEvent::KeyInput { key: Some(key), state: ElementState::Pressed } => seq![
            SemanticEvent::PressKey(key),
            SemanticEvent::PressKey(key),
        ],
        WindowEvent::KeyInput { key: Some(key), state: ElementState::Released } => seq![
            SemanticEvent::ReleaseKey(key),
        ],
        WindowEvent::KeyInput { key: None, state } => seq![],
        WindowEvent::FocusChanged(focus) => seq![SemanticEvent::SetFocus(focus)],
        WindowEvent::Resized(size) => seq![SemanticEvent::Resize { size, scale_factor }],
        WindowEvent::CursorMoved(position) => seq![
            SemanticEvent::MoveCursor { position, scale_factor },
        ],
        WindowEvent::ModifiersChanged(modifiers) => seq![
            SemanticEvent::ChangeModifiers(modifiers),
        ],
        WindowEvent::MouseInput { button, state: ElementState::Pressed } => seq![
            SemanticEvent::PressMouse(button),
        ],
        WindowEvent::MouseInput { button, state: ElementState::Released } => seq![
            SemanticEvent::ReleaseMouse(button),
        ],
        WindowEvent::ScaleFactorChanged(factor) => seq![],
        WindowEvent::Other => seq![],
    }
}

/// The scale factor in force once `event` has been handled.
pub open spec fn scale_factor_after<K, B, M, S, P, F>(
    event: WindowEvent<K, B, M, S, P, F>,
    scale_factor: F,
) -> F {
    match event {
        WindowEvent::ScaleFactorChanged(factor) => factor,
        _ => scale_factor,
    }
}

/// Whether `event` ends the main loop.
pub open spec fn requests_exit<K, B, M, S, P, F>(event: WindowEvent<K, B, M, S, P, F>) -> bool {
    event is CloseRequested || event is Destroyed
}

/// What handling one raw window event amounts to.
#[derive(Debug)]
pub struct Translation<K, B, M, S, P, F> {
    /// The input events to hand to the application, in order.
    pub events: Vec<SemanticEvent<K, B, M, S, P, F>>,
    /// The scale factor in force from now on.
    pub scale_factor: F,
    /// Whether the main loop must end.
    pub exit: bool,
}

/// Translates one raw window event under the scale factor in force.
pub fn translate<K: Copy, B, M, S, P, F: Copy>(
    event: WindowEvent<K, B, M, S, P, F>,
    scale_factor: F,
) -> (translation: Translation<K, B, M, S, P, F>)
    ensures
        translation.events@ == semantic_events(event, scale_factor),
        translation.scale_factor == scale_factor_after(event, scale_factor),
        translation.exit == requests_exit(event),
{
    let mut events: Vec<SemanticEvent<K, B, M, S, P, F>> = Vec::new();
    let mut next_factor = scale_factor;
    let mut exit = false;
    match event {
        WindowEvent::CloseRequested => {
            exit = true;
        },
        WindowEvent::Destroyed => {
            exit = true;
        },
        WindowEvent::KeyInput { key, state } => {
            if let Some(key) = key {
                match state {
                    ElementState::Pressed => {
                        events.push(SemanticEvent::PressKey(key));
                        events.push(SemanticEvent::PressKey(key));
                    },
                    ElementState::Released => {
                        events.push(SemanticEvent::ReleaseKey(key));
                    },
                }
            }
        },
        WindowEvent::FocusChanged(focus) => {
            events.push(SemanticEvent::SetFocus(focus));
        },
        WindowEvent::Resized(size) => {
            events.push(SemanticEvent::Resize { size, scale_factor });
        },
        WindowEvent::CursorMoved(position) => {
            events.push(SemanticEvent::MoveCursor { position, scale_factor });
        },
        WindowEvent::ModifiersChanged(modifiers) => {
            events.push(SemanticEvent::ChangeModifiers(modifiers));
        },
        WindowEvent::MouseInput { button, state } => {
            match state {
                ElementState::Pressed => {
                    events.push(SemanticEvent::PressMouse(button));
                },
                ElementState::Released => {
                    events.push(SemanticEvent::ReleaseMouse(button));
                },
            }
        },
        WindowEvent::ScaleFactorChanged(factor) => {
            next_factor = factor;
        },
        WindowEvent::Other => {},
    }
    Translation { events, scale_factor: next_factor, exit }
}

/// One raw event stands for at most one input event, but for a pressed key that the
/// platform could name, which stands for two.
pub proof fn lemma_dispatch_count<K, B, M, S, P, F>(
    event: WindowEvent<K, B, M, S, P, F>,
    scale_factor: F,
)
    ensures
        event matches WindowEvent::KeyInput { key: Some(_), state: ElementState::Pressed }
            ==> semantic_events(event, scale_factor).len() == 2,
        !(event matches WindowEvent::KeyInput { key: Some(_), state: ElementState::Pressed })
            ==> semantic_events(event, scale_factor).len() <= 1,
{
}

} // verus!
