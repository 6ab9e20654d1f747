//! Control core of a single-window application shell.
//!
//! The core decides; it does not draw, sleep or wait. [`main_loop::MainLoop`] turns
//! each event taken from the platform's queue into the callbacks owed to the
//! application and the schedule for the next wake-up, [`translate::translate`] holds
//! the table from raw window events to input events, and [`relay::Relay`] carries
//! update messages from the state-management task into the loop and tells the task
//! when to stop.

pub mod cadence;
pub mod event;
pub mod lifecycle;
pub mod main_loop;
pub mod relay;
pub mod trace;
pub mod translate;

pub use crate::cadence::{Schedule, FRAME_INTERVAL_NANOS};
pub use crate::event::{Callback, ElementState, LoopEvent, SemanticEvent, WindowEvent};
pub use crate::lifecycle::{AppState, Lifecycle};
pub use crate::main_loop::{Iteration, MainLoop};
pub use crate::relay::Relay;
pub use crate::translate::{translate, Translation};
