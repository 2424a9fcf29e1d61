//! A Pomodoro timer: focus and break intervals that alternate for a chosen
//! number of rounds.
//!
//! The heart of the crate is [`app::App`], a countdown controller whose every
//! transition is a total function of the state and of the instant at which it
//! happens; [`laws`] states what holds of it whatever is done to it. The
//! instants come from a [`clock::Clock`]; everything else is plain data that
//! a front end reads and draws.
//!
//! Around it stand what the front ends need: [`update`] reads key presses,
//! [`screen`] says what a terminal shows, [`pomodoro`] is the stopwatch-driven
//! timer of a window with its [`message`]s, [`config`] reads and checks the
//! settings of a run, and [`batch`] counts such a run through without a user.

pub mod app;
pub mod batch;
pub mod clock;
pub mod config;
pub mod decimal;
pub mod laws;
pub mod message;
pub mod pomodoro;
pub mod screen;
pub mod span;
pub mod update;

pub use crate::app::{App, AppState, EditApp};
pub use crate::clock::Clock;
pub use crate::config::{Config, ConfigError};
pub use crate::message::Message;
pub use crate::pomodoro::Pomodoro;
pub use crate::span::{Span, Timestamp};
