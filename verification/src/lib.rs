//! The verified core of an emulator for the Bangle.js 2 watch.
//!
//! The emulator runs the watch's firmware in a WebAssembly engine and shows
//! its display and console in a terminal. This library holds what the
//! emulator decides and computes; the program around it performs the
//! operations on the engine, the terminal and the network that the library
//! asks for.
//!
//! - [`touch`]: from pointer samples to taps, drags and swipes.
//! - [`flags`] and [`watchdog`]: from how long the button is held to reset and
//!   interrupt requests.
//! - [`event`] and [`runner`]: the scheduler that steps the firmware, harvests
//!   its output and delivers input to it.
//! - [`board`]: the pins, flash memory and console queue that the firmware
//!   sees.
//! - [`color`] and [`screen`]: the display's palette and frame buffer.
//! - [`flash`] and [`storage`]: flash images as text, and the commands that
//!   fill the watch's storage.
//! - [`tui`], [`ui`], [`net`] and [`session`]: what the terminal shows, what
//!   the user's keys and mouse mean, and what goes where between terminal,
//!   network and watch.
//!
//! Times are in milliseconds on a clock that starts with the session.

pub mod board;
pub mod color;
pub mod event;
pub mod flags;
pub mod flash;
pub mod net;
pub mod runner;
pub mod screen;
pub mod session;
pub mod storage;
pub mod touch;
pub mod tui;
pub mod ui;
pub mod watchdog;
