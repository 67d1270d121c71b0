//! A DMX512 lighting adapter core: a 512-channel universe buffer that is
//! shared between property writers and a periodic transmission loop.
//!
//! The buffer ([`universe::Universe`]) holds one byte per channel and is
//! updated by consecutive-range writes. [`shared::SharedUniverse`] protects
//! it with a verified reader/writer lock so that a multi-channel write is
//! applied as one critical section and a reader never observes a torn
//! update. [`player::Player`] owns the shared buffer together with the
//! transmission-loop state machine: it decides what a start attempt and a
//! tick outcome mean, while the serial port and the timer that drive it
//! live outside the library.

pub mod database;
pub mod messages;
pub mod player;
pub mod shared;
pub mod universe;
