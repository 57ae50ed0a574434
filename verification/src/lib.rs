//! Control logic for an RGB LED strip driven by three PWM channels.
//!
//! The crate holds the decisions only: which mode and colour follow a button
//! press, how the triangular duty wave advances, which level each channel
//! gets, and what a mode handler does on every poll of the shared state. The
//! hardware around it (timers, pins, interrupts, delays) performs the actions
//! that these functions return.

pub mod buttons;
pub mod color;
pub mod controller;
pub mod duty;
pub mod handler;
pub mod levels;
pub mod mode;
