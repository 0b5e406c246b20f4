//! A library for a screenshot hotkey utility.
//!
//! The library holds the two pieces of the utility with real logic:
//! the key-combination tracker that decides, for each incoming keyboard
//! event, whether a screen capture should fire, and the naming pipeline
//! that turns a capture instant and a monitor name into a collision
//! resistant output file name.

pub mod clock;
pub mod naming;
pub mod tracker;
