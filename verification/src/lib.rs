//! The per-frame core of a click-through, always-on-top screen overlay:
//! bouncing sprites, a progress gauge that fills up and then freezes, the
//! window attributes that are put back on every tick, and the display list
//! of each frame.
//!
//! Everything here works on plain values. Reading the keyboard, talking to
//! the window system and handing the display list to a graphics device is
//! left to the program that embeds this crate.

#![allow(unused_imports)]

pub mod input;
pub mod motion;
pub mod palette;
pub mod presentation;
pub mod progress;
pub mod render;
pub mod simulation;
mod random;
