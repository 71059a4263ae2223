//! The decisions behind pasting into another application's window: which
//! window is the target, which key chord it wants, how the chord is sent, and
//! when a window system has settled. Every function here is a step on plain
//! values; the surrounding program talks to X11, to the kernel and to the clock
//! and hands each answer back.

pub mod focus_manager;
pub mod input_simulator;
pub mod machine;
pub mod paste_sync;
pub mod text;
pub mod x11;
