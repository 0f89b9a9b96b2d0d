//! Command handlers of a small desktop demo, written as a library.
//!
//! Every handler here is a function from plain values to plain values: the
//! text of a greeting, the description of the window to open, the event to
//! publish. The program around the library hands these to the GUI framework.

pub mod examples;
pub mod greeting;
