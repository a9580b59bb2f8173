//! A terminal profile card, decided step by step.
//!
//! The crate holds the decisions of a small terminal program: which frame
//! to paint next, how long to pause, which key ends the wait, and when the
//! terminal is restored. Performing those actions (painting, sleeping,
//! reading keys) is left to the caller, who reports each outcome back.
//!
//! - `program` runs the whole: one action for each outcome reported.
//! - `animation` gives the frames and pauses of the two animations.
//! - `input` tells quit keys from other keys and keeps the wait for one.
//! - `frame` lays out a frame on the area of the terminal.
//! - `date` counts the full years between two days of the calendar.

pub mod animation;
pub mod date;
pub mod frame;
pub mod input;
pub mod program;
