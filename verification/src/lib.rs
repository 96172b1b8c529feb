//! Navigation state, key dispatch and view construction for a terminal
//! dashboard that browses courses and their assignments.
//!
//! The library holds the state machine and what it draws. It performs no
//! input or output: a program around it reads keys, talks to the course
//! service, hands in what came back and paints what the library describes.

pub mod error;
pub mod json;
pub mod ui;
