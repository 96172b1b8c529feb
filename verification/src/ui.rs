//! The dashboard's state machine and everything it draws.

pub mod course;
pub mod layout;
pub mod theorems;
pub mod view;
pub mod window;
