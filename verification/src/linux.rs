//! Debouncing of the events that the Linux input layer delivers: a key code, a
//! value that tells press, release and autorepeat apart, and the time of the
//! event.

pub mod command_line;
pub mod config;
pub mod debounce;
pub mod device;
pub mod keys;
