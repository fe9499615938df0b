//! Debouncing behind a raw keyboard hook, which reports a virtual-key code, a
//! message kind and a time in milliseconds for every key transition.

pub mod command_line;
pub mod config;
pub mod debounce;
pub mod keys;
