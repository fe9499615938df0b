//! Debouncing of keyboard events: a per-key filter that drops the spurious
//! presses and releases of a chattering keyboard, for two kinds of event
//! source, together with the key tables that name the keys to watch.

pub mod error;
pub mod linux;
pub mod number;
pub mod text;
pub mod transition;
pub mod windows;
