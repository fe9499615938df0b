//! What a key event reports of its key.

use vstd::prelude::*;

verus! {

/// What happened to a key: it was pressed, it is held and repeats, or it was
/// released. Event sources tell these apart each in their own way; the
/// debouncer decides on this.
#[derive(Debug, Clone, Copy, PartialEq, Eq, Hash, Structural)]
pub enum TransitionValue {
    Down,
    Repeat,
    Up,
}

} // verus!
