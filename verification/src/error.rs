//! What can be wrong with a key list.

use vstd::prelude::*;

verus! {

/// A key list names keys that do not exist. `names` holds every such name of
/// the list, in the order of the list.
#[derive(Debug)]
pub struct UnknownKeyName {
    pub names: Vec<String>,
}

} // verus!
