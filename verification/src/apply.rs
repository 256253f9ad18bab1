use vstd::prelude::*;

verus! {

/// The outcome of applying settings: what went wrong along the way without
/// stopping the rest.
pub struct Applied {
    pub warnings: Vec<String>,
}

} // verus!
