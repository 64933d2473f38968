use vstd::prelude::*;

verus! {

/// The surface is reconfigured only for a width strictly above this value.
pub const MIN_WIDTH: u32 = 0;

/// The surface is reconfigured only for a height strictly above this value.
pub const MIN_HEIGHT: u32 = 0;

} // verus!
