//! Marker types for the supported driver chips.

use vstd::prelude::*;

verus! {

/// Marker for a ULN2003 Darlington-array driver board.
pub struct ULN2003;

} // verus!
