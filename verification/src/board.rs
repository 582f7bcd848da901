//! The map the game is played on.

use vstd::prelude::*;

verus! {

/// The map's width and height, in map units.
pub const MAP_SIZE: (u32, u32) = (1024, 254);

} // verus!
