use vstd::prelude::*;

verus! {

/// A position on a picture, in whole pixels from its top-left corner. Also used
/// for a size: `x` is then the width and `y` the height.
#[derive(Clone, Copy, Debug, PartialEq, Eq, Structural)]
pub struct Point {
    pub x: u32,
    pub y: u32,
}

} // verus!
