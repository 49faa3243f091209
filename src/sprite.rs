use vstd::prelude::*;

verus! {

/// One image to draw: where (top-left corner, world units), how large, and
/// which texture of its atlas.
#[derive(Clone, Copy, Debug, PartialEq, Eq, Structural)]
pub struct Sprite {
    pub x: i64,
    pub y: i64,
    pub width: i64,
    pub height: i64,
    pub texture: usize,
}

} // verus!
