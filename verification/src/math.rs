use vstd::prelude::*;

verus! {

/// A pair of unsigned integers, such as a window size in pixels.
#[derive(Clone, Copy, PartialEq, Eq, Debug, Default, Structural)]
pub struct UVec2 {
    pub x: u32,
    pub y: u32,
}

impl UVec2 {
    pub fn new(x: u32, y: u32) -> (v: UVec2)
        ensures
            v == (UVec2 { x, y }),
    {
        UVec2 { x, y }
    }
}

/// A triple of unsigned integers, such as the extent of a texture.
#[derive(Clone, Copy, PartialEq, Eq, Debug, Default, Structural)]
pub struct UVec3 {
    pub x: u32,
    pub y: u32,
    pub z: u32,
}

impl UVec3 {
    pub fn new(x: u32, y: u32, z: u32) -> (v: UVec3)
        ensures
            v == (UVec3 { x, y, z }),
    {
        UVec3 { x, y, z }
    }
}

} // verus!
