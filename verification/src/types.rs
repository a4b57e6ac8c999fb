//! Handles, sizes and positions shared by every module.

use vstd::prelude::*;

verus! {

/// A linked shader program.
#[derive(Clone, Copy, Debug, PartialEq, Eq, Structural)]
pub struct ShaderId(pub u32);

/// The location of a vertex attribute inside a program.
#[derive(Clone, Copy, Debug, PartialEq, Eq, Structural)]
pub struct AttrId(pub u32);

/// A vertex buffer object.
#[derive(Clone, Copy, Debug, PartialEq, Eq, Structural)]
pub struct VboId(pub u32);

/// A texture object.
#[derive(Clone, Copy, Debug, PartialEq, Eq, Structural)]
pub struct TextureId(pub u32);

/// The location of a matrix uniform inside a program.
#[derive(Clone, Copy, Debug, PartialEq, Eq, Structural)]
pub struct MatId(pub u32);

/// A width and a height, in pixels or in tiles.
#[derive(Clone, Copy, Debug, PartialEq, Eq, Structural)]
pub struct Size2 {
    pub w: i32,
    pub h: i32,
}

/// The coordinate of one tile of the map.
#[derive(Clone, Copy, Debug, PartialEq, Eq, Structural)]
pub struct MapPos {
    pub x: i32,
    pub y: i32,
}

/// A pixel of the window, counted from its top-left corner.
#[derive(Clone, Copy, Debug, PartialEq, Eq, Structural)]
pub struct ScreenPos {
    pub x: i32,
    pub y: i32,
}

/// A colour with eight bits per channel: channel value `n` stands for the
/// intensity `n / 255`, which is what a framebuffer with byte channels stores.
#[derive(Clone, Copy, Debug, PartialEq, Eq, Structural)]
pub struct Color3 {
    pub r: u8,
    pub g: u8,
    pub b: u8,
}

/// The largest coordinate a tile may have on either axis and still be told
/// apart after a round trip through a byte colour channel.
pub const MAX_TILE_COORD: i32 = 254;

impl MapPos {
    /// A tile whose coordinates both survive the colour encoding.
    pub open spec fn encodable(self) -> bool {
        0 <= self.x <= MAX_TILE_COORD && 0 <= self.y <= MAX_TILE_COORD
    }
}

impl Size2 {
    /// The number of tiles of a map of this size; a negative side counts as 0.
    pub open spec fn tile_count(self) -> nat {
        if self.w <= 0 || self.h <= 0 {
            0
        } else {
            (self.w * self.h) as nat
        }
    }

    /// Every tile of a map of this size is encodable.
    pub open spec fn encodable(self) -> bool {
        self.w <= MAX_TILE_COORD + 1 && self.h <= MAX_TILE_COORD + 1
    }

    /// Whether a map of this size can be picked from: whether every tile of
    /// it is encodable.
    pub fn is_encodable(self) -> (res: bool)
        ensures
            res == self.encodable(),
    {
        self.w <= MAX_TILE_COORD + 1 && self.h <= MAX_TILE_COORD + 1
    }
}

} // verus!
