//! The arena, axis-aligned boxes and colours.

use vstd::prelude::*;

verus! {

/// Side of the player's square box, in pixels.
pub const PLAYER_SIZE: u32 = 128;

/// Side of the orb's square box, in pixels.
pub const ORB_SIZE: u32 = 32;

/// Distance that a respawned orb keeps from each edge of the arena.
pub const ORB_MARGIN: u32 = 32;

/// Largest width or height of an arena: positions are 32-bit signed.
pub const MAX_EXTENT: u32 = 0x7fff_ffff;

/// The size of the world, in pixels.
#[derive(Clone, Copy, Debug, PartialEq, Eq, Structural)]
pub struct Arena {
    pub width: u32,
    pub height: u32,
}

impl Arena {
    /// An arena is usable when the player's box fits into it and its far
    /// edges are positions.
    pub open spec fn wf(self) -> bool {
        &&& PLAYER_SIZE <= self.width <= MAX_EXTENT
        &&& PLAYER_SIZE <= self.height <= MAX_EXTENT
    }

    /// Largest horizontal position of the player's box.
    pub open spec fn max_x(self) -> int {
        self.width - PLAYER_SIZE
    }

    /// Largest vertical position of the player's box.
    pub open spec fn max_y(self) -> int {
        self.height - PLAYER_SIZE
    }

    /// Whether `(x, y)` is a position at which an orb may respawn.
    pub open spec fn admits_orb(self, x: int, y: int) -> bool {
        &&& ORB_MARGIN <= x <= self.width - ORB_MARGIN
        &&& ORB_MARGIN <= y <= self.height - ORB_MARGIN
    }

    /// Whether `(x, y)` is a position at which the player's box lies inside
    /// the arena.
    pub open spec fn admits_player(self, x: int, y: int) -> bool {
        &&& 0 <= x <= self.max_x()
        &&& 0 <= y <= self.max_y()
    }

    pub fn new(width: u32, height: u32) -> (arena: Option<Arena>)
        ensures
            arena == (if (Arena { width, height }).wf() {
                Some(Arena { width, height })
            } else {
                None
            }),
    {
        let candidate = Arena { width, height };
        if candidate.is_valid() {
            Some(candidate)
        } else {
            None
        }
    }

    pub fn is_valid(&self) -> (valid: bool)
        ensures
            valid == self.wf(),
    {
        PLAYER_SIZE <= self.width && self.width <= MAX_EXTENT && PLAYER_SIZE <= self.height
            && self.height <= MAX_EXTENT
    }
}

/// A colour with 8-bit channels.
#[derive(Clone, Copy, Debug, PartialEq, Eq, Structural)]
pub struct Color {
    pub r: u8,
    pub g: u8,
    pub b: u8,
    pub a: u8,
}

impl Color {
    /// Opaque black, the background of every frame.
    pub open spec fn black() -> Color {
        Color { r: 0, g: 0, b: 0, a: 255 }
    }

    /// Opaque red, the colour a session starts with.
    pub open spec fn red() -> Color {
        Color { r: 255, g: 0, b: 0, a: 255 }
    }
}

/// An axis-aligned rectangle: its top-left corner and its size.
#[derive(Clone, Copy, Debug, PartialEq, Eq, Structural)]
pub struct BoundingBox {
    pub x: i32,
    pub y: i32,
    pub width: u32,
    pub height: u32,
}

impl BoundingBox {
    /// Two boxes overlap when both have an area and they share a point of
    /// their interiors on each axis. Boxes that only touch along an edge do
    /// not overlap.
    pub open spec fn overlaps(self, other: BoundingBox) -> bool {
        &&& self.width > 0 && self.height > 0
        &&& other.width > 0 && other.height > 0
        &&& self.x < other.x + other.width
        &&& other.x < self.x + self.width
        &&& self.y < other.y + other.height
        &&& other.y < self.y + self.height
    }

    /// Whether the box lies inside `arena`, edges counted.
    pub open spec fn inside(self, arena: Arena) -> bool {
        &&& 0 <= self.x
        &&& self.x + self.width <= arena.width
        &&& 0 <= self.y
        &&& self.y + self.height <= arena.height
    }

    pub fn has_intersection(&self, other: &BoundingBox) -> (hit: bool)
        ensures
            hit == self.overlaps(*other),
    {
        let left: i64 = self.x as i64;
        let right: i64 = self.x as i64 + self.width as i64;
        let top: i64 = self.y as i64;
        let bottom: i64 = self.y as i64 + self.height as i64;
        let other_left: i64 = other.x as i64;
        let other_right: i64 = other.x as i64 + other.width as i64;
        let other_top: i64 = other.y as i64;
        let other_bottom: i64 = other.y as i64 + other.height as i64;
        self.width > 0 && self.height > 0 && other.width > 0 && other.height > 0
            && left < other_right && other_left < right && top < other_bottom
            && other_top < bottom
    }
}

/// Overlap does not depend on which box is asked.
pub proof fn lemma_overlap_symmetric(a: BoundingBox, b: BoundingBox)
    ensures
        a.overlaps(b) == b.overlaps(a),
{
}

} // verus!
