//! The random choices of a collision: a colour and a place for the orb.

use vstd::prelude::*;
use crate::geometry::{Arena, Color, ORB_MARGIN};

verus! {

/// What a collision draws at random: the three channels of the next display
/// colour and the position at which the orb respawns.
#[derive(Clone, Copy, Debug, PartialEq, Eq, Structural)]
pub struct Draws {
    pub red: u8,
    pub green: u8,
    pub blue: u8,
    pub x: i32,
    pub y: i32,
}

impl Draws {
    /// No channel is zero, and the position keeps the orb's margin from the
    /// edges of `arena`.
    pub open spec fn wf(self, arena: Arena) -> bool {
        &&& self.red >= 1
        &&& self.green >= 1
        &&& self.blue >= 1
        &&& arena.admits_orb(self.x as int, self.y as int)
    }

    /// The colour that these draws give: the three channels, fully
    /// transparent.
    pub open spec fn color(self) -> Color {
        Color { r: self.red, g: self.green, b: self.blue, a: 0 }
    }

    /// Whether these draws can be used in `arena`.
    pub fn fits(&self, arena: &Arena) -> (valid: bool)
        ensures
            valid == self.wf(*arena),
    {
        self.red >= 1 && self.green >= 1 && self.blue >= 1 && ORB_MARGIN as i64 <= self.x as i64
            && self.x as i64 <= arena.width as i64 - ORB_MARGIN as i64 && ORB_MARGIN as i64
            <= self.y as i64 && self.y as i64 <= arena.height as i64 - ORB_MARGIN as i64
    }

    /// Draws each value uniformly at random from its range: the channels
    /// first, then the place.
    pub fn random(arena: &Arena) -> (draws: Draws)
        requires
            arena.wf(),
        ensures
            draws.wf(*arena),
    {
        let red: u8 = random_channel();
        let green: u8 = random_channel();
        let blue: u8 = random_channel();
        let place: (i32, i32) = random_place(arena);
        Draws { red, green, blue, x: place.0, y: place.1 }
    }
}

/// Draws one channel of a colour: any value but zero.
pub fn random_channel() -> (channel: u8)
    ensures
        channel >= 1,
{
    let drawn: i32 = random_between(1, 255);
    drawn as u8
}

/// Draws a place for the orb: one that keeps the margin from every edge of
/// `arena`.
pub fn random_place(arena: &Arena) -> (place: (i32, i32))
    requires
        arena.wf(),
    ensures
        arena.admits_orb(place.0 as int, place.1 as int),
{
    let x: i32 = random_between(ORB_MARGIN as i32, (arena.width - ORB_MARGIN) as i32);
    let y: i32 = random_between(ORB_MARGIN as i32, (arena.height - ORB_MARGIN) as i32);
    (x, y)
}

/// Calls `rand::Rng::gen_range` on the generator that `rand::thread_rng`
/// hands out, with the range `low..=high`. The outcome is random; all that
/// is claimed of it is that it lies in the range, both ends counted. An
/// empty range makes `gen_range` panic, so the range must hold a value.
#[verifier::external_body]
fn random_between(low: i32, high: i32) -> (drawn: i32)
    requires
        low <= high,
    ensures
        low <= drawn <= high,
{
    rand::Rng::gen_range(&mut rand::thread_rng(), low..=high)
}

} // verus!
