//! The orb: the target that the player chases.

use vstd::prelude::*;
use crate::geometry::{Arena, BoundingBox, ORB_SIZE};
use crate::random::{random_place, Draws};

verus! {

/// Where the orb waits when a session starts, on both axes.
pub const ORB_START: i32 = 200;

/// The orb: a box of fixed size at a position that changes when it is hit.
pub struct Orb {
    position: (i32, i32),
}

/// What an orb is: the top-left corner of its box.
pub struct OrbModel {
    pub x: int,
    pub y: int,
}

impl OrbModel {
    /// The box that the orb covers.
    pub open spec fn bounding_box(self) -> BoundingBox {
        BoundingBox { x: self.x as i32, y: self.y as i32, width: ORB_SIZE, height: ORB_SIZE }
    }

    /// The orb after a respawn at the place that `draws` holds.
    pub open spec fn respawned(draws: Draws) -> OrbModel {
        OrbModel { x: draws.x as int, y: draws.y as int }
    }

    /// Whether the orb keeps the margin from every edge of `arena`.
    pub open spec fn within(self, arena: Arena) -> bool {
        arena.admits_orb(self.x, self.y)
    }
}

/// A respawn puts the orb at a position that keeps the margin from every
/// edge of the arena.
pub proof fn lemma_respawn_in_range(arena: Arena, draws: Draws)
    requires
        arena.admits_orb(draws.x as int, draws.y as int),
    ensures
        OrbModel::respawned(draws).within(arena),
        arena.wf() ==> OrbModel::respawned(draws).bounding_box().inside(arena),
{
}

impl View for Orb {
    type V = OrbModel;

    closed spec fn view(&self) -> OrbModel {
        OrbModel { x: self.position.0 as int, y: self.position.1 as int }
    }
}

impl Orb {
    /// An orb at `(x, y)`.
    pub fn new(x: i32, y: i32) -> (orb: Orb)
        ensures
            orb@ == (OrbModel { x: x as int, y: y as int }),
    {
        Orb { position: (x, y) }
    }

    /// Moves the orb to the place that `draws` holds.
    pub fn respawn(&mut self, arena: &Arena, draws: &Draws)
        requires
            arena.admits_orb(draws.x as int, draws.y as int),
        ensures
            final(self)@ == OrbModel::respawned(*draws),
            final(self)@.within(*arena),
    {
        self.position = (draws.x, draws.y);
    }

    /// Moves the orb to a place of `arena` chosen at random.
    pub fn respawn_at_random(&mut self, arena: &Arena)
        requires
            arena.wf(),
        ensures
            final(self)@.within(*arena),
    {
        self.position = random_place(arena);
    }

    pub fn position(&self) -> (at: (i32, i32))
        ensures
            at.0 == self@.x,
            at.1 == self@.y,
    {
        self.position
    }

    /// The box that the orb covers.
    pub fn bounding_box(&self) -> (covered: BoundingBox)
        ensures
            covered == self@.bounding_box(),
    {
        BoundingBox { x: self.position.0, y: self.position.1, width: ORB_SIZE, height: ORB_SIZE }
    }
}

} // verus!
