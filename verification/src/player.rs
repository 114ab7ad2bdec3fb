//! The player's box: steering and the bounds it keeps.

use vstd::prelude::*;
use crate::geometry::{Arena, BoundingBox, PLAYER_SIZE};

verus! {

/// Pixels that the player moves per tick and held direction, unless told
/// otherwise.
pub const DEFAULT_SPEED: i32 = 10;

/// Where a position ends up on one axis: moved by `delta`, but never past
/// `0` or `limit`.
pub open spec fn step_axis(position: int, delta: int, limit: int) -> int {
    if position + delta < 0 {
        0
    } else if position + delta > limit {
        limit
    } else {
        position + delta
    }
}

/// What a player is: the arena it lives in, the top-left corner of its box
/// and its speed.
pub struct PlayerModel {
    pub arena: Arena,
    pub x: int,
    pub y: int,
    pub speed: int,
}

impl PlayerModel {
    /// The box lies inside the arena and the speed is not negative.
    pub open spec fn wf(self) -> bool {
        &&& self.arena.wf()
        &&& self.arena.admits_player(self.x, self.y)
        &&& 0 <= self.speed <= i32::MAX
    }

    /// The player after one move by `dx` and `dy` steps. Each axis moves by
    /// its own step times the speed and stops at the edge of the arena.
    pub open spec fn moved(self, dx: int, dy: int) -> PlayerModel {
        PlayerModel {
            x: step_axis(self.x, dx * self.speed, self.arena.max_x()),
            y: step_axis(self.y, dy * self.speed, self.arena.max_y()),
            ..self
        }
    }

    /// The player after the moves of `moves`, first to last.
    pub open spec fn after(self, moves: Seq<(int, int)>) -> PlayerModel
        decreases moves.len(),
    {
        if moves.len() == 0 {
            self
        } else {
            self.after(moves.drop_last()).moved(moves.last().0, moves.last().1)
        }
    }

    /// The box that the player covers.
    pub open spec fn bounding_box(self) -> BoundingBox {
        BoundingBox {
            x: self.x as i32,
            y: self.y as i32,
            width: PLAYER_SIZE,
            height: PLAYER_SIZE,
        }
    }
}

/// A move keeps a well-formed player well-formed.
pub proof fn lemma_move_stays_inside(p: PlayerModel, dx: int, dy: int)
    requires
        p.wf(),
    ensures
        p.moved(dx, dy).wf(),
        p.moved(dx, dy).bounding_box().inside(p.arena),
{
}

/// After any sequence of moves the player's box still lies inside the arena.
pub proof fn lemma_moves_stay_inside(p: PlayerModel, moves: Seq<(int, int)>)
    requires
        p.wf(),
    ensures
        p.after(moves).wf(),
        p.after(moves).arena == p.arena,
        p.after(moves).bounding_box().inside(p.arena),
    decreases moves.len(),
{
    if moves.len() > 0 {
        lemma_moves_stay_inside(p, moves.drop_last());
        lemma_move_stays_inside(p.after(moves.drop_last()), moves.last().0, moves.last().1);
    }
}

/// A move toward an edge that the player already touches changes nothing on
/// that axis, and a move that stays inside the arena is a full step.
pub proof fn lemma_move_at_edge(p: PlayerModel, dx: int, dy: int)
    requires
        p.wf(),
    ensures
        p.x == 0 && dx <= 0 ==> p.moved(dx, dy).x == 0,
        p.x == p.arena.max_x() && dx >= 0 ==> p.moved(dx, dy).x == p.x,
        p.y == 0 && dy <= 0 ==> p.moved(dx, dy).y == 0,
        p.y == p.arena.max_y() && dy >= 0 ==> p.moved(dx, dy).y == p.y,
        0 <= p.x + dx * p.speed <= p.arena.max_x() ==> p.moved(dx, dy).x == p.x + dx * p.speed,
        0 <= p.y + dy * p.speed <= p.arena.max_y() ==> p.moved(dx, dy).y == p.y + dy * p.speed,
{
    assert(dx <= 0 ==> dx * p.speed <= 0) by (nonlinear_arith)
        requires
            p.speed >= 0,
    ;
    assert(dx >= 0 ==> dx * p.speed >= 0) by (nonlinear_arith)
        requires
            p.speed >= 0,
    ;
    assert(dy <= 0 ==> dy * p.speed <= 0) by (nonlinear_arith)
        requires
            p.speed >= 0,
    ;
    assert(dy >= 0 ==> dy * p.speed >= 0) by (nonlinear_arith)
        requires
            p.speed >= 0,
    ;
}

/// The player: a box of fixed size that is steered inside an arena.
pub struct Player {
    arena: Arena,
    position: (i32, i32),
    speed: i32,
}

impl View for Player {
    type V = PlayerModel;

    closed spec fn view(&self) -> PlayerModel {
        PlayerModel {
            arena: self.arena,
            x: self.position.0 as int,
            y: self.position.1 as int,
            speed: self.speed as int,
        }
    }
}

impl Player {
    #[verifier::type_invariant]
    pub(crate) open spec fn inv(self) -> bool {
        self@.wf()
    }

    /// A player at `(x, y)` in `arena`, if the arena is usable, the box lies
    /// inside it there and the speed is not negative.
    pub fn new(arena: Arena, x: i32, y: i32, speed: i32) -> (player: Option<Player>)
        ensures
            player is Some <==> (PlayerModel { arena, x: x as int, y: y as int, speed: speed as int }).wf(),
            player matches Some(p) ==> p@ == (PlayerModel {
                arena,
                x: x as int,
                y: y as int,
                speed: speed as int,
            }),
    {
        if arena.is_valid() && 0 <= x && x as i64 <= arena.width as i64 - PLAYER_SIZE as i64
            && 0 <= y && y as i64 <= arena.height as i64 - PLAYER_SIZE as i64 && speed >= 0 {
            Some(Player { arena, position: (x, y), speed })
        } else {
            None
        }
    }

    /// Moves by `x` steps to the right and `y` steps down; a negative count
    /// moves the other way. A step is as long as the speed.
    pub fn move_player(&mut self, x: i32, y: i32)
        ensures
            final(self)@ == old(self)@.moved(x as int, y as int),
            final(self)@.wf(),
    {
        proof {
            use_type_invariant(&*self);
        }
        let new_x: i32 = Self::step(self.position.0, x, self.speed, self.arena.width - PLAYER_SIZE);
        let new_y: i32 = Self::step(self.position.1, y, self.speed, self.arena.height - PLAYER_SIZE);
        self.position = (new_x, new_y);
    }

    fn step(position: i32, steps: i32, speed: i32, limit: u32) -> (landed: i32)
        requires
            0 <= position <= limit <= i32::MAX,
            0 <= speed,
        ensures
            landed == step_axis(position as int, steps * speed, limit as int),
    {
        assert(-0x4000_0000_0000_0000 <= steps * speed <= 0x4000_0000_0000_0000)
            by (nonlinear_arith)
            requires
                -0x8000_0000 <= steps <= 0x7fff_ffff,
                0 <= speed <= 0x7fff_ffff,
        ;
        let delta: i64 = steps as i64 * speed as i64;
        let target: i64 = position as i64 + delta;
        if target < 0 {
            0
        } else if target > limit as i64 {
            limit as i32
        } else {
            target as i32
        }
    }

    /// Whether the box touches the top edge of the arena.
    pub fn at_ceiling(&self) -> (touching: bool)
        ensures
            touching == (self@.y == 0),
    {
        proof {
            use_type_invariant(self);
        }
        self.position.1 <= 0
    }

    /// Whether the box touches the bottom edge of the arena.
    pub fn at_floor(&self) -> (touching: bool)
        ensures
            touching == (self@.y == self@.arena.max_y()),
    {
        proof {
            use_type_invariant(self);
        }
        self.position.1 as i64 + PLAYER_SIZE as i64 >= self.arena.height as i64
    }

    /// Whether the box touches the left edge of the arena.
    pub fn at_left(&self) -> (touching: bool)
        ensures
            touching == (self@.x == 0),
    {
        proof {
            use_type_invariant(self);
        }
        self.position.0 <= 0
    }

    /// Whether the box touches the right edge of the arena.
    pub fn at_right(&self) -> (touching: bool)
        ensures
            touching == (self@.x == self@.arena.max_x()),
    {
        proof {
            use_type_invariant(self);
        }
        self.position.0 as i64 + PLAYER_SIZE as i64 >= self.arena.width as i64
    }

    pub fn position(&self) -> (at: (i32, i32))
        ensures
            at.0 == self@.x,
            at.1 == self@.y,
            self@.wf(),
    {
        proof {
            use_type_invariant(self);
        }
        self.position
    }

    pub fn speed(&self) -> (speed: i32)
        ensures
            speed == self@.speed,
    {
        self.speed
    }

    pub fn arena(&self) -> (arena: Arena)
        ensures
            arena == self@.arena,
            arena.wf(),
    {
        proof {
            use_type_invariant(self);
        }
        self.arena
    }

    /// The box that the player covers.
    pub fn bounding_box(&self) -> (covered: BoundingBox)
        ensures
            covered == self@.bounding_box(),
            covered.inside(self@.arena),
    {
        proof {
            use_type_invariant(self);
        }
        BoundingBox { x: self.position.0, y: self.position.1, width: PLAYER_SIZE, height: PLAYER_SIZE }
    }
}

} // verus!
