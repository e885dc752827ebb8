//! The player, the platforms it can stand on, and the player's jump budget.

use crate::geometry::{aabb, Aabb, BoundingSize, Position, Velocity};
use crate::walk::{WalkLoop, WalkState, WalkView};
use vstd::prelude::*;

verus! {

/// Jumps that a player can make before it has to land again.
pub const JUMP_COUNT: usize = 3;

/// The jumps a player has left. Never more than [`JUMP_COUNT`].
#[derive(Clone, Copy, Debug, PartialEq, Eq)]
pub struct Jumps {
    remaining: usize,
}

impl View for Jumps {
    type V = nat;

    closed spec fn view(&self) -> nat {
        self.remaining as nat
    }
}

impl Jumps {
    /// Holds of every jump budget.
    #[verifier::type_invariant]
    pub open spec fn inv(&self) -> bool {
        self@ <= JUMP_COUNT
    }

    /// The full budget.
    pub fn full() -> (jumps: Jumps)
        ensures
            jumps@ == JUMP_COUNT,
    {
        Jumps { remaining: JUMP_COUNT }
    }

    /// A budget with `remaining` jumps left, if that is no more than the
    /// full budget.
    pub fn with_remaining(remaining: usize) -> (jumps: Option<Jumps>)
        ensures
            remaining <= JUMP_COUNT <==> jumps.is_some(),
            jumps matches Some(j) ==> j@ == remaining,
    {
        if remaining <= JUMP_COUNT {
            Some(Jumps { remaining })
        } else {
            None
        }
    }

    /// The jumps left.
    pub fn remaining(&self) -> (remaining: usize)
        ensures
            remaining == self@,
            remaining <= JUMP_COUNT,
    {
        proof {
            use_type_invariant(self);
        }
        self.remaining
    }

    /// Restores the full budget.
    pub fn replenish(&mut self)
        ensures
            final(self)@ == JUMP_COUNT,
    {
        self.remaining = JUMP_COUNT;
    }

    /// Takes one jump from the budget if one is left, and says whether it
    /// did.
    pub fn spend(&mut self) -> (spent: bool)
        ensures
            spent <==> old(self)@ > 0,
            spent ==> final(self)@ == old(self)@ - 1,
            !spent ==> final(self)@ == old(self)@,
    {
        proof {
            use_type_invariant(&*self);
        }
        if self.remaining > 0 {
            self.remaining -= 1;
            true
        } else {
            false
        }
    }
}

/// The controlled character.
#[derive(Debug)]
pub struct Player {
    pub position: Position,
    pub velocity: Velocity,
    pub size: BoundingSize,
    pub jumps: Jumps,
    pub walk_loop: WalkLoop,
}

/// A piece of static terrain.
#[derive(Clone, Copy, Debug, PartialEq, Eq, Structural)]
pub struct Platform {
    pub position: Position,
    pub size: BoundingSize,
}

/// The player over the unbounded integers.
pub struct PlayerView {
    pub x: int,
    pub y: int,
    pub vx: int,
    pub vy: int,
    pub half_width: int,
    pub half_height: int,
    pub jumps: nat,
    pub walk: WalkView,
}

impl PlayerView {
    /// The player's box.
    pub open spec fn body(self) -> Aabb {
        Aabb { x: self.x, y: self.y, half_width: self.half_width, half_height: self.half_height }
    }

    /// What holds of the view of every player: the numbers fit their
    /// machine types, the jump budget is not exceeded and the walk cycle is
    /// well formed.
    pub open spec fn wf(self) -> bool {
        &&& i64::MIN <= self.x <= i64::MAX
        &&& i64::MIN <= self.y <= i64::MAX
        &&& i64::MIN <= self.vx <= i64::MAX
        &&& i64::MIN <= self.vy <= i64::MAX
        &&& 0 <= self.half_width <= u64::MAX
        &&& 0 <= self.half_height <= u64::MAX
        &&& self.jumps <= JUMP_COUNT
        &&& self.walk.wf()
    }
}

impl View for Player {
    type V = PlayerView;

    open spec fn view(&self) -> PlayerView {
        PlayerView {
            x: self.position.x as int,
            y: self.position.y as int,
            vx: self.velocity.x as int,
            vy: self.velocity.y as int,
            half_width: self.size.half_width as int,
            half_height: self.size.half_height as int,
            jumps: self.jumps@,
            walk: self.walk_loop@,
        }
    }
}

impl Player {
    /// A player at rest at `position`: no velocity, the full jump budget,
    /// standing.
    pub fn new(position: Position, size: BoundingSize) -> (player: Player)
        ensures
            player.position == position,
            player.size == size,
            player@.vx == 0,
            player@.vy == 0,
            player@.jumps == JUMP_COUNT,
            player@.walk == (WalkView { state: WalkState::Standing, elapsed: 0 }),
            player@.wf(),
    {
        Player {
            position,
            velocity: Velocity { x: 0, y: 0 },
            size,
            jumps: Jumps::full(),
            walk_loop: WalkLoop::new(),
        }
    }
}

impl View for Platform {
    type V = Aabb;

    open spec fn view(&self) -> Aabb {
        aabb(self.position, self.size)
    }
}

/// The boxes of a row of platforms, in the same order.
pub open spec fn boxes(platforms: Seq<Platform>) -> Seq<Aabb> {
    Seq::new(platforms.len(), |i: int| platforms[i]@)
}

} // verus!
