//! What holds over many frames: free fall, repeated jumps, a held
//! direction, a held jump key.

use crate::fixed::saturate_spec;
use crate::input::{edges, FrameInput};
use crate::player::{PlayerView, JUMP_COUNT};
use crate::systems::{
    lemma_no_landing_no_change,
    GRAVITY_ACCELERATION,
    HORIZONTAL_ACCELERATION,
    JUMP_IMPULSE,
    MAX_HORIZONTAL_VELOCITY,
};
use crate::world::{lemma_run_keeps, WorldView};
use vstd::prelude::*;

verus! {

/// A frame of `micros` microseconds in which no key is down.
pub open spec fn idle(micros: u32) -> FrameInput {
    FrameInput { micros, left_held: false, right_held: false, jump_pressed: false }
}

/// `n` idle frames of `micros` microseconds each.
pub open spec fn idle_frames(micros: u32, n: nat) -> Seq<FrameInput> {
    Seq::new(n, |i: int| idle(micros))
}

/// The smaller of two numbers.
pub open spec fn least(a: int, b: int) -> int {
    if a <= b {
        a
    } else {
        b
    }
}

impl WorldView {
    /// In none of the first `n` idle frames does the player land.
    pub open spec fn airborne(self, micros: u32, n: nat) -> bool {
        forall|k: nat|
            k < n ==> !(#[trigger] self.run(idle_frames(micros, k))).player.scan(
                self.platforms,
            ).landed
    }
}

impl PlayerView {
    /// The player after the jump key went down in each of `n` frames,
    /// seen through the jump step alone.
    pub open spec fn after_jumps(self, n: nat) -> PlayerView
        decreases n,
    {
        if n == 0 {
            self
        } else {
            self.after_jumps((n - 1) as nat).after_jump(true)
        }
    }

    /// The player after `n` movement steps of `micros` microseconds with
    /// only the key for moving right held.
    pub open spec fn pushed_right(self, micros: u32, n: nat) -> PlayerView
        decreases n,
    {
        if n == 0 {
            self
        } else {
            self.pushed_right(micros, (n - 1) as nat).after_horizontal(micros, false, true)
        }
    }

    /// The player after the jump steps of the frames of `holds`, each of
    /// which says whether the jump key was down in it; `was_held` says
    /// whether it was down before the first.
    pub open spec fn after_held_jumps(self, was_held: bool, holds: Seq<bool>) -> PlayerView
        decreases holds.len(),
    {
        if holds.len() == 0 {
            self
        } else {
            self.after_held_jumps(was_held, holds.drop_last()).after_jump(
                edges(was_held, holds).last(),
            )
        }
    }
}

/// Free fall. A player that lands in none of `n` idle frames of `micros`
/// microseconds each ends them with its vertical velocity changed by `n`
/// times the gravity of one frame: exactly so while the result can be
/// represented, and stopping at the end of the range where it cannot.
pub proof fn lemma_free_fall(world: WorldView, micros: u32, n: nat)
    requires
        world.player.wf(),
        world.airborne(micros, n),
    ensures
        world.run(idle_frames(micros, n)).player.vy == saturate_spec(
            world.player.vy + n * (GRAVITY_ACCELERATION * micros),
        ),
        world.player.vy + n * (GRAVITY_ACCELERATION * micros) >= i64::MIN ==> world.run(
            idle_frames(micros, n),
        ).player.vy == world.player.vy + n * (GRAVITY_ACCELERATION * micros),
    decreases n,
{
    if n > 0 {
        let m = (n - 1) as nat;
        assert(idle_frames(micros, n).drop_last() =~= idle_frames(micros, m));
        lemma_free_fall(world, micros, m);
        lemma_run_keeps(world, idle_frames(micros, m));
        let before = world.run(idle_frames(micros, m));
        lemma_no_landing_no_change(before.player, world.platforms);
        let g = GRAVITY_ACCELERATION * micros;
        assert(m * g + g == n * g) by (nonlinear_arith)
            requires
                m + 1 == n,
        ;
        assert(m * g <= 0) by (nonlinear_arith)
            requires
                g <= 0,
                m >= 0,
        ;
        assert(!before.player.scan(world.platforms).landed);
    } else {
        assert(n * (GRAVITY_ACCELERATION * micros) == 0) by (nonlinear_arith)
            requires
                n == 0,
        ;
    }
}

/// Free fall where there is no platform at all: the player never lands.
pub proof fn lemma_free_fall_without_platforms(world: WorldView, micros: u32, n: nat)
    requires
        world.player.wf(),
        world.platforms.len() == 0,
    ensures
        world.airborne(micros, n),
        world.run(idle_frames(micros, n)).player.vy == saturate_spec(
            world.player.vy + n * (GRAVITY_ACCELERATION * micros),
        ),
{
    assert forall|k: nat| k < n implies !(#[trigger] world.run(
        idle_frames(micros, k),
    )).player.scan(world.platforms).landed by {}
    lemma_free_fall(world, micros, n);
}

/// The jump budget. Of `n` presses of the jump key, as many take effect
/// as the budget held: each of those takes one jump from it and adds the
/// impulse, as far as the velocity's range allows; the others change
/// nothing.
pub proof fn lemma_jump_budget(player: PlayerView, n: nat)
    requires
        player.wf(),
    ensures
        player.after_jumps(n).jumps == player.jumps - least(n as int, player.jumps as int),
        player.after_jumps(n).vy == saturate_spec(
            player.vy + least(n as int, player.jumps as int) * JUMP_IMPULSE,
        ),
        player.after_jumps(n) == (PlayerView {
            jumps: player.after_jumps(n).jumps,
            vy: player.after_jumps(n).vy,
            ..player
        }),
    decreases n,
{
    if n > 0 {
        lemma_jump_budget(player, (n - 1) as nat);
    }
}

/// With no jump left, a press of the jump key changes nothing.
pub proof fn lemma_spent_budget(player: PlayerView)
    requires
        player.jumps == 0,
    ensures
        player.after_jump(true) == player,
{
}

/// A held direction. From a speed within the limit, `n` movement steps
/// with the right key held add `n` times the push of one step, up to the
/// limit and no further.
pub proof fn lemma_right_push(player: PlayerView, micros: u32, n: nat)
    requires
        -MAX_HORIZONTAL_VELOCITY <= player.vx <= MAX_HORIZONTAL_VELOCITY,
    ensures
        player.pushed_right(micros, n).vx == least(
            MAX_HORIZONTAL_VELOCITY as int,
            player.vx + n * (HORIZONTAL_ACCELERATION * micros),
        ),
    decreases n,
{
    if n > 0 {
        let m = (n - 1) as nat;
        lemma_right_push(player, micros, m);
        let a = HORIZONTAL_ACCELERATION * micros;
        assert(m * a + a == n * a) by (nonlinear_arith)
            requires
                m + 1 == n,
        ;
        assert(m * a >= 0) by (nonlinear_arith)
            requires
                a >= 0,
                m >= 0,
        ;
    } else {
        assert(n * (HORIZONTAL_ACCELERATION * micros) == 0) by (nonlinear_arith)
            requires
                n == 0,
        ;
    }
}

/// From any speed, enough movement steps of positive length with the
/// right key held bring the speed to the limit, where it stays.
pub proof fn lemma_right_push_saturates(player: PlayerView, micros: u32, n: nat)
    requires
        n >= 1,
        (n - 1) * (HORIZONTAL_ACCELERATION * micros) >= 2 * MAX_HORIZONTAL_VELOCITY,
    ensures
        player.pushed_right(micros, n).vx == MAX_HORIZONTAL_VELOCITY,
        player.pushed_right(micros, n).after_horizontal(micros, false, true).vx
            == MAX_HORIZONTAL_VELOCITY,
{
    lemma_pushed_right_from_first(player, micros, (n - 1) as nat);
    let first = player.after_horizontal(micros, false, true);
    lemma_right_push(first, micros, (n - 1) as nat);
}

/// `n + 1` steps are one step followed by `n` steps.
proof fn lemma_pushed_right_from_first(player: PlayerView, micros: u32, n: nat)
    ensures
        player.pushed_right(micros, n + 1) == player.after_horizontal(
            micros,
            false,
            true,
        ).pushed_right(micros, n),
    decreases n,
{
    reveal_with_fuel(PlayerView::pushed_right, 2);
    if n > 0 {
        lemma_pushed_right_from_first(player, micros, (n - 1) as nat);
    }
}

/// A held jump key. Kept down through one frame or more, a key that was
/// up before has the effect of a single press, however long it is held.
pub proof fn lemma_held_jump_fires_once(player: PlayerView, holds: Seq<bool>)
    requires
        holds.len() > 0,
        forall|i: int| 0 <= i < holds.len() ==> holds[i],
    ensures
        player.after_held_jumps(false, holds) == player.after_jump(true),
        player.after_held_jumps(true, holds) == player,
    decreases holds.len(),
{
    let rest = holds.drop_last();
    if rest.len() > 0 {
        lemma_held_jump_fires_once(player, rest);
    }
    reveal_with_fuel(PlayerView::after_held_jumps, 2);
    assert(edges(false, holds).last() == (rest.len() == 0));
    assert(!edges(true, holds).last());
}

} // verus!
