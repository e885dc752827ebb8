//! The four steps of a frame: gravity and ground contact, horizontal
//! movement, jumping, and the integration of position.

use crate::fixed::{clamp, clamp_spec, saturate, saturate_spec};
use crate::geometry::{collide, Aabb, Collision};
use crate::player::{boxes, Platform, Player, PlayerView, JUMP_COUNT};
use vstd::prelude::*;

verus! {

/// Change of vertical velocity per tick of free fall. Negative: down.
pub const GRAVITY_ACCELERATION: i64 = -20;

/// Largest horizontal speed, in either direction.
pub const MAX_HORIZONTAL_VELOCITY: i64 = 50_000_000;

/// Change of horizontal velocity per tick while a direction is held.
pub const HORIZONTAL_ACCELERATION: i64 = 10;

/// Vertical velocity that one jump adds.
pub const JUMP_IMPULSE: i64 = 40_000_000;

/// The player part of the way through the platforms, and whether it has
/// landed on one of those it has passed.
pub struct Contact {
    pub player: PlayerView,
    pub landed: bool,
}

impl PlayerView {
    /// The player set down on `platform`: its bottom edge on the platform's
    /// top edge as far as the position's range allows, no vertical velocity,
    /// the full jump budget.
    pub open spec fn rest_on(self, platform: Aabb) -> PlayerView {
        PlayerView {
            y: saturate_spec(platform.top() + self.half_height),
            vy: 0,
            jumps: JUMP_COUNT as nat,
            ..self
        }
    }

    /// The player after it has met the platforms one after another. Each
    /// platform is tested against the player as the earlier ones left it;
    /// the player comes to rest on every one it lands on, so the last such
    /// platform decides where it ends.
    pub open spec fn scan(self, platforms: Seq<Aabb>) -> Contact
        decreases platforms.len(),
    {
        if platforms.len() == 0 {
            Contact { player: self, landed: false }
        } else {
            let before = self.scan(platforms.drop_last());
            if before.player.body().lands_on(platforms.last()) {
                Contact { player: before.player.rest_on(platforms.last()), landed: true }
            } else {
                before
            }
        }
    }

    /// The player after `micros` microseconds of free fall have changed its
    /// vertical velocity.
    pub open spec fn pulled(self, micros: u32) -> PlayerView {
        PlayerView { vy: saturate_spec(self.vy + GRAVITY_ACCELERATION * micros), ..self }
    }

    /// The player after the gravity step: at rest where it landed, or else
    /// pulled down.
    pub open spec fn after_gravity(self, platforms: Seq<Aabb>, micros: u32) -> PlayerView {
        let contact = self.scan(platforms);
        if contact.landed {
            contact.player
        } else {
            self.pulled(micros)
        }
    }

    /// The player after the movement step. Left alone pushes left and
    /// leaves the walk cycle as it is; right, alone or together with left,
    /// pushes right and advances the walk cycle; neither stops the player
    /// dead and the walk cycle with it. The speed never leaves the range
    /// that [`MAX_HORIZONTAL_VELOCITY`] sets.
    pub open spec fn after_horizontal(self, micros: u32, left_held: bool, right_held: bool)
        -> PlayerView {
        let vx = if left_held && !right_held {
            self.vx - HORIZONTAL_ACCELERATION * micros
        } else if right_held {
            self.vx + HORIZONTAL_ACCELERATION * micros
        } else {
            0
        };
        let walk = if left_held && !right_held {
            self.walk
        } else if right_held {
            self.walk.increment(micros)
        } else {
            self.walk.stop()
        };
        PlayerView {
            vx: clamp_spec(vx, -MAX_HORIZONTAL_VELOCITY, MAX_HORIZONTAL_VELOCITY as int),
            walk,
            ..self
        }
    }

    /// The player after the jump step: with one jump fewer and the impulse
    /// added, if the jump key went down in this frame and a jump was left;
    /// unchanged otherwise.
    pub open spec fn after_jump(self, pressed: bool) -> PlayerView {
        if pressed && self.jumps > 0 {
            PlayerView {
                vy: saturate_spec(self.vy + JUMP_IMPULSE),
                jumps: (self.jumps - 1) as nat,
                ..self
            }
        } else {
            self
        }
    }

    /// The player after its velocity has carried it for `micros`
    /// microseconds.
    pub open spec fn after_motion(self, micros: u32) -> PlayerView {
        PlayerView {
            x: saturate_spec(self.x + self.vx * micros),
            y: saturate_spec(self.y + self.vy * micros),
            ..self
        }
    }
}

/// Resolves ground contact, and lets gravity act where there is none.
///
/// The platforms are tested in order. On each one that the player has come
/// down onto, the player is set to rest on its top edge, loses its vertical
/// velocity and regains the full jump budget. If it landed on none, its
/// vertical velocity changes by `micros` ticks of gravity.
pub fn gravity_system(player: &mut Player, platforms: &Vec<Platform>, micros: u32)
    ensures
        final(player)@ == old(player)@.after_gravity(boxes(platforms@), micros),
        final(player)@.wf(),
{
    let ghost start = player@;
    let ghost rows = boxes(platforms@);
    let mut falling = true;
    let mut i: usize = 0;
    while i < platforms.len()
        invariant
            i <= platforms.len(),
            rows == boxes(platforms@),
            start.scan(rows.take(i as int)) == (Contact { player: player@, landed: !falling }),
        decreases platforms.len() - i,
    {
        let platform = &platforms[i];
        let hit = collide(player.position, player.size, platform.position, platform.size);
        proof {
            assert(rows.take(i + 1).drop_last() =~= rows.take(i as int));
            assert(rows.take(i + 1).last() == platform@);
        }
        match hit {
            Some(Collision::Top) => {
                player.velocity.y = 0;
                player.position.y = saturate(
                    platform.position.y as i128 + platform.size.half_height as i128
                        + player.size.half_height as i128,
                );
                falling = false;
                player.jumps.replenish();
            },
            _ => {},
        }
        i += 1;
    }
    proof {
        assert(rows.take(platforms.len() as int) =~= rows);
        lemma_no_landing_no_change(start, rows);
        use_type_invariant(&player.jumps);
        use_type_invariant(&player.walk_loop);
    }
    if falling {
        player.velocity.y = saturate(
            player.velocity.y as i128 + GRAVITY_ACCELERATION as i128 * micros as i128,
        );
    }
}

/// Turns the held directions into horizontal velocity and drives the walk
/// cycle.
pub fn horizontal_movement(player: &mut Player, micros: u32, left_held: bool, right_held: bool)
    ensures
        final(player)@ == old(player)@.after_horizontal(micros, left_held, right_held),
        final(player)@.wf(),
{
    proof {
        use_type_invariant(&player.jumps);
        use_type_invariant(&player.walk_loop);
    }
    let push: i128 = HORIZONTAL_ACCELERATION as i128 * micros as i128;
    assert(push == 10 * micros);
    let pushed: i128;
    if left_held && !right_held {
        pushed = player.velocity.x as i128 - push;
    } else if right_held {
        pushed = player.velocity.x as i128 + push;
        player.walk_loop.increment(micros);
    } else {
        pushed = 0;
        player.walk_loop.stop();
    }
    player.velocity.x = clamp(pushed, -MAX_HORIZONTAL_VELOCITY, MAX_HORIZONTAL_VELOCITY);
}

/// Starts a jump if the jump key went down in this frame and the budget
/// allows one.
pub fn jump_system(player: &mut Player, pressed: bool)
    ensures
        final(player)@ == old(player)@.after_jump(pressed),
        final(player)@.wf(),
{
    proof {
        use_type_invariant(&player.jumps);
        use_type_invariant(&player.walk_loop);
    }
    if !pressed {
        return ;
    }
    if player.jumps.spend() {
        player.velocity.y = saturate(player.velocity.y as i128 + JUMP_IMPULSE as i128);
    }
    proof {
        use_type_invariant(&player.jumps);
    }
}

/// Moves the player by its velocity for `micros` microseconds.
pub fn position_system(player: &mut Player, micros: u32)
    ensures
        final(player)@ == old(player)@.after_motion(micros),
        final(player)@.wf(),
{
    proof {
        use_type_invariant(&player.jumps);
        use_type_invariant(&player.walk_loop);
        lemma_travel_fits(player.velocity.x, micros);
        lemma_travel_fits(player.velocity.y, micros);
    }
    player.position.x = saturate(
        player.position.x as i128 + player.velocity.x as i128 * micros as i128,
    );
    player.position.y = saturate(
        player.position.y as i128 + player.velocity.y as i128 * micros as i128,
    );
}

/// A player that lands on none of the platforms is left as it was.
pub proof fn lemma_no_landing_no_change(player: PlayerView, platforms: Seq<Aabb>)
    ensures
        !player.scan(platforms).landed ==> player.scan(platforms).player == player,
    decreases platforms.len(),
{
    if platforms.len() > 0 {
        lemma_no_landing_no_change(player, platforms.drop_last());
    }
}

/// Ground contact touches nothing but the height, the vertical velocity and
/// the jump budget, and keeps the player well formed.
pub proof fn lemma_scan_keeps(player: PlayerView, platforms: Seq<Aabb>)
    ensures
        player.scan(platforms).player == (PlayerView {
            y: player.scan(platforms).player.y,
            vy: player.scan(platforms).player.vy,
            jumps: player.scan(platforms).player.jumps,
            ..player
        }),
        player.wf() ==> player.scan(platforms).player.wf(),
    decreases platforms.len(),
{
    if platforms.len() > 0 {
        lemma_scan_keeps(player, platforms.drop_last());
    }
}

/// A player that has landed rests on one of the platforms: it is the
/// player as the platforms before that one left it, set down on that one.
pub proof fn lemma_landing_platform(player: PlayerView, platforms: Seq<Aabb>)
    requires
        player.scan(platforms).landed,
    ensures
        exists|i: int|
            0 <= i < platforms.len() && {
                let before = #[trigger] player.scan(platforms.take(i)).player;
                &&& before.body().lands_on(platforms[i])
                &&& player.scan(platforms).player == before.rest_on(platforms[i])
            },
    decreases platforms.len(),
{
    let rest = platforms.drop_last();
    if player.scan(rest).player.body().lands_on(platforms.last()) {
        assert(platforms.take(platforms.len() - 1) =~= rest);
    } else {
        lemma_landing_platform(player, rest);
        let i = choose|i: int|
            0 <= i < rest.len() && {
                let before = #[trigger] player.scan(rest.take(i)).player;
                &&& before.body().lands_on(rest[i])
                &&& player.scan(rest).player == before.rest_on(rest[i])
            };
        assert(rest.take(i) =~= platforms.take(i));
    }
}

/// After a frame in which the player has landed, it has no vertical
/// velocity and the full jump budget, whatever it had before, and its
/// bottom edge lies exactly on the top edge of a platform, provided that
/// the height at which it then stands can be represented.
pub proof fn lemma_landed_player_rests(player: PlayerView, platforms: Seq<Aabb>, micros: u32)
    requires
        player.scan(platforms).landed,
    ensures
        player.after_gravity(platforms, micros).vy == 0,
        player.after_gravity(platforms, micros).jumps == JUMP_COUNT,
        exists|i: int|
            0 <= i < platforms.len() && {
                let top = (#[trigger] platforms[i]).top();
                &&& player.after_gravity(platforms, micros).y == saturate_spec(
                    top + player.half_height,
                )
                &&& i64::MIN <= top + player.half_height <= i64::MAX ==> player.after_gravity(
                    platforms,
                    micros,
                ).body().bottom() == top
            },
{
    lemma_landing_platform(player, platforms);
    let i = choose|i: int|
        0 <= i < platforms.len() && {
            let before = #[trigger] player.scan(platforms.take(i)).player;
            &&& before.body().lands_on(platforms[i])
            &&& player.scan(platforms).player == before.rest_on(platforms[i])
        };
    lemma_scan_keeps(player, platforms.take(i));
}

/// A player in the air gains downward speed in every frame of positive
/// length, until its speed reaches the end of the range.
pub proof fn lemma_fall_gains_speed(player: PlayerView, platforms: Seq<Aabb>, micros: u32)
    requires
        !player.scan(platforms).landed,
        micros > 0,
        player.vy > i64::MIN,
    ensures
        player.after_gravity(platforms, micros).vy < player.vy,
{
}

/// The horizontal speed after the movement step is within the limit,
/// whatever the speed before and whatever keys are held; with no key held
/// it is zero.
pub proof fn lemma_speed_limit(player: PlayerView, micros: u32, left_held: bool, right_held: bool)
    ensures
        -MAX_HORIZONTAL_VELOCITY <= player.after_horizontal(micros, left_held, right_held).vx
            <= MAX_HORIZONTAL_VELOCITY,
        !left_held && !right_held ==> player.after_horizontal(micros, left_held, right_held).vx
            == 0,
{
}

/// Each step of a frame keeps the player well formed.
pub proof fn lemma_steps_keep_wf(
    player: PlayerView,
    platforms: Seq<Aabb>,
    micros: u32,
    left_held: bool,
    right_held: bool,
    pressed: bool,
)
    requires
        player.wf(),
    ensures
        player.after_gravity(platforms, micros).wf(),
        player.after_horizontal(micros, left_held, right_held).wf(),
        player.after_jump(pressed).wf(),
        player.after_motion(micros).wf(),
{
    lemma_scan_keeps(player, platforms);
}

/// The way covered at any velocity in any one step is far inside the range
/// of the wide intermediate type.
proof fn lemma_travel_fits(velocity: i64, micros: u32)
    ensures
        -0x8000_0000_0000_0000_0000_0000 <= velocity * micros <= 0x8000_0000_0000_0000_0000_0000,
{
    assert(-0x8000_0000_0000_0000_0000_0000 <= velocity * micros
        <= 0x8000_0000_0000_0000_0000_0000) by (nonlinear_arith)
        requires
            -0x8000_0000_0000_0000 <= velocity <= 0x8000_0000_0000_0000,
            0 <= micros <= 0x1_0000_0000,
    ;
}

} // verus!
