//! The world and the frame: one player, the platforms, and the fixed order
//! in which the steps of a frame are taken.

use crate::geometry::Aabb;
use crate::input::FrameInput;
use crate::player::{boxes, Platform, Player, PlayerView};
use crate::systems::{
    gravity_system,
    horizontal_movement,
    jump_system,
    lemma_steps_keep_wf,
    position_system,
};
use vstd::prelude::*;

verus! {

/// Everything that a frame reads and changes.
#[derive(Debug)]
pub struct World {
    pub player: Player,
    pub platforms: Vec<Platform>,
}

/// The world over the unbounded integers.
pub struct WorldView {
    pub player: PlayerView,
    pub platforms: Seq<Aabb>,
}

impl View for World {
    type V = WorldView;

    open spec fn view(&self) -> WorldView {
        WorldView { player: self.player@, platforms: boxes(self.platforms@) }
    }
}

impl PlayerView {
    /// The player after one frame among `platforms`: first gravity and
    /// ground contact, then horizontal movement, then the jump, and last
    /// the motion, which so sees the velocity that the frame ends with.
    pub open spec fn after_frame(self, platforms: Seq<Aabb>, input: FrameInput) -> PlayerView {
        self.after_gravity(platforms, input.micros).after_horizontal(
            input.micros,
            input.left_held,
            input.right_held,
        ).after_jump(input.jump_pressed).after_motion(input.micros)
    }
}

impl WorldView {
    /// The world after one frame. The platforms never change.
    pub open spec fn step(self, input: FrameInput) -> WorldView {
        WorldView { player: self.player.after_frame(self.platforms, input), ..self }
    }

    /// The world after the frames of `inputs`, taken in order.
    pub open spec fn run(self, inputs: Seq<FrameInput>) -> WorldView
        decreases inputs.len(),
    {
        if inputs.len() == 0 {
            self
        } else {
            self.run(inputs.drop_last()).step(inputs.last())
        }
    }
}

impl World {
    /// A world with the given player and platforms.
    pub fn new(player: Player, platforms: Vec<Platform>) -> (world: World)
        ensures
            world.player == player,
            world.platforms == platforms,
    {
        World { player, platforms }
    }

    /// Advances the world by one frame.
    pub fn step(&mut self, input: FrameInput)
        ensures
            final(self)@ == old(self)@.step(input),
            final(self)@.player.wf(),
            final(self).platforms == old(self).platforms,
    {
        gravity_system(&mut self.player, &self.platforms, input.micros);
        horizontal_movement(&mut self.player, input.micros, input.left_held, input.right_held);
        jump_system(&mut self.player, input.jump_pressed);
        position_system(&mut self.player, input.micros);
    }
}

/// A frame keeps the player well formed.
pub proof fn lemma_frame_keeps_wf(player: PlayerView, platforms: Seq<Aabb>, input: FrameInput)
    requires
        player.wf(),
    ensures
        player.after_frame(platforms, input).wf(),
{
    let fallen = player.after_gravity(platforms, input.micros);
    let moved = fallen.after_horizontal(input.micros, input.left_held, input.right_held);
    let jumped = moved.after_jump(input.jump_pressed);
    lemma_steps_keep_wf(player, platforms, input.micros, false, false, false);
    lemma_steps_keep_wf(fallen, platforms, input.micros, input.left_held, input.right_held, false);
    lemma_steps_keep_wf(moved, platforms, input.micros, false, false, input.jump_pressed);
    lemma_steps_keep_wf(jumped, platforms, input.micros, false, false, false);
}

/// Running a world keeps its platforms, and keeps its player well formed.
pub proof fn lemma_run_keeps(world: WorldView, inputs: Seq<FrameInput>)
    ensures
        world.run(inputs).platforms == world.platforms,
        world.player.wf() ==> world.run(inputs).player.wf(),
    decreases inputs.len(),
{
    if inputs.len() > 0 {
        lemma_run_keeps(world, inputs.drop_last());
        if world.player.wf() {
            lemma_frame_keeps_wf(
                world.run(inputs.drop_last()).player,
                world.platforms,
                inputs.last(),
            );
        }
    }
}

} // verus!
