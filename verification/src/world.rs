//! The scene: one axis-aligned square moving inside a fixed frame.
//!
//! Motion is described one axis at a time. An update first reflects the
//! velocity if the box touches or crosses an edge, and only then moves the box
//! by the (possibly reflected) velocity. The box may therefore stand up to one
//! step beyond an edge between two updates; [`on_course`] is the invariant
//! that says it never gets further than that.

use vstd::prelude::*;

verus! {

/// Width of the frame, in pixels.
pub const WIDTH: u32 = 320;

/// Height of the frame, in pixels.
pub const HEIGHT: u32 = 240;

/// Side of the box, in pixels.
pub const BOX_SIZE: i16 = 64;

/// Whether a box whose leading corner is at `pos` touches or crosses an edge
/// of an axis that is `extent` pixels long: its near side is at or before the
/// origin, or its far side lies beyond the extent.
pub open spec fn at_edge(pos: int, extent: int) -> bool {
    pos <= 0 || pos + BOX_SIZE > extent
}

/// The velocity along one axis after an update: reversed at an edge, kept
/// everywhere else.
pub open spec fn reflected(pos: int, vel: int, extent: int) -> int {
    if at_edge(pos, extent) {
        -vel
    } else {
        vel
    }
}

/// The position along one axis after an update: the old position moved by the
/// velocity that the update leaves.
pub open spec fn advanced(pos: int, vel: int, extent: int) -> int {
    pos + reflected(pos, vel, extent)
}

/// Whether both results of an update along one axis can be stored in 16 bits.
pub open spec fn axis_updatable(pos: int, vel: int, extent: int) -> bool {
    &&& i16::MIN <= reflected(pos, vel, extent) <= i16::MAX
    &&& i16::MIN <= advanced(pos, vel, extent) <= i16::MAX
}

/// The magnitude of a velocity.
pub open spec fn speed(vel: int) -> int {
    if vel < 0 {
        -vel
    } else {
        vel
    }
}

/// The invariant of a bouncing box along one axis.
///
/// The box moves no faster than the room it has (`extent - BOX_SIZE`), it
/// stands less than one step beyond either edge, and where it does stand at or
/// beyond an edge it got there by moving outward, so that the reflection of
/// the next update turns it back.
pub open spec fn on_course(pos: int, vel: int, extent: int) -> bool {
    let room = extent - BOX_SIZE;
    &&& speed(vel) <= room
    &&& -speed(vel) < pos <= room + speed(vel)
    &&& (pos <= 0 ==> vel < 0)
    &&& (pos > room ==> vel > 0)
}

/// Position and velocity of the box. `box_x` and `box_y` locate its top-left
/// corner; the velocities are added to them once per update.
#[derive(Clone, Copy, Debug, PartialEq, Eq, Structural)]
pub struct World {
    pub box_x: i16,
    pub box_y: i16,
    pub velocity_x: i16,
    pub velocity_y: i16,
}

impl World {
    /// The scene one update later.
    pub open spec fn updated(self) -> World
        recommends
            self.updatable(),
    {
        World {
            box_x: advanced(self.box_x as int, self.velocity_x as int, WIDTH as int) as i16,
            box_y: advanced(self.box_y as int, self.velocity_y as int, HEIGHT as int) as i16,
            velocity_x: reflected(self.box_x as int, self.velocity_x as int, WIDTH as int) as i16,
            velocity_y: reflected(self.box_y as int, self.velocity_y as int, HEIGHT as int) as i16,
        }
    }

    /// Whether the scene one update later can be represented: no position or
    /// velocity leaves the range of its 16-bit field.
    pub open spec fn updatable(self) -> bool {
        &&& axis_updatable(self.box_x as int, self.velocity_x as int, WIDTH as int)
        &&& axis_updatable(self.box_y as int, self.velocity_y as int, HEIGHT as int)
    }

    /// Whether the box is on course along both axes.
    pub open spec fn on_course(self) -> bool {
        &&& on_course(self.box_x as int, self.velocity_x as int, WIDTH as int)
        &&& on_course(self.box_y as int, self.velocity_y as int, HEIGHT as int)
    }

    /// Whether the box is on course and moves one pixel per update along each
    /// axis, as the box of the initial scene does.
    pub open spec fn in_play(self) -> bool {
        &&& self.on_course()
        &&& speed(self.velocity_x as int) == 1
        &&& speed(self.velocity_y as int) == 1
    }

    /// Whether the corner of the box lies inside the frame.
    pub open spec fn in_frame(self) -> bool {
        &&& 0 <= self.box_x < WIDTH
        &&& 0 <= self.box_y < HEIGHT
    }

    /// The scene as it is when the program starts.
    pub fn new() -> (world: World)
        ensures
            world == (World { box_x: 24, box_y: 16, velocity_x: 1, velocity_y: 1 }),
            world.in_play(),
    {
        World { box_x: 24, box_y: 16, velocity_x: 1, velocity_y: 1 }
    }

    /// Tells whether [`World::update`] may be called on this scene.
    pub fn can_update(&self) -> (ok: bool)
        ensures
            ok == self.updatable(),
    {
        axis_can_update(self.box_x, self.velocity_x, WIDTH as i32)
            && axis_can_update(self.box_y, self.velocity_y, HEIGHT as i32)
    }

    /// Bounces the box around the frame: reverses each velocity whose axis has
    /// the box at an edge, then moves the box by the resulting velocities.
    pub fn update(&mut self)
        requires
            old(self).updatable(),
        ensures
            *final(self) == old(self).updated(),
            final(self).velocity_x == reflected(
                old(self).box_x as int,
                old(self).velocity_x as int,
                WIDTH as int,
            ),
            final(self).velocity_y == reflected(
                old(self).box_y as int,
                old(self).velocity_y as int,
                HEIGHT as int,
            ),
            final(self).box_x == old(self).box_x + final(self).velocity_x,
            final(self).box_y == old(self).box_y + final(self).velocity_y,
            old(self).on_course() ==> final(self).on_course(),
            old(self).in_play() ==> final(self).in_play(),
    {
        if self.box_x <= 0 || self.box_x > WIDTH as i16 - BOX_SIZE {
            self.velocity_x = -self.velocity_x;
        }
        if self.box_y <= 0 || self.box_y > HEIGHT as i16 - BOX_SIZE {
            self.velocity_y = -self.velocity_y;
        }
        self.box_x += self.velocity_x;
        self.box_y += self.velocity_y;
    }
}

/// Computes [`axis_updatable`] in 32 bits, where nothing can overflow.
fn axis_can_update(pos: i16, vel: i16, extent: i32) -> (ok: bool)
    requires
        0 <= extent <= i16::MAX,
    ensures
        ok == axis_updatable(pos as int, vel as int, extent as int),
{
    let wide_pos: i32 = pos as i32;
    let wide_vel: i32 = vel as i32;
    let next_vel: i32 = if wide_pos <= 0 || wide_pos + BOX_SIZE as i32 > extent {
        -wide_vel
    } else {
        wide_vel
    };
    let next_pos: i32 = wide_pos + next_vel;
    i16::MIN as i32 <= next_vel && next_vel <= i16::MAX as i32 && i16::MIN as i32 <= next_pos
        && next_pos <= i16::MAX as i32
}

/// A box on course can always be updated, and is on course again afterwards.
pub proof fn lemma_update_stays_on_course(world: World)
    requires
        world.on_course(),
    ensures
        world.updatable(),
        world.updated().on_course(),
{
}

/// A box on course that stands at or beyond an edge is turned back by the next
/// update: its velocity then points into the frame, and the move brings it
/// clear of both edges.
pub proof fn lemma_update_turns_back_at_edge(world: World)
    requires
        world.on_course(),
    ensures
        world.box_x <= 0 ==> world.updated().velocity_x > 0,
        world.box_x + BOX_SIZE > WIDTH ==> world.updated().velocity_x < 0,
        world.box_y <= 0 ==> world.updated().velocity_y > 0,
        world.box_y + BOX_SIZE > HEIGHT ==> world.updated().velocity_y < 0,
        at_edge(world.box_x as int, WIDTH as int) ==> !at_edge(
            world.updated().box_x as int,
            WIDTH as int,
        ),
        at_edge(world.box_y as int, HEIGHT as int) ==> !at_edge(
            world.updated().box_y as int,
            HEIGHT as int,
        ),
{
}

/// A box clear of the edges keeps its velocity through an update.
pub proof fn lemma_update_keeps_velocity_inside(world: World)
    requires
        world.updatable(),
        !at_edge(world.box_x as int, WIDTH as int),
        !at_edge(world.box_y as int, HEIGHT as int),
    ensures
        world.updated().velocity_x == world.velocity_x,
        world.updated().velocity_y == world.velocity_y,
        world.updated().box_x == world.box_x + world.velocity_x,
        world.updated().box_y == world.box_y + world.velocity_y,
{
}

/// An update never changes how fast the box moves, only which way.
pub proof fn lemma_update_keeps_speed(world: World)
    requires
        world.updatable(),
    ensures
        speed(world.updated().velocity_x as int) == speed(world.velocity_x as int),
        speed(world.updated().velocity_y as int) == speed(world.velocity_y as int),
{
}

/// A box in play stays in play through an update.
pub proof fn lemma_update_stays_in_play(world: World)
    requires
        world.in_play(),
    ensures
        world.updatable(),
        world.updated().in_play(),
{
}

/// A box in play has its corner inside the frame, at most one pixel beyond the
/// last position at which the whole box fits.
pub proof fn lemma_in_play_is_in_frame(world: World)
    requires
        world.in_play(),
    ensures
        0 <= world.box_x <= WIDTH - BOX_SIZE + 1,
        0 <= world.box_y <= HEIGHT - BOX_SIZE + 1,
        world.in_frame(),
{
}

} // verus!
