//! Painting the scene into a frame buffer.
//!
//! A frame buffer is a flat array of bytes, four to a pixel (red, green, blue,
//! alpha), the pixels row by row from the top-left corner, each row
//! [`WIDTH`] pixels long. A pixel shows the box where its column and row both
//! fall into the box's half-open range, and the background everywhere else.

use vstd::prelude::*;
use crate::world::{World, BOX_SIZE, HEIGHT, WIDTH};

verus! {

/// Bytes per pixel.
pub const BYTES_PER_PIXEL: usize = 4;

/// Bytes in a buffer that holds the whole frame: four for each of
/// [`WIDTH`] times [`HEIGHT`] pixels.
pub const FRAME_BYTES: usize = 307_200;

/// The colour of the box.
pub open spec fn box_color() -> Seq<u8> {
    seq![0x5e, 0x48, 0xe8, 0xff]
}

/// The colour of everything but the box.
pub open spec fn background_color() -> Seq<u8> {
    seq![0x48, 0xb2, 0xe8, 0xff]
}

/// Whether the box covers the pixel in column `x` of row `y`.
pub open spec fn covers(world: World, x: int, y: int) -> bool {
    &&& world.box_x <= x < world.box_x + BOX_SIZE
    &&& world.box_y <= y < world.box_y + BOX_SIZE
}

/// The four bytes of pixel number `index`, counted row by row.
pub open spec fn pixel_color(world: World, index: int) -> Seq<u8> {
    if covers(world, index % (WIDTH as int), index / (WIDTH as int)) {
        box_color()
    } else {
        background_color()
    }
}

/// The number of leading bytes of a buffer of `len` bytes that make up whole
/// pixels.
pub open spec fn pixel_bytes(len: nat) -> int {
    BYTES_PER_PIXEL * (len as int / BYTES_PER_PIXEL as int)
}

/// The buffer `frame` after the scene has been painted into it: every whole
/// pixel holds its colour, and the one to three bytes that may follow the
/// last whole pixel are as they were.
pub open spec fn painted(world: World, frame: Seq<u8>) -> Seq<u8> {
    Seq::new(
        frame.len(),
        |at: int|
            if at < pixel_bytes(frame.len()) {
                pixel_color(world, at / BYTES_PER_PIXEL as int)[at % BYTES_PER_PIXEL as int]
            } else {
                frame[at]
            },
    )
}

/// The buffer `frame` with every whole pixel in the background colour.
pub open spec fn backdrop(frame: Seq<u8>) -> Seq<u8> {
    Seq::new(
        frame.len(),
        |at: int|
            if at < pixel_bytes(frame.len()) {
                background_color()[at % BYTES_PER_PIXEL as int]
            } else {
                frame[at]
            },
    )
}

/// Whether no part of the box lies inside the frame.
pub open spec fn out_of_sight(world: World) -> bool {
    ||| world.box_x + BOX_SIZE <= 0
    ||| world.box_x >= WIDTH
    ||| world.box_y + BOX_SIZE <= 0
    ||| world.box_y >= HEIGHT
}

/// The four bytes of a pixel that the box covers, or does not cover.
fn color_of(covered: bool) -> (rgba: [u8; 4])
    ensures
        rgba@ == if covered {
            box_color()
        } else {
            background_color()
        },
{
    if covered {
        [0x5e, 0x48, 0xe8, 0xff]
    } else {
        [0x48, 0xb2, 0xe8, 0xff]
    }
}

impl World {
    /// Tells whether the box covers the pixel in column `x` of row `y`.
    pub fn covers_pixel(&self, x: usize, y: usize) -> (covered: bool)
        ensures
            covered == covers(*self, x as int, y as int),
    {
        let left: i32 = self.box_x as i32;
        let top: i32 = self.box_y as i32;
        let side: i32 = BOX_SIZE as i32;
        if x > i32::MAX as usize || y > i32::MAX as usize {
            false
        } else {
            let column: i32 = x as i32;
            let row: i32 = y as i32;
            left <= column && column < left + side && top <= row && row < top + side
        }
    }

    /// Paints the scene into `frame`, overwriting every whole pixel of it.
    pub fn draw(&self, frame: &mut [u8])
        ensures
            final(frame)@ == painted(*self, old(frame)@),
    {
        let pixels: usize = frame.len() / BYTES_PER_PIXEL;
        let mut index: usize = 0;
        while index < pixels
            invariant
                frame@.len() == old(frame)@.len(),
                frame@.len() <= usize::MAX,
                pixels == frame@.len() / BYTES_PER_PIXEL as nat,
                index <= pixels,
                forall|at: int|
                    0 <= at < BYTES_PER_PIXEL * index ==> frame@[at] == painted(
                        *self,
                        old(frame)@,
                    )[at],
                forall|at: int|
                    BYTES_PER_PIXEL * index <= at < frame@.len() ==> frame@[at] == old(frame)@[at],
            decreases pixels - index,
        {
            let covered = self.covers_pixel(index % WIDTH as usize, index / WIDTH as usize);
            let rgba = color_of(covered);
            let base: usize = BYTES_PER_PIXEL * index;
            frame[base] = rgba[0];
            frame[base + 1] = rgba[1];
            frame[base + 2] = rgba[2];
            frame[base + 3] = rgba[3];
            index += 1;
        }
    }
}

/// A buffer for the whole frame holds four bytes for each of its pixels.
pub proof fn lemma_frame_bytes()
    ensures
        FRAME_BYTES == BYTES_PER_PIXEL * WIDTH * HEIGHT,
        pixel_bytes(FRAME_BYTES as nat) == FRAME_BYTES,
{
}

/// Painting twice is the same as painting once: a second call with the scene
/// unchanged leaves the buffer as the first call left it.
pub proof fn lemma_draw_is_idempotent(world: World, frame: Seq<u8>)
    ensures
        painted(world, painted(world, frame)) == painted(world, frame),
{
    assert(painted(world, painted(world, frame)) =~= painted(world, frame));
}

/// Painting overwrites: on two buffers of the same length, a multiple of the
/// pixel size, it gives the same result, whatever they held before.
pub proof fn lemma_draw_overwrites(world: World, first: Seq<u8>, second: Seq<u8>)
    requires
        first.len() == second.len(),
        first.len() % BYTES_PER_PIXEL as nat == 0,
    ensures
        painted(world, first) == painted(world, second),
{
    assert(painted(world, first) =~= painted(world, second));
}

/// A box that lies wholly outside the frame leaves no trace: every whole pixel
/// of a buffer no longer than the frame comes out in the background colour.
pub proof fn lemma_draw_out_of_sight(world: World, frame: Seq<u8>)
    requires
        out_of_sight(world),
        frame.len() <= FRAME_BYTES,
    ensures
        painted(world, frame) == backdrop(frame),
{
    assert forall|index: int| 0 <= index < WIDTH * HEIGHT implies pixel_color(world, index)
        == background_color() by {
        assert(0 <= index % (WIDTH as int) < WIDTH);
        assert(0 <= index / (WIDTH as int) < HEIGHT);
    }
    assert(painted(world, frame) =~= backdrop(frame));
}

} // verus!
