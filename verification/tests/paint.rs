use bouncing_box::paint::{BYTES_PER_PIXEL, FRAME_BYTES};
use bouncing_box::world::World;

const BOX: [u8; 4] = [0x5e, 0x48, 0xe8, 0xff];
const BACKGROUND: [u8; 4] = [0x48, 0xb2, 0xe8, 0xff];

fn world_at(box_x: i16, box_y: i16) -> World {
    World { box_x, box_y, velocity_x: 1, velocity_y: 1 }
}

fn pixel(frame: &[u8], x: usize, y: usize) -> [u8; 4] {
    let at = 4 * (y * 320 + x);
    [frame[at], frame[at + 1], frame[at + 2], frame[at + 3]]
}

fn draw_frame(world: &World) -> Vec<u8> {
    let mut frame = vec![0u8; FRAME_BYTES];
    world.draw(&mut frame);
    frame
}

fn box_pixels(frame: &[u8]) -> usize {
    frame.chunks_exact(4).filter(|rgba| *rgba == BOX).count()
}

fn background_pixels(frame: &[u8]) -> usize {
    frame.chunks_exact(4).filter(|rgba| *rgba == BACKGROUND).count()
}

#[test]
fn a_frame_holds_four_bytes_for_every_pixel() {
    assert_eq!(BYTES_PER_PIXEL, 4);
    assert_eq!(FRAME_BYTES, 320 * 240 * 4);
}

#[test]
fn draw_paints_the_box_where_it_stands() {
    let frame = draw_frame(&World::new());
    assert_eq!(pixel(&frame, 24, 16), BOX);
    assert_eq!(pixel(&frame, 87, 79), BOX);
    assert_eq!(pixel(&frame, 24, 79), BOX);
    assert_eq!(pixel(&frame, 87, 16), BOX);
    assert_eq!(pixel(&frame, 50, 50), BOX);
}

#[test]
fn draw_paints_the_background_right_outside_the_box() {
    let frame = draw_frame(&World::new());
    assert_eq!(pixel(&frame, 23, 16), BACKGROUND);
    assert_eq!(pixel(&frame, 24, 15), BACKGROUND);
    assert_eq!(pixel(&frame, 88, 79), BACKGROUND);
    assert_eq!(pixel(&frame, 87, 80), BACKGROUND);
    assert_eq!(pixel(&frame, 0, 0), BACKGROUND);
    assert_eq!(pixel(&frame, 319, 239), BACKGROUND);
}

#[test]
fn draw_paints_every_pixel_in_one_of_the_two_colours() {
    let frame = draw_frame(&World::new());
    assert_eq!(box_pixels(&frame), 64 * 64);
    assert_eq!(background_pixels(&frame), 320 * 240 - 64 * 64);
}

#[test]
fn draw_twice_gives_the_same_buffer() {
    let world = world_at(100, 120);
    let mut frame = vec![7u8; FRAME_BYTES];
    world.draw(&mut frame);
    let first = frame.clone();
    world.draw(&mut frame);
    assert_eq!(frame, first);
}

#[test]
fn draw_overwrites_whatever_the_buffer_held() {
    let world = world_at(100, 120);
    let mut zeros = vec![0u8; FRAME_BYTES];
    let mut ones = vec![0xffu8; FRAME_BYTES];
    world.draw(&mut zeros);
    world.draw(&mut ones);
    assert_eq!(zeros, ones);
}

#[test]
fn draw_follows_the_box_after_an_update() {
    let mut world = World::new();
    let before = draw_frame(&world);
    world.update();
    let after = draw_frame(&world);
    assert_ne!(before, after);
    assert_eq!(pixel(&after, 24, 16), BACKGROUND);
    assert_eq!(pixel(&after, 25, 17), BOX);
    assert_eq!(pixel(&after, 88, 80), BOX);
    assert_eq!(box_pixels(&after), 64 * 64);
}

#[test]
fn draw_of_a_box_left_of_the_frame_is_all_background() {
    let frame = draw_frame(&world_at(-64, 100));
    assert_eq!(background_pixels(&frame), 320 * 240);
}

#[test]
fn draw_of_a_box_right_of_the_frame_is_all_background() {
    let frame = draw_frame(&world_at(320, 100));
    assert_eq!(background_pixels(&frame), 320 * 240);
}

#[test]
fn draw_of_a_box_above_the_frame_is_all_background() {
    let frame = draw_frame(&world_at(100, -64));
    assert_eq!(background_pixels(&frame), 320 * 240);
}

#[test]
fn draw_of_a_box_below_the_frame_is_all_background() {
    let frame = draw_frame(&world_at(100, 240));
    assert_eq!(background_pixels(&frame), 320 * 240);
}

#[test]
fn draw_of_a_far_away_box_is_all_background() {
    let frame = draw_frame(&world_at(i16::MAX, i16::MIN));
    assert_eq!(background_pixels(&frame), 320 * 240);
    let frame = draw_frame(&world_at(i16::MIN, i16::MAX));
    assert_eq!(background_pixels(&frame), 320 * 240);
}

#[test]
fn draw_clips_a_box_that_is_partly_in_the_frame() {
    let frame = draw_frame(&world_at(-63, -63));
    assert_eq!(box_pixels(&frame), 1);
    assert_eq!(pixel(&frame, 0, 0), BOX);
    assert_eq!(pixel(&frame, 1, 0), BACKGROUND);

    let frame = draw_frame(&world_at(300, 200));
    assert_eq!(box_pixels(&frame), 20 * 40);
    assert_eq!(pixel(&frame, 319, 239), BOX);
    assert_eq!(pixel(&frame, 299, 239), BACKGROUND);
}

#[test]
fn draw_does_not_wrap_the_box_round_to_the_next_row() {
    let frame = draw_frame(&world_at(300, 0));
    assert_eq!(pixel(&frame, 0, 1), BACKGROUND);
    assert_eq!(pixel(&frame, 43, 1), BACKGROUND);
    assert_eq!(pixel(&frame, 300, 1), BOX);
}

#[test]
fn draw_leaves_the_bytes_after_the_last_whole_pixel() {
    let mut frame = vec![9u8; 10];
    world_at(1, 0).draw(&mut frame);
    assert_eq!(frame, vec![0x48, 0xb2, 0xe8, 0xff, 0x5e, 0x48, 0xe8, 0xff, 9, 9]);
}

#[test]
fn draw_accepts_a_buffer_without_a_whole_pixel() {
    let mut empty: Vec<u8> = Vec::new();
    World::new().draw(&mut empty);
    assert!(empty.is_empty());

    let mut short = vec![1u8, 2, 3];
    World::new().draw(&mut short);
    assert_eq!(short, vec![1u8, 2, 3]);
}

#[test]
fn draw_fills_the_rows_of_a_taller_buffer_too() {
    let mut frame = vec![0u8; 4 * 320 * 400];
    world_at(0, 300).draw(&mut frame);
    assert_eq!(box_pixels(&frame), 64 * 64);
    assert_eq!(pixel(&frame, 0, 300), BOX);
    assert_eq!(pixel(&frame, 63, 363), BOX);
    assert_eq!(pixel(&frame, 0, 299), BACKGROUND);
}

#[test]
fn covers_pixel_takes_the_left_and_top_sides_in() {
    let world = world_at(24, 16);
    assert!(world.covers_pixel(24, 16));
    assert!(!world.covers_pixel(23, 16));
    assert!(!world.covers_pixel(24, 15));
}

#[test]
fn covers_pixel_leaves_the_right_and_bottom_sides_out() {
    let world = world_at(24, 16);
    assert!(world.covers_pixel(87, 79));
    assert!(!world.covers_pixel(88, 79));
    assert!(!world.covers_pixel(87, 80));
}

#[test]
fn covers_pixel_reaches_beyond_sixteen_bits() {
    let world = world_at(i16::MAX, i16::MAX);
    assert!(world.covers_pixel(32_767, 32_767));
    assert!(world.covers_pixel(32_830, 32_830));
    assert!(!world.covers_pixel(32_831, 32_830));
    assert!(!world.covers_pixel(usize::MAX, 32_800));
    assert!(!world.covers_pixel(32_800, usize::MAX));
}
