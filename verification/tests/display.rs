use emuchip::display::{FrameBuffer, COLOUR_OFF, COLOUR_ON, HEIGHT, WIDTH};
use emuchip::keyboard::Key;

fn lit(fb: &FrameBuffer) -> Vec<(usize, usize)> {
    let mut on = Vec::new();
    for y in 0..HEIGHT {
        for x in 0..WIDTH {
            if fb.bit_buffer[y * WIDTH + x] == 1 {
                on.push((x, y));
            }
        }
    }
    on
}

#[test]
fn new_frame_buffer_is_dark() {
    let fb = FrameBuffer::new();
    assert_eq!(fb.bit_buffer, vec![0; 64 * 32]);
    assert_eq!(fb.pixel_buffer, vec![COLOUR_OFF; 64 * 32]);
    assert!(!fb.should_update);
}

#[test]
fn paint_one_row() {
    let mut fb = FrameBuffer::new();
    let collided = fb.paint(3, 2, vec![0b1010_0001]);
    assert!(!collided);
    assert_eq!(lit(&fb), vec![(3, 2), (5, 2), (10, 2)]);
    assert!(fb.should_update);
}

#[test]
fn paint_sets_colours() {
    let mut fb = FrameBuffer::new();
    fb.paint(0, 0, vec![0x80]);
    assert_eq!(fb.pixel_buffer[0], COLOUR_ON);
    assert_eq!(fb.pixel_buffer[0], 0x007FFF);
    assert_eq!(fb.pixel_buffer[1], COLOUR_OFF);
    fb.paint(0, 0, vec![0x80]);
    assert_eq!(fb.pixel_buffer[0], COLOUR_OFF);
}

#[test]
fn paint_glyph() {
    let mut fb = FrameBuffer::new();
    fb.paint(10, 5, vec![0xF0, 0x90, 0x90, 0x90, 0xF0]);
    let mut expected = Vec::new();
    for x in 10..14 {
        expected.push((x, 5));
    }
    for y in 6..9 {
        expected.push((10, y));
        expected.push((13, y));
    }
    for x in 10..14 {
        expected.push((x, 9));
    }
    assert_eq!(lit(&fb), expected);
}

#[test]
fn paint_twice_restores_the_screen() {
    let mut fb = FrameBuffer::new();
    fb.paint(7, 3, vec![0x3C, 0xC3, 0xFF]);
    let before = fb.bit_buffer.clone();
    let sprite = vec![0xF0, 0x0F, 0xAA, 0x55];
    let first = fb.paint(5, 2, sprite.clone());
    assert!(first);
    assert_ne!(fb.bit_buffer, before);
    let second = fb.paint(5, 2, sprite);
    assert!(second);
    assert_eq!(fb.bit_buffer, before);
}

#[test]
fn second_paint_on_dark_screen_collides() {
    let mut fb = FrameBuffer::new();
    assert!(!fb.paint(0, 0, vec![0xFF]));
    assert!(fb.paint(0, 0, vec![0xFF]));
    assert_eq!(fb.bit_buffer, vec![0; 64 * 32]);
    assert_eq!(fb.pixel_buffer, vec![COLOUR_OFF; 64 * 32]);
}

#[test]
fn empty_sprite_rows_never_collide() {
    let mut fb = FrameBuffer::new();
    fb.paint(0, 0, vec![0xFF]);
    assert!(!fb.paint(0, 0, vec![0x00]));
    assert!(!fb.paint(0, 0, vec![]));
    assert_eq!(lit(&fb).len(), 8);
}

#[test]
fn collision_needs_a_pixel_going_off() {
    let mut fb = FrameBuffer::new();
    fb.paint(0, 0, vec![0xF0]);
    assert!(!fb.paint(0, 0, vec![0x0F]));
    assert!(fb.paint(0, 0, vec![0x01]));
    assert_eq!(lit(&fb).len(), 7);
}

#[test]
fn paint_clips_at_the_right_edge() {
    let mut fb = FrameBuffer::new();
    fb.paint(60, 4, vec![0xFF, 0xFF]);
    assert_eq!(
        lit(&fb),
        vec![(60, 4), (61, 4), (62, 4), (63, 4), (60, 5), (61, 5), (62, 5), (63, 5)]
    );
}

#[test]
fn paint_clips_at_the_bottom_edge() {
    let mut fb = FrameBuffer::new();
    fb.paint(0, 30, vec![0x80, 0x80, 0x80, 0x80]);
    assert_eq!(lit(&fb), vec![(0, 30), (0, 31)]);
}

#[test]
fn paint_clips_in_the_corner() {
    let mut fb = FrameBuffer::new();
    fb.paint(63, 31, vec![0xFF, 0xFF]);
    assert_eq!(lit(&fb), vec![(63, 31)]);
}

#[test]
fn paint_takes_coordinates_modulo_the_grid() {
    let mut fb = FrameBuffer::new();
    fb.paint(64 + 3, 32 + 2, vec![0x80]);
    assert_eq!(lit(&fb), vec![(3, 2)]);
    fb.paint(255, 255, vec![0x80]);
    assert_eq!(lit(&fb), vec![(3, 2), (63, 31)]);
}

#[test]
fn paint_long_sprite() {
    let mut fb = FrameBuffer::new();
    fb.paint(0, 0, vec![0x80; 40]);
    assert_eq!(lit(&fb).len(), 32);
}

#[test]
fn clear_buffer_turns_everything_off() {
    let mut fb = FrameBuffer::new();
    fb.paint(1, 1, vec![0xFF, 0xFF]);
    fb.sync();
    fb.clear_buffer();
    assert_eq!(fb.bit_buffer, vec![0; 64 * 32]);
    assert_eq!(fb.pixel_buffer, vec![COLOUR_OFF; 64 * 32]);
    assert!(fb.should_update);
}

#[test]
fn sync_reports_a_change_once() {
    let mut fb = FrameBuffer::new();
    assert!(!fb.sync());
    fb.paint(0, 0, vec![0x80]);
    assert!(fb.sync());
    assert!(!fb.sync());
    assert_eq!(lit(&fb), vec![(0, 0)]);
}

#[test]
fn check_for_keys_takes_the_keys_that_are_down() {
    let mut fb = FrameBuffer::new();
    fb.check_for_keys(&[Key::Q, Key::Other, Key::V, Key::Escape]);
    for n in 0..16u8 {
        assert_eq!(fb.keyboard.get_key_status_from_num(n), n == 0x4 || n == 0xF);
    }
    fb.check_for_keys(&[Key::Key1]);
    for n in 0..16u8 {
        assert_eq!(fb.keyboard.get_key_status_from_num(n), n == 0x1);
    }
    fb.check_for_keys(&[]);
    for n in 0..16u8 {
        assert!(!fb.keyboard.get_key_status_from_num(n));
    }
}

#[test]
fn drawing_nothing_needs_no_showing() {
    let mut fb = FrameBuffer::new();
    fb.paint(5, 5, vec![]);
    assert!(!fb.should_update);
    fb.paint(5, 5, vec![0x00, 0x00]);
    assert!(!fb.should_update);
    fb.paint(5, 5, vec![0x01]);
    assert!(fb.should_update);
    fb.paint(5, 5, vec![0x00]);
    assert!(fb.should_update);
}

#[test]
fn clearing_a_dark_screen_needs_no_showing() {
    let mut fb = FrameBuffer::new();
    fb.clear_buffer();
    assert!(!fb.should_update);
    fb.paint(63, 31, vec![0x80]);
    assert!(fb.sync());
    fb.clear_buffer();
    assert!(fb.should_update);
    assert!(fb.sync());
    fb.clear_buffer();
    assert!(!fb.should_update);
}
