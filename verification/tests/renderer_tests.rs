use chip8::renderer::{
    update_pixels, Renderer, BACKGROUND_COLOR_RGB, FOREGROUND_COLOR_RGB, SCREEN_HEIGHT,
    SCREEN_WIDTH,
};

fn make_renderer() -> (Renderer, single_value_channel::Receiver<Option<Vec<bool>>>) {
    let (receiver, sender) = single_value_channel::channel();
    (Renderer::new(sender), receiver)
}

#[test]
fn draw_byte_sets_row_without_collision() {
    let (mut renderer, _receiver) = make_renderer();
    let erased = renderer.draw_sprite(&[0xFF], 0, 0);
    assert!(!erased);
    for col in 0..8 {
        assert!(renderer.pixel(col, 0));
    }
    for col in 8..SCREEN_WIDTH {
        assert!(!renderer.pixel(col, 0));
    }
    for row in 1..SCREEN_HEIGHT {
        for col in 0..SCREEN_WIDTH {
            assert!(!renderer.pixel(col, row));
        }
    }
}

#[test]
fn draw_same_sprite_twice_erases_and_collides() {
    let (mut renderer, _receiver) = make_renderer();
    assert!(!renderer.draw_sprite(&[0xFF], 0, 0));
    let erased = renderer.draw_sprite(&[0xFF], 0, 0);
    assert!(erased);
    for col in 0..8 {
        assert!(!renderer.pixel(col, 0));
    }
}

#[test]
fn draw_xor_only_flips_sprite_bits() {
    let (mut renderer, _receiver) = make_renderer();
    renderer.draw_sprite(&[0b1111_0000], 0, 0);
    let erased = renderer.draw_sprite(&[0b1010_1010], 0, 0);
    assert!(erased);
    // 0b1111_0000 XOR 0b1010_1010 == 0b0101_1010, most significant bit first
    let expected = [false, true, false, true, true, false, true, false];
    for col in 0..8 {
        assert_eq!(renderer.pixel(col, 0), expected[col]);
    }
}

#[test]
fn clear_display_then_draw_never_collides() {
    let (mut renderer, _receiver) = make_renderer();
    renderer.draw_sprite(&[0xFF, 0xFF], 3, 7);
    renderer.clear_display();
    for row in 0..SCREEN_HEIGHT {
        for col in 0..SCREEN_WIDTH {
            assert!(!renderer.pixel(col, row));
        }
    }
    let erased = renderer.draw_sprite(&[0xFF, 0xFF], 3, 7);
    assert!(!erased);
}

#[test]
fn draw_start_position_wraps_once() {
    let (mut renderer, _receiver) = make_renderer();
    // 70 % 64 == 6, 33 % 32 == 1
    renderer.draw_sprite(&[0x80], 70, 33);
    assert!(renderer.pixel(6, 1));
    assert!(!renderer.pixel(6, 0));
}

#[test]
fn draw_clips_at_right_and_bottom_edges() {
    let (mut renderer, _receiver) = make_renderer();
    let erased = renderer.draw_sprite(&[0xFF, 0xFF], 62, 31);
    assert!(!erased);
    // only columns 62 and 63 of row 31 land on screen; the rest clips
    assert!(renderer.pixel(62, 31));
    assert!(renderer.pixel(63, 31));
    for col in 0..62 {
        assert!(!renderer.pixel(col, 31));
    }
    for col in 0..SCREEN_WIDTH {
        assert!(!renderer.pixel(col, 0));
    }
}

#[test]
fn draw_publishes_latest_snapshot() {
    let (mut renderer, mut receiver) = make_renderer();
    renderer.draw_sprite(&[0x80], 0, 0);
    renderer.draw_sprite(&[0x80], 1, 0);
    let latest = receiver.latest().as_ref().expect("a snapshot was published");
    assert_eq!(latest.len(), SCREEN_WIDTH * SCREEN_HEIGHT);
    assert!(latest[0]);
    assert!(latest[1]);
}

#[test]
fn update_pixels_paints_both_colors() {
    let display = vec![true, false, false, true];
    let mut frame_buffer: Vec<u32> = vec![7, 7, 7, 7];
    update_pixels(&mut frame_buffer, &display);
    assert_eq!(
        frame_buffer,
        vec![
            FOREGROUND_COLOR_RGB,
            BACKGROUND_COLOR_RGB,
            BACKGROUND_COLOR_RGB,
            FOREGROUND_COLOR_RGB
        ]
    );
}
