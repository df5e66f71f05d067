use chip8_emulator::screen::{PixelSet, Screen};

#[test]
fn small_screen_output() {
    let mut s = Screen::new(2, 2);

    s.set_pixel(1, 1);
    let output = s.screen_to_render();
    let comparison: Vec<[u8; 4]> = vec![[0, 0, 0, 0], [0, 0, 0, 0], [0, 0, 0, 0], s.color];
    assert_eq!(output, comparison);
}

#[test]
fn render_screen() {
    let mut s = Screen::new(8, 8);
    let c = s.color;
    let z: [u8; 4] = [0, 0, 0, 0];
    s.screen[0] = PixelSet::PixelOn;
    s.screen[9] = PixelSet::PixelOn;
    s.screen[10] = PixelSet::PixelOn;

    let output = s.screen_to_render();
    let mut comparison: Vec<[u8; 4]> = vec![z; 8 * 8];
    comparison[0] = c;
    comparison[9] = c;
    comparison[10] = c;
    assert_eq!(output, comparison);
}

#[test]
fn test_clear_screen() {
    let mut s = Screen::new(2, 2);
    let c = s.color;
    s.set_pixel(1, 1);
    s.set_pixel(0, 0);
    let output = s.screen_to_render();
    let comparison: Vec<[u8; 4]> = vec![c, [0; 4], [0; 4], c];
    assert_eq!(output, comparison);
    s.clear_screen();
    let output = s.screen_to_render();
    let comparison: Vec<[u8; 4]> = vec![[0, 0, 0, 0], [0, 0, 0, 0], [0, 0, 0, 0], [0, 0, 0, 0]];
    assert_eq!(output, comparison);
}

#[test]
fn test_byte_set() {
    let mut s = Screen::new(8, 2);
    let c = s.color;
    let z: [u8; 4] = [0, 0, 0, 0];
    let byte_to_set = 0xFF;
    s.set_byte_pixels(byte_to_set, 0, 0);
    let output = s.screen_to_render();
    let comparison: Vec<[u8; 4]> = vec![c, c, c, c, c, c, c, c, z, z, z, z, z, z, z, z];
    assert_eq!(output, comparison);
}

#[test]
fn set_pixel_reports_prior_state() {
    let mut s = Screen::new(4, 4);
    // Toggling an off pixel lights it and reports no collision.
    assert!(!s.set_pixel(2, 3));
    // Toggling it again turns it off and reports the collision.
    assert!(s.set_pixel(2, 3));
    assert!(!s.set_pixel(2, 3));
}

#[test]
fn byte_pixels_wrap_at_edges() {
    let mut s = Screen::new(4, 2);
    // Drawing 0xFF at x = 2 on a 4-wide screen wraps: bit i lands on
    // column (2 + i) % 4, so every column is toggled twice and ends up
    // off again, with the collision reported.
    let overlap = s.set_byte_pixels(0xFF, 2, 0);
    assert!(overlap);
    let output = s.screen_to_render();
    assert!(output.iter().all(|cell| *cell == [0, 0, 0, 0]));
    // Drawing 0xF0 at x = 2 toggles columns 2, 3, 0, 1 once each.
    let overlap = s.set_byte_pixels(0xF0, 2, 0);
    assert!(!overlap);
    let output = s.screen_to_render();
    assert!(output[0..4].iter().all(|cell| *cell == s.color));
    // Row 1 wraps vertically: y = 3 on a 2-tall screen is row 1.
    let overlap = s.set_byte_pixels(0x80, 0, 3);
    assert!(!overlap);
    let output = s.screen_to_render();
    assert_eq!(output[4], s.color);
}
