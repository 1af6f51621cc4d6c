use yac8::Display;

fn cell(display: &Display, x: usize, y: usize) -> u8 {
    display.buffer[y * 64 + x]
}

#[test]
fn new_display_is_dark() {
    let display = Display::new();
    assert_eq!(display.buffer.len(), 2048);
    assert!(display.buffer.iter().all(|&c| c == 0));
}

#[test]
fn draw_lights_sprite_bits_msb_leftmost() {
    let mut display = Display::new();
    let sprite = vec![0b1010_0001u8];
    let collision = display.draw(8, 3, &sprite);
    assert!(!collision);
    assert_eq!(cell(&display, 8, 3), 1);
    assert_eq!(cell(&display, 9, 3), 0);
    assert_eq!(cell(&display, 10, 3), 1);
    assert_eq!(cell(&display, 15, 3), 1);
    assert_eq!(cell(&display, 7, 3), 0);
    assert_eq!(cell(&display, 16, 3), 0);
}

#[test]
fn draw_twice_restores_cleared_buffer_and_reports_collision() {
    let mut display = Display::new();
    display.clear();
    let sprite = vec![0xF0u8, 0x90, 0x90, 0x90, 0xF0];
    let first = display.draw(10, 5, &sprite);
    assert!(!first);
    let second = display.draw(10, 5, &sprite);
    assert!(second);
    assert!(display.buffer.iter().all(|&c| c == 0));
}

#[test]
fn draw_wraps_horizontally() {
    let mut display = Display::new();
    let sprite = vec![0b1100_0000u8];
    let collision = display.draw(63, 0, &sprite);
    assert!(!collision);
    // The first pixel column lands at x = 63, the second wraps to x = 0.
    assert_eq!(cell(&display, 63, 0), 1);
    assert_eq!(cell(&display, 0, 0), 1);
    assert_eq!(cell(&display, 1, 0), 0);
}

#[test]
fn draw_wraps_vertically() {
    let mut display = Display::new();
    let sprite = vec![0b1000_0000u8, 0b1000_0000];
    let collision = display.draw(0, 31, &sprite);
    assert!(!collision);
    assert_eq!(cell(&display, 0, 31), 1);
    assert_eq!(cell(&display, 0, 0), 1);
}

#[test]
fn collision_means_a_lit_cell_went_dark() {
    let mut display = Display::new();
    // Overlapping but disjoint bits: no cell is erased.
    let erased = display.draw(0, 0, &vec![0b1010_0000u8]);
    assert!(!erased);
    let erased = display.draw(0, 0, &vec![0b0101_0000u8]);
    assert!(!erased);
    // Now a genuinely overlapping bit erases a lit cell.
    let erased = display.draw(0, 0, &vec![0b0100_0000u8]);
    assert!(erased);
    assert_eq!(cell(&display, 1, 0), 0);
}

#[test]
fn clear_darkens_everything() {
    let mut display = Display::new();
    let _ = display.draw(1, 2, &vec![0xFFu8, 0xFF]);
    display.clear();
    assert!(display.buffer.iter().all(|&c| c == 0));
}
