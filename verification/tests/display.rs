//! Exercises of the display: XOR compositing, collision, clipping.

use chip8_core::chip8::gpu::Gpu;

#[test]
fn fresh_display_is_blank() {
    let gpu = Gpu::new();
    for row in 0..32 {
        assert_eq!(gpu.buffer[row], 0);
    }
    assert!(gpu.has_changed);
}

#[test]
fn draw_places_byte_at_column() {
    let mut gpu = Gpu::new();
    let collided = gpu.draw_sprite_line(0, 0, 0xFF);
    assert!(!collided);
    assert_eq!(gpu.buffer[0], 0xFFu64 << 56);

    let collided = gpu.draw_sprite_line(8, 3, 0x81);
    assert!(!collided);
    assert_eq!(gpu.buffer[3], 0x81u64 << 48);
}

#[test]
fn draw_twice_erases_and_collides() {
    let mut gpu = Gpu::new();
    assert!(!gpu.draw_sprite_line(10, 5, 0x3C));
    assert!(gpu.draw_sprite_line(10, 5, 0x3C));
    assert_eq!(gpu.buffer[5], 0);
}

#[test]
fn overlapping_pixels_collide() {
    let mut gpu = Gpu::new();
    assert!(!gpu.draw_sprite_line(0, 0, 0x0F));
    // shares exactly one lit pixel with what is there
    assert!(gpu.draw_sprite_line(4, 0, 0x88));
    // 0x0F at column 0 XOR 0x88 at column 4
    assert_eq!(gpu.buffer[0], (0x0Fu64 << 56) ^ (0x88u64 << 52));
}

#[test]
fn draw_below_screen_is_no_op() {
    let mut gpu = Gpu::new();
    gpu.draw_sprite_line(0, 0, 0xFF);
    let before = gpu.buffer;
    let collided = gpu.draw_sprite_line(0, 32, 0xFF);
    assert!(!collided);
    assert_eq!(gpu.buffer, before);
    let collided = gpu.draw_sprite_line(0, 255, 0xFF);
    assert!(!collided);
    assert_eq!(gpu.buffer, before);
}

#[test]
fn draw_clips_at_right_edge() {
    let mut gpu = Gpu::new();
    // at column 60 only the top four sprite pixels stay on screen
    let collided = gpu.draw_sprite_line(60, 2, 0xFF);
    assert!(!collided);
    assert_eq!(gpu.buffer[2], 0x0F);

    // at column 56 the byte still fits exactly
    let mut gpu = Gpu::new();
    gpu.draw_sprite_line(56, 2, 0xFF);
    assert_eq!(gpu.buffer[2], 0xFF);
}

#[test]
fn clear_zeroes_every_row() {
    let mut gpu = Gpu::new();
    for y in 0..32 {
        gpu.draw_sprite_line((y * 2) as u8, y as u8, 0xA5);
    }
    gpu.clear();
    for row in 0..32 {
        assert_eq!(gpu.buffer[row], 0);
    }
}
