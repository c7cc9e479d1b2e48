//! Exercises of the interpreter: one program image per case, stepped
//! through the real fetch-decode-execute loop.

use chip8_core::chip8::cpu::{Fault, CPU};

/// A fresh machine with `rom` loaded at 0x200.
fn boot(rom: &[u8]) -> CPU {
    let mut cpu = CPU::new();
    cpu.bus.load_rom(rom);
    cpu
}

#[test]
fn fresh_machine_state() {
    let cpu = CPU::new();
    assert_eq!(cpu.pc, 0x200);
    assert_eq!(cpu.sound_timer, 0);
    assert_eq!(cpu.get_delay_timer(), 0);
    assert_eq!(cpu.get_i(), 0);
    assert_eq!(cpu.stack_depth(), 0);
    for x in 0..16 {
        assert_eq!(cpu.get_v(x), 0);
    }
    // the font table sits at 0x50..0xA0
    assert_eq!(cpu.bus.read_byte(0x50), 0xF0);
    assert_eq!(cpu.bus.read_byte(0x9F), 0x80);
    assert_eq!(cpu.bus.read_byte(0xA0), 0x00);
}

#[test]
fn set_vx_every_register() {
    for x in 0u16..16 {
        let op: u16 = 0x6042 + (x << 8);
        let mut cpu = boot(&[(op >> 8) as u8, (op & 0xFF) as u8]);
        assert!(cpu.tick().is_ok());
        assert_eq!(cpu.get_v(x as u8), 0x42);
        assert_eq!(cpu.pc, 0x202);
        for other in 0u8..16 {
            if other != x as u8 {
                assert_eq!(cpu.get_v(other), 0);
            }
        }
    }
}

#[test]
fn add_immediate_wraps_without_flag() {
    // VF primed to 0x55; V0 = 0xFF + 1 wraps to 0 and VF stays put
    let mut cpu = boot(&[0x6F, 0x55, 0x60, 0xFF, 0x70, 0x01]);
    for _ in 0..3 {
        assert!(cpu.tick().is_ok());
    }
    assert_eq!(cpu.get_v(0), 0x00);
    assert_eq!(cpu.get_v(0xF), 0x55);
}

#[test]
fn add_register_carry_set_and_clear() {
    let mut cpu = boot(&[0x61, 0xFF, 0x62, 0x01, 0x81, 0x24]);
    for _ in 0..3 {
        assert!(cpu.tick().is_ok());
    }
    assert_eq!(cpu.get_v(1), 0x00);
    assert_eq!(cpu.get_v(0xF), 1);

    let mut cpu = boot(&[0x61, 0x01, 0x62, 0x01, 0x81, 0x24]);
    for _ in 0..3 {
        assert!(cpu.tick().is_ok());
    }
    assert_eq!(cpu.get_v(1), 0x02);
    assert_eq!(cpu.get_v(0xF), 0);
}

#[test]
fn bitwise_ops_clear_flag() {
    for low in [0x01u8, 0x02, 0x03] {
        let mut cpu = boot(&[0x6F, 0x55, 0x61, 0x0C, 0x62, 0x0A, 0x81, 0x20 + low]);
        for _ in 0..4 {
            assert!(cpu.tick().is_ok());
        }
        let expected = match low {
            0x01 => 0x0C | 0x0A,
            0x02 => 0x0C & 0x0A,
            _ => 0x0C ^ 0x0A,
        };
        assert_eq!(cpu.get_v(1), expected);
        assert_eq!(cpu.get_v(0xF), 0, "flag must be cleared by 8XY{low}");
    }
}

#[test]
fn subtract_sets_no_borrow_flag() {
    // V1 = V1 - V2 with V1 >= V2
    let mut cpu = boot(&[0x61, 0x07, 0x62, 0x05, 0x81, 0x25]);
    for _ in 0..3 {
        assert!(cpu.tick().is_ok());
    }
    assert_eq!(cpu.get_v(1), 0x02);
    assert_eq!(cpu.get_v(0xF), 1);

    // borrow case wraps
    let mut cpu = boot(&[0x61, 0x05, 0x62, 0x07, 0x81, 0x25]);
    for _ in 0..3 {
        assert!(cpu.tick().is_ok());
    }
    assert_eq!(cpu.get_v(1), 0xFE);
    assert_eq!(cpu.get_v(0xF), 0);
}

#[test]
fn subtract_reversed_variant() {
    // V1 = V2 - V1
    let mut cpu = boot(&[0x61, 0x03, 0x62, 0x05, 0x81, 0x27]);
    for _ in 0..3 {
        assert!(cpu.tick().is_ok());
    }
    assert_eq!(cpu.get_v(1), 0x02);
    assert_eq!(cpu.get_v(0xF), 1);

    let mut cpu = boot(&[0x61, 0x05, 0x62, 0x03, 0x81, 0x27]);
    for _ in 0..3 {
        assert!(cpu.tick().is_ok());
    }
    assert_eq!(cpu.get_v(1), 0xFE);
    assert_eq!(cpu.get_v(0xF), 0);
}

#[test]
fn shift_right_loads_then_shifts() {
    // the value shifted is VY's, not VX's prior value
    let mut cpu = boot(&[0x61, 0x55, 0x62, 0x07, 0x81, 0x26]);
    for _ in 0..3 {
        assert!(cpu.tick().is_ok());
    }
    assert_eq!(cpu.get_v(1), 0x03);
    assert_eq!(cpu.get_v(2), 0x07);
    assert_eq!(cpu.get_v(0xF), 1);

    let mut cpu = boot(&[0x61, 0x55, 0x62, 0x06, 0x81, 0x26]);
    for _ in 0..3 {
        assert!(cpu.tick().is_ok());
    }
    assert_eq!(cpu.get_v(1), 0x03);
    assert_eq!(cpu.get_v(0xF), 0);
}

#[test]
fn shift_left_loads_then_shifts() {
    let mut cpu = boot(&[0x61, 0x55, 0x62, 0x90, 0x81, 0x2E]);
    for _ in 0..3 {
        assert!(cpu.tick().is_ok());
    }
    assert_eq!(cpu.get_v(1), 0x20);
    assert_eq!(cpu.get_v(2), 0x90);
    assert_eq!(cpu.get_v(0xF), 1);

    let mut cpu = boot(&[0x61, 0x55, 0x62, 0x30, 0x81, 0x2E]);
    for _ in 0..3 {
        assert!(cpu.tick().is_ok());
    }
    assert_eq!(cpu.get_v(1), 0x60);
    assert_eq!(cpu.get_v(0xF), 0);
}

#[test]
fn jump_with_offset_is_x_indexed() {
    // B123 with X = 1: the target offsets by V1, not V0
    let mut cpu = boot(&[0x60, 0x50, 0x61, 0x05, 0xB1, 0x23]);
    for _ in 0..3 {
        assert!(cpu.tick().is_ok());
    }
    assert_eq!(cpu.pc, 0x128);
}

#[test]
fn skip_families() {
    // 3XNN skips on equal
    let mut cpu = boot(&[0x60, 0x07, 0x30, 0x07]);
    assert!(cpu.tick().is_ok());
    assert!(cpu.tick().is_ok());
    assert_eq!(cpu.pc, 0x206);

    // 3XNN does not skip on unequal
    let mut cpu = boot(&[0x60, 0x07, 0x30, 0x08]);
    assert!(cpu.tick().is_ok());
    assert!(cpu.tick().is_ok());
    assert_eq!(cpu.pc, 0x204);

    // 4XNN skips on unequal
    let mut cpu = boot(&[0x60, 0x07, 0x40, 0x08]);
    assert!(cpu.tick().is_ok());
    assert!(cpu.tick().is_ok());
    assert_eq!(cpu.pc, 0x206);

    // 5XY0 skips on equal registers, 9XY0 on unequal
    let mut cpu = boot(&[0x60, 0x07, 0x61, 0x07, 0x50, 0x10]);
    for _ in 0..3 {
        assert!(cpu.tick().is_ok());
    }
    assert_eq!(cpu.pc, 0x208);

    let mut cpu = boot(&[0x60, 0x07, 0x61, 0x08, 0x90, 0x10]);
    for _ in 0..3 {
        assert!(cpu.tick().is_ok());
    }
    assert_eq!(cpu.pc, 0x208);
}

#[test]
fn call_and_return() {
    let mut rom = [0u8; 10];
    rom[0] = 0x22;
    rom[1] = 0x08;  // call 0x208
    rom[8] = 0x00;
    rom[9] = 0xEE;  // return
    let mut cpu = boot(&rom);
    assert!(cpu.tick().is_ok());
    assert_eq!(cpu.pc, 0x208);
    assert_eq!(cpu.stack_depth(), 1);
    assert!(cpu.tick().is_ok());
    assert_eq!(cpu.pc, 0x202);
    assert_eq!(cpu.stack_depth(), 0);
}

#[test]
fn return_with_empty_stack_is_fatal() {
    let mut cpu = boot(&[0x00, 0xEE]);
    assert_eq!(cpu.tick(), Err(Fault::StackUnderflow));
    // the machine stands exactly where it was
    assert_eq!(cpu.pc, 0x200);
    assert_eq!(cpu.stack_depth(), 0);
    // a whole batch reports the same fault
    assert_eq!(cpu.ticks(10), Err(Fault::StackUnderflow));
    assert_eq!(cpu.pc, 0x200);
}

#[test]
fn unknown_opcodes_are_no_ops() {
    // 0NNN (machine routine), 8XY8, EX00 and FX00 patterns all fall through
    let mut cpu = boot(&[0x01, 0x23, 0x81, 0x28, 0xE0, 0x00, 0xF0, 0x00]);
    for _ in 0..4 {
        assert!(cpu.tick().is_ok());
    }
    assert_eq!(cpu.pc, 0x208);
    for x in 0..16 {
        assert_eq!(cpu.get_v(x), 0);
    }
}

#[test]
fn random_byte_is_masked() {
    let mut cpu = boot(&[0xC0, 0x0F]);
    assert!(cpu.tick().is_ok());
    assert!(cpu.get_v(0) <= 0x0F);
    assert_eq!(cpu.pc, 0x202);
}

#[test]
fn font_address_scales_by_five() {
    // V0 = 0xA names the glyph for the digit A: 0x50 + 10 * 5 = 0x82
    let mut cpu = boot(&[0x60, 0x0A, 0xF0, 0x29]);
    assert!(cpu.tick().is_ok());
    assert!(cpu.tick().is_ok());
    assert_eq!(cpu.get_i(), 0x82);
    // the glyph's first byte is readable right there
    assert_eq!(cpu.bus.read_byte(0x82), 0xF0);
}

#[test]
fn font_address_masks_high_nibble() {
    // only the low nibble of VX names a glyph
    let mut cpu = boot(&[0x60, 0xFA, 0xF0, 0x29]);
    assert!(cpu.tick().is_ok());
    assert!(cpu.tick().is_ok());
    assert_eq!(cpu.get_i(), 0x82);
}

#[test]
fn binary_coded_decimal() {
    let mut cpu = boot(&[0x60, 0xFE, 0xA3, 0x00, 0xF0, 0x33]);
    for _ in 0..3 {
        assert!(cpu.tick().is_ok());
    }
    assert_eq!(cpu.bus.read_byte(0x300), 2);
    assert_eq!(cpu.bus.read_byte(0x301), 5);
    assert_eq!(cpu.bus.read_byte(0x302), 4);
    assert_eq!(cpu.get_i(), 0x300);
}

#[test]
fn store_and_load_registers() {
    // store V0..V1 at 0x400; I moves along
    let mut cpu = boot(&[0x60, 0x11, 0x61, 0x22, 0xA4, 0x00, 0xF1, 0x55]);
    for _ in 0..4 {
        assert!(cpu.tick().is_ok());
    }
    assert_eq!(cpu.bus.read_byte(0x400), 0x11);
    assert_eq!(cpu.bus.read_byte(0x401), 0x22);
    assert_eq!(cpu.get_i(), 0x402);

    // load them back into cleared registers
    let mut cpu = boot(&[0xA4, 0x00, 0xF1, 0x65]);
    cpu.bus.save_byte(0x400, 0x33);
    cpu.bus.save_byte(0x401, 0x44);
    assert!(cpu.tick().is_ok());
    assert!(cpu.tick().is_ok());
    assert_eq!(cpu.get_v(0), 0x33);
    assert_eq!(cpu.get_v(1), 0x44);
    assert_eq!(cpu.get_i(), 0x402);
}

#[test]
fn index_register_add() {
    let mut cpu = boot(&[0xA1, 0x00, 0x60, 0x05, 0xF0, 0x1E]);
    for _ in 0..3 {
        assert!(cpu.tick().is_ok());
    }
    assert_eq!(cpu.get_i(), 0x105);
}

#[test]
fn delay_timer_read_and_write() {
    let mut cpu = boot(&[0x60, 0x05, 0xF0, 0x15, 0xF1, 0x07]);
    for _ in 0..3 {
        assert!(cpu.tick().is_ok());
    }
    assert_eq!(cpu.get_delay_timer(), 5);
    assert_eq!(cpu.get_v(1), 5);
}

#[test]
fn batch_decrements_timers_once() {
    // delay and sound start at 5; a 50-instruction batch moves each by 1
    let mut cpu = boot(&[0x60, 0x05, 0xF0, 0x15, 0xF0, 0x18, 0x12, 0x06]);
    assert!(cpu.ticks(50).is_ok());
    assert_eq!(cpu.get_delay_timer(), 4);
    assert_eq!(cpu.sound_timer, 4);
    assert!(cpu.ticks(50).is_ok());
    assert_eq!(cpu.get_delay_timer(), 3);
    assert_eq!(cpu.sound_timer, 3);
}

#[test]
fn timers_stop_at_zero() {
    let mut cpu = CPU::new();
    cpu.decr_timers();
    assert_eq!(cpu.get_delay_timer(), 0);
    assert_eq!(cpu.sound_timer, 0);
}

#[test]
fn skip_on_key_state() {
    // EX9E skips when the key named by VX is down
    let mut cpu = boot(&[0x60, 0x04, 0xE0, 0x9E]);
    cpu.keys_down[4] = true;
    assert!(cpu.tick().is_ok());
    assert!(cpu.tick().is_ok());
    assert_eq!(cpu.pc, 0x206);

    // EXA1 skips when it is not
    let mut cpu = boot(&[0x60, 0x04, 0xE0, 0xA1]);
    cpu.keys_down[4] = true;
    assert!(cpu.tick().is_ok());
    assert!(cpu.tick().is_ok());
    assert_eq!(cpu.pc, 0x204);
}

#[test]
fn key_wait_blocks_then_reports_released_key() {
    let mut cpu = boot(&[0xF3, 0x0A]);

    // no key down: the counter stays rewound over repeated cycles
    for _ in 0..3 {
        assert!(cpu.tick().is_ok());
        assert_eq!(cpu.pc, 0x200);
    }

    // key 5 goes down: latched, still waiting
    cpu.keys_down[5] = true;
    assert!(cpu.tick().is_ok());
    assert_eq!(cpu.pc, 0x200);

    // held: the short tone is asserted, still waiting
    assert!(cpu.tick().is_ok());
    assert_eq!(cpu.pc, 0x200);
    assert_eq!(cpu.sound_timer, 4);

    // released: the counter advances exactly once and V3 holds the key
    cpu.keys_down[5] = false;
    assert!(cpu.tick().is_ok());
    assert_eq!(cpu.pc, 0x202);
    assert_eq!(cpu.get_v(3), 5);

    // and it advances no further on later cycles of other code
    let pc_after = cpu.pc;
    assert!(cpu.tick().is_ok());
    assert_eq!(cpu.pc, pc_after + 2);
}

#[test]
fn key_wait_latches_lowest_key() {
    let mut cpu = boot(&[0xF0, 0x0A]);
    cpu.keys_down[9] = true;
    cpu.keys_down[2] = true;
    assert!(cpu.tick().is_ok());
    cpu.keys_down[9] = false;
    cpu.keys_down[2] = false;
    assert!(cpu.tick().is_ok());
    assert_eq!(cpu.get_v(0), 2);
}

#[test]
fn draw_twice_collides_and_erases() {
    // I names a 0xFF sprite byte; two draws at (0, 0)
    let mut cpu = boot(&[0xA2, 0x06, 0xD0, 0x01, 0xD0, 0x01, 0xFF]);
    assert!(cpu.tick().is_ok());
    assert!(cpu.tick().is_ok());
    assert_eq!(cpu.bus.gpu.buffer[0], 0xFFu64 << 56);
    assert_eq!(cpu.get_v(0xF), 0);
    assert!(cpu.tick().is_ok());
    assert_eq!(cpu.bus.gpu.buffer[0], 0);
    assert_eq!(cpu.get_v(0xF), 1);
}

#[test]
fn draw_wraps_entry_coordinates() {
    // V0 = 64 reduces to column 0, V1 = 33 to row 1
    let mut cpu = boot(&[0x60, 0x40, 0x61, 0x21, 0xA2, 0x08, 0xD0, 0x11, 0xFF]);
    for _ in 0..4 {
        assert!(cpu.tick().is_ok());
    }
    assert_eq!(cpu.bus.gpu.buffer[1], 0xFFu64 << 56);
}

#[test]
fn clear_screen_opcode() {
    let mut cpu = boot(&[0xA2, 0x04, 0xD0, 0x01, 0xFF]);
    assert!(cpu.tick().is_ok());
    assert!(cpu.tick().is_ok());
    assert_ne!(cpu.bus.gpu.buffer[0], 0);
    let mut cpu2 = boot(&[0xA2, 0x06, 0xD0, 0x01, 0x00, 0xE0, 0xFF]);
    for _ in 0..3 {
        assert!(cpu2.tick().is_ok());
    }
    for row in 0..32 {
        assert_eq!(cpu2.bus.gpu.buffer[row], 0);
    }
}

#[test]
fn loading_the_font_again_changes_nothing() {
    let mut cpu = CPU::new();
    cpu.bus.save_byte(0x300, 0x42);
    let before = cpu.bus.memory;
    cpu.bus.load_font();
    assert_eq!(cpu.bus.memory, before);
}

#[test]
fn memory_addresses_wrap() {
    let mut cpu = CPU::new();
    cpu.bus.save_byte(0x1005, 7);
    assert_eq!(cpu.bus.read_byte(0x0005), 7);
    assert_eq!(cpu.bus.read_byte(0x1005), 7);
}

#[test]
fn largest_program_image() {
    let image = vec![0xABu8; 0x1000 - 0x200];
    let mut cpu = CPU::new();
    cpu.bus.load_rom(&image);
    assert_eq!(cpu.bus.read_byte(0x200), 0xAB);
    assert_eq!(cpu.bus.read_byte(0xFFF), 0xAB);
    // the font survives a load
    assert_eq!(cpu.bus.read_byte(0x50), 0xF0);
}

#[test]
fn fetch_reads_big_endian() {
    let cpu = boot(&[0x12, 0x34]);
    assert_eq!(cpu.get_op(), 0x1234);
}

#[test]
fn debug_line_shows_the_machine() {
    let mut cpu = boot(&[0x12, 0x34]);
    cpu.keys_down[0] = true;
    let text = cpu.debug_text();
    assert!(text.starts_with("CPU { pc: 0200, op: 1234, i: 0000, data: "));
    assert!(text.contains(", inp: X---------------"));
}
