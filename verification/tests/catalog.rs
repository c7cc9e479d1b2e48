//! Exercises of the catalog types, the content hash and the disassembly.

use chip8_core::chip8::cpu::fmt_opcode;
use chip8_core::hashing::calculate_sha1;
use chip8_core::roms_db::{Colors, Keys, Origin, Program, Rom};
use chip8_core::text::{dec_u16, hex2, hex4, join_strings};

fn sample_rom() -> Rom {
    Rom::new(
        "pong.ch8".to_string(),
        vec!["originalChip8".to_string(), "modernChip8".to_string()],
        Some(20),
        Some(Colors::new(vec!["#FFCC01".to_string()], Some("#999".to_string()), None)),
        Some(Keys::new(Some(1), Some(4), None, None, Some(6), None, None, None)),
        Some("Two paddles".to_string()),
        Some("PONG".to_string()),
        None,
        Some("vip".to_string()),
        Some("1977".to_string()),
        Some(90),
    )
}

#[test]
fn rom_getters_report_their_fields() {
    let rom = sample_rom();
    assert_eq!(rom.get_file(), "pong.ch8");
    assert_eq!(rom.get_platforms(), "originalChip8, modernChip8");
    assert_eq!(rom.get_tickrate(), Some(20));
    assert_eq!(rom.get_colors(), Some("Colors exist".to_string()));
    assert_eq!(rom.get_keys(), Some("Keys exist".to_string()));
    assert_eq!(rom.get_description(), Some("Two paddles"));
    assert_eq!(rom.get_embedded_title(), Some("PONG"));
    assert_eq!(rom.get_touch_input_mode(), None);
    assert_eq!(rom.get_font_style(), Some("vip"));
    assert_eq!(rom.get_release(), Some("1977"));
    assert_eq!(rom.get_screen_rotation(), Some("90".to_string()));
}

#[test]
fn rom_empty_optionals() {
    let rom = Rom::new(
        "bare.ch8".to_string(),
        Vec::new(),
        None,
        None,
        None,
        None,
        None,
        None,
        None,
        None,
        None,
    );
    assert_eq!(rom.get_platforms(), "");
    assert_eq!(rom.get_tickrate(), None);
    assert_eq!(rom.get_colors(), None);
    assert_eq!(rom.get_keys(), None);
    assert_eq!(rom.get_screen_rotation(), None);
}

#[test]
fn program_getters_report_their_fields() {
    let program = Program::new(
        "Pong".to_string(),
        Some("A classic".to_string()),
        Some("1977".to_string()),
        Some(vec!["A. Author".to_string(), "B. Author".to_string()]),
        Some(vec!["pong.png".to_string()]),
        vec![("abc123".to_string(), sample_rom())],
        Some(Origin::new("gamejam".to_string(), "octojam".to_string())),
        Some(vec!["https://example.org/pong".to_string()]),
        Some("CC0".to_string()),
    );
    assert_eq!(program.get_title(), "Pong");
    assert_eq!(program.get_description(), "A classic");
    assert_eq!(program.get_release(), "1977");
    assert_eq!(program.get_authors(), "A. Author, B. Author");
    assert_eq!(program.get_images(), Some("pong.png".to_string()));
    assert_eq!(program.get_origin(), Some("gamejam: octojam".to_string()));
    assert_eq!(program.get_urls(), Some(vec!["https://example.org/pong".to_string()]));
    assert_eq!(program.get_copyright(), Some("CC0"));
    assert_eq!(program.get_roms().len(), 1);
    assert_eq!(program.get_roms()[0].0, "abc123");
    assert_eq!(program.get_roms()[0].1.get_file(), "pong.ch8");
}

#[test]
fn program_empty_optionals() {
    let program = Program::new(
        "Bare".to_string(),
        None,
        None,
        None,
        None,
        Vec::new(),
        None,
        None,
        None,
    );
    assert_eq!(program.get_description(), "");
    assert_eq!(program.get_release(), "");
    assert_eq!(program.get_authors(), "");
    assert_eq!(program.get_images(), None);
    assert_eq!(program.get_origin(), None);
    assert_eq!(program.get_urls(), None);
    assert_eq!(program.get_copyright(), None);
}

#[test]
fn sha1_digest_of_known_bytes() {
    assert_eq!(calculate_sha1(b"abc"), "a9993e364706816aba3e25717850c26c9cd0d89d");
    assert_eq!(calculate_sha1(b""), "da39a3ee5e6b4b0d3255bfef95601890afd80709");
}

#[test]
fn decimal_rendering() {
    assert_eq!(dec_u16(0), "0");
    assert_eq!(dec_u16(7), "7");
    assert_eq!(dec_u16(512), "512");
    assert_eq!(dec_u16(65535), "65535");
}

#[test]
fn hexadecimal_rendering() {
    assert_eq!(hex4(0x0200), "0200");
    assert_eq!(hex4(0xBEEF), "BEEF");
    assert_eq!(hex4(0x0000), "0000");
    assert_eq!(hex2(0x0A), "0A");
    assert_eq!(hex2(0xFF), "FF");
}

#[test]
fn joining_strings() {
    let parts = vec!["a".to_string(), "b".to_string(), "c".to_string()];
    assert_eq!(join_strings(&parts, ", "), "a, b, c");
    let one = vec!["solo".to_string()];
    assert_eq!(join_strings(&one, ", "), "solo");
    let none: Vec<String> = Vec::new();
    assert_eq!(join_strings(&none, ", "), "");
}

#[test]
fn opcode_descriptions() {
    assert_eq!(fmt_opcode(0x00E0), "00E0 Clear");
    assert_eq!(fmt_opcode(0x00EE), "00EE Return");
    assert_eq!(fmt_opcode(0x0123), "0___ Not implemented");
    assert_eq!(fmt_opcode(0x1200), "1NNN Jump to 512");
    assert_eq!(fmt_opcode(0x2345), "2NNN Call sub at 837");
    assert_eq!(fmt_opcode(0x6A2B), "6XNN Set V10 to 43");
    assert_eq!(fmt_opcode(0x7102), "7XNN Add 2 to V1");
    assert_eq!(fmt_opcode(0x8126), "8XY6 Set V1 to V2>>1 with carry (VIP impl)");
    assert_eq!(fmt_opcode(0x812E), "8XYE Set V1 to V2<<1 with carry (VIP impl)");
    assert_eq!(fmt_opcode(0x8129), "8XY_ Invalid");
    assert_eq!(fmt_opcode(0xD015), "DXYN Display 5 rows at V0,V1 with carry");
    assert_eq!(fmt_opcode(0xE09E), "EX9E Skip if inp[V0]");
    assert_eq!(fmt_opcode(0xF329), "FX29 Set I to addr of font char in V3");
    assert_eq!(fmt_opcode(0xF355), "FX55 Store V0..V3 in M[I], incr I (VIP impl)");
    assert!(!fmt_opcode(0xFFFF).is_empty());
}
