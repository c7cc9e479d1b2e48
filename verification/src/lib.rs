//! A virtual machine for a small fixed instruction set: a 4 KB byte-addressable
//! memory bus with a built-in font table, a 64x32 monochrome XOR-sprite display
//! with collision detection, two countdown timers, a 16-key input latch, and a
//! fetch-decode-execute interpreter with exact per-opcode semantics.
//!
//! A catalog of program metadata (titles, authors, tickrates, colors) and a
//! content-hash helper for looking programs up by their bytes sit beside the
//! machine itself.

pub mod chip8;
pub mod roms_db;
pub mod hashing;
pub mod text;
