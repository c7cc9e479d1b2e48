//! The machine itself: the memory bus, the display, and the interpreter.

/// The memory bus: 4 KB of byte-addressable storage with a resident font
/// table, addressed modulo its size so that every access is total.
pub mod bus;

/// The interpreter: registers, call stack, timers, the input latch and the
/// fetch-decode-execute loop.
pub mod cpu;

/// The display: a 32-row by 64-column monochrome bitmap with XOR-sprite
/// compositing and collision detection.
pub mod gpu;

/// Proved laws of the instruction set: the exact effect of the delicate
/// opcodes, for every machine state.
pub mod laws;

pub use bus::Bus;
pub use cpu::CPU;
pub use gpu::Gpu;
