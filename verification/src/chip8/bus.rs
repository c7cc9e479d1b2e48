use vstd::prelude::*;
use crate::chip8::gpu::{blank_rows, spec_draw_row, Gpu};

verus! {

/// The bus holds 4 KB of memory; every address is reduced modulo this size,
/// so reads and writes are total and out-of-range addresses wrap around.
pub const MEMORY_SIZE: usize = 0x1000;

/// The 80-byte font table: 16 glyphs (the digits 0 through F), 5 bytes each.
pub open spec fn font_table() -> Seq<u8> {
    seq![
        0xF0u8, 0x90, 0x90, 0x90, 0xF0, // 0
        0x20, 0x60, 0x20, 0x20, 0x70, // 1
        0xF0, 0x10, 0xF0, 0x80, 0xF0, // 2
        0xF0, 0x10, 0xF0, 0x10, 0xF0, // 3
        0x90, 0x90, 0xF0, 0x10, 0x10, // 4
        0xF0, 0x80, 0xF0, 0x10, 0xF0, // 5
        0xF0, 0x80, 0xF0, 0x90, 0xF0, // 6
        0xF0, 0x10, 0x20, 0x40, 0x40, // 7
        0xF0, 0x90, 0xF0, 0x90, 0xF0, // 8
        0xF0, 0x90, 0xF0, 0x10, 0xF0, // 9
        0xF0, 0x90, 0xF0, 0x90, 0x90, // A
        0xE0, 0x90, 0xE0, 0x90, 0xE0, // B
        0xF0, 0x80, 0x80, 0x80, 0xF0, // C
        0xE0, 0x90, 0x90, 0x90, 0xE0, // D
        0xF0, 0x80, 0xF0, 0x80, 0xF0, // E
        0xF0, 0x80, 0xF0, 0x80, 0x80, // F
    ]
}

/// Memory with the font table written at 0x50..0xA0 and `m` elsewhere.
pub open spec fn spec_with_font(m: Seq<u8>) -> Seq<u8>
    recommends
        m.len() == MEMORY_SIZE,
{
    Seq::new(m.len(), |j: int| if 0x50 <= j < 0xA0 { font_table()[j - 0x50] } else { m[j] })
}

/// A freshly constructed memory: zeroed everywhere but the font table.
pub open spec fn spec_fresh_mem() -> Seq<u8> {
    spec_with_font(Seq::new(MEMORY_SIZE as nat, |j: int| 0u8))
}

/// Memory with `source` copied in starting at 0x200 and `m` elsewhere.
pub open spec fn spec_with_rom(m: Seq<u8>, source: Seq<u8>) -> Seq<u8>
    recommends
        m.len() == MEMORY_SIZE,
        source.len() <= MEMORY_SIZE - 0x200,
{
    Seq::new(
        m.len(),
        |j: int| if 0x200 <= j < 0x200 + source.len() { source[j - 0x200] } else { m[j] },
    )
}

/// A byte read through the bus: the address wraps modulo the memory size.
pub open spec fn spec_read(m: Seq<u8>, address: u16) -> u8
    recommends
        m.len() == MEMORY_SIZE,
{
    m[(address as int) % (MEMORY_SIZE as int)]
}

/// A byte written through the bus: the address wraps modulo the memory size.
pub open spec fn spec_write(m: Seq<u8>, address: u16, data: u8) -> Seq<u8>
    recommends
        m.len() == MEMORY_SIZE,
{
    m.update((address as int) % (MEMORY_SIZE as int), data)
}

/// Law: writing the font table is idempotent — a second write changes
/// nothing, since the table is fixed and lands on the same bytes.
pub proof fn lemma_font_idempotent(m: Seq<u8>)
    requires
        m.len() == MEMORY_SIZE,
    ensures
        spec_with_font(spec_with_font(m)) == spec_with_font(m),
{
    assert(spec_with_font(spec_with_font(m)) =~= spec_with_font(m));
}

pub struct Bus {
    pub memory: [u8; MEMORY_SIZE],
    pub gpu: Gpu,
}

impl Bus {
    pub fn new() -> (bus: Bus)
        ensures
            bus.memory@ == spec_fresh_mem(),
            bus.gpu.buffer@ == blank_rows(),
            bus.gpu.has_changed,
    {
        let mut new_bus = Bus { memory: [0; MEMORY_SIZE], gpu: Gpu::new() };
        proof {
            assert(new_bus.memory@ =~= Seq::new(MEMORY_SIZE as nat, |j: int| 0u8));
        }
        new_bus.load_font();
        proof {
            assert(new_bus.memory@ =~= spec_fresh_mem());
        }
        new_bus
    }

    pub fn read_byte(&self, address: u16) -> (data: u8)
        ensures
            data == spec_read(self.memory@, address),
    {
        self.memory[(address as usize) % MEMORY_SIZE]
    }

    pub fn save_byte(&mut self, address: u16, data: u8)
        ensures
            final(self).memory@ == spec_write(old(self).memory@, address, data),
            final(self).gpu == old(self).gpu,
    {
        self.memory[(address as usize) % MEMORY_SIZE] = data;
    }

    /// Write the 80-byte glyph table at 0x50..0xA0; every other byte stays.
    /// Writing it again changes nothing, since the table is fixed.
    pub fn load_font(&mut self)
        ensures
            final(self).memory@ == spec_with_font(old(self).memory@),
            final(self).gpu == old(self).gpu,
    {
        let font_bytes: [u8; 80] = [
            0xF0, 0x90, 0x90, 0x90, 0xF0, // 0
            0x20, 0x60, 0x20, 0x20, 0x70, // 1
            0xF0, 0x10, 0xF0, 0x80, 0xF0, // 2
            0xF0, 0x10, 0xF0, 0x10, 0xF0, // 3
            0x90, 0x90, 0xF0, 0x10, 0x10, // 4
            0xF0, 0x80, 0xF0, 0x10, 0xF0, // 5
            0xF0, 0x80, 0xF0, 0x90, 0xF0, // 6
            0xF0, 0x10, 0x20, 0x40, 0x40, // 7
            0xF0, 0x90, 0xF0, 0x90, 0xF0, // 8
            0xF0, 0x90, 0xF0, 0x10, 0xF0, // 9
            0xF0, 0x90, 0xF0, 0x90, 0x90, // A
            0xE0, 0x90, 0xE0, 0x90, 0xE0, // B
            0xF0, 0x80, 0x80, 0x80, 0xF0, // C
            0xE0, 0x90, 0x90, 0x90, 0xE0, // D
            0xF0, 0x80, 0xF0, 0x80, 0xF0, // E
            0xF0, 0x80, 0xF0, 0x80, 0x80, // F
        ];
        proof {
            assert(font_bytes@ =~= font_table());
        }
        let mut k: usize = 0;
        while k < 80
            invariant
                k <= 80,
                font_bytes@ == font_table(),
                self.memory@.len() == MEMORY_SIZE,
                self.gpu == old(self).gpu,
                forall|j: int|
                    0x50 <= j < 0x50 + k ==> self.memory@[j] == font_table()[j - 0x50],
                forall|j: int|
                    0 <= j < MEMORY_SIZE && !(0x50 <= j < 0x50 + k) ==> self.memory@[j] == old(
                        self,
                    ).memory@[j],
            decreases 80 - k,
        {
            self.memory[0x50 + k] = font_bytes[k];
            k = k + 1;
        }
        proof {
            assert(self.memory@ =~= spec_with_font(old(self).memory@));
        }
    }

    /// Copy a program image into memory starting at 0x200. The caller owns
    /// the precondition that the image fits below the end of memory.
    pub fn load_rom(&mut self, source: &[u8])
        requires
            source@.len() <= MEMORY_SIZE - 0x200,
        ensures
            final(self).memory@ == spec_with_rom(old(self).memory@, source@),
            final(self).gpu == old(self).gpu,
    {
        let len = source.len();
        let mut k: usize = 0;
        while k < len
            invariant
                k <= len,
                len == source@.len() <= MEMORY_SIZE - 0x200,
                self.memory@.len() == MEMORY_SIZE,
                self.gpu == old(self).gpu,
                forall|j: int| 0x200 <= j < 0x200 + k ==> self.memory@[j] == source@[j - 0x200],
                forall|j: int|
                    0 <= j < MEMORY_SIZE && !(0x200 <= j < 0x200 + k) ==> self.memory@[j] == old(
                        self,
                    ).memory@[j],
            decreases len - k,
        {
            self.memory[0x200 + k] = source[k];
            k = k + 1;
        }
        proof {
            assert(self.memory@ =~= spec_with_rom(old(self).memory@, source@));
        }
    }

    /// Read the sprite byte at `address` and draw it at `(x_coord, y_coord)`;
    /// the result reports a collision, and memory itself is untouched.
    pub fn display(&mut self, x_coord: u8, y_coord: u8, address: u16) -> (collided: bool)
        requires
            x_coord < 64,
        ensures
            final(self).memory@ == old(self).memory@,
            final(self).gpu.buffer@ == spec_draw_row(
                old(self).gpu.buffer@,
                x_coord,
                y_coord,
                spec_read(old(self).memory@, address),
            ).0,
            collided == spec_draw_row(
                old(self).gpu.buffer@,
                x_coord,
                y_coord,
                spec_read(old(self).memory@, address),
            ).1,
            final(self).gpu.has_changed == (old(self).gpu.has_changed || y_coord <= 31),
    {
        let sprite_data = self.read_byte(address);
        self.gpu.draw_sprite_line(x_coord, y_coord, sprite_data)
    }
}

} // verus!
