use vstd::prelude::*;
use crate::chip8::bus::{
    spec_fresh_mem, spec_read, spec_write, Bus, MEMORY_SIZE,
};
use crate::chip8::gpu::{blank_rows, spec_draw_row};
use crate::text::{dec_u16, hex2, hex4, str_owned};

verus! {

// ---------------------------------------------------------------------------
// The mathematical model of the whole machine
// ---------------------------------------------------------------------------

/// The state of the machine as the contracts speak of it: memory, display
/// rows, the input latch, the sixteen general registers, the call stack, the
/// index register, the program counter, the two timers, and the key the
/// blocking key-wait instruction is holding on to, if any.
#[verifier::ext_equal]
pub struct MachineView {
    pub mem: Seq<u8>,
    pub rows: Seq<u64>,
    pub keys: Seq<bool>,
    pub v: Seq<u8>,
    pub stack: Seq<u16>,
    pub pc: u16,
    pub i: u16,
    pub delay: u8,
    pub sound: u8,
    pub waiting: Option<u8>,
}

/// Well-formedness of a machine state: the fixed sizes of its parts, and a
/// latched key always naming one of the sixteen keys.
pub open spec fn view_wf(m: MachineView) -> bool {
    &&& m.mem.len() == MEMORY_SIZE
    &&& m.rows.len() == 32
    &&& m.keys.len() == 16
    &&& m.v.len() == 16
    &&& match m.waiting {
        Some(key) => key < 16,
        None => true,
    }
}

/// The state of a freshly constructed machine: zeroed font-loaded memory, a
/// blank display, no keys down, zeroed registers, an empty stack, the
/// program counter at 0x200, and zeroed timers.
pub open spec fn spec_boot() -> MachineView {
    MachineView {
        mem: spec_fresh_mem(),
        rows: blank_rows(),
        keys: Seq::new(16, |k: int| false),
        v: Seq::new(16, |k: int| 0u8),
        stack: Seq::empty(),
        pc: 0x200,
        i: 0,
        delay: 0,
        sound: 0,
        waiting: None,
    }
}

// ---------------------------------------------------------------------------
// 16-bit wrapping helpers and opcode field extraction
// ---------------------------------------------------------------------------

/// 16-bit addition that wraps around, as the program counter and the index
/// register do.
pub open spec fn wrap_add(a: u16, b: u16) -> u16 {
    if a + b > 0xFFFF {
        (a + b - 0x10000) as u16
    } else {
        (a + b) as u16
    }
}

/// 16-bit subtraction that wraps around.
pub open spec fn wrap_sub(a: u16, b: u16) -> u16 {
    if a - b < 0 {
        (a - b + 0x10000) as u16
    } else {
        (a - b) as u16
    }
}

/// The opcode's top nibble, which selects the instruction family.
pub open spec fn op_top(op: u16) -> u16 {
    op / 0x1000
}

/// The X register index: bits 8..12 of the opcode, always below 16.
pub open spec fn op_x(op: u16) -> int {
    ((op / 0x100) % 0x10) as int
}

/// The Y register index: bits 4..8 of the opcode, always below 16.
pub open spec fn op_y(op: u16) -> int {
    ((op / 0x10) % 0x10) as int
}

/// The low nibble of the opcode.
pub open spec fn op_n(op: u16) -> u8 {
    (op % 0x10) as u8
}

/// The low byte of the opcode.
pub open spec fn op_nn(op: u16) -> u8 {
    (op % 0x100) as u8
}

/// The low 12 bits of the opcode: an address.
pub open spec fn op_nnn(op: u16) -> u16 {
    op % 0x1000
}

/// The 16-bit opcode at the program counter: two consecutive bytes read
/// through the bus, big-endian.
pub open spec fn spec_fetch(m: MachineView) -> u16 {
    ((spec_read(m.mem, m.pc) as int) * 0x100 + (spec_read(m.mem, wrap_add(m.pc, 1)) as int)) as u16
}

// ---------------------------------------------------------------------------
// The semantics of the individual instructions
// ---------------------------------------------------------------------------

/// Drawing `k` sprite rows read from memory at `i`, `i + 1`, ... at column
/// `xc`, descending from row `yc`; the flag collects whether any row
/// collided.
pub open spec fn spec_draw_rows(
    rows: Seq<u64>,
    mem: Seq<u8>,
    i: u16,
    xc: u8,
    yc: u8,
    k: int,
) -> (Seq<u64>, bool)
    recommends
        rows.len() == 32,
        mem.len() == MEMORY_SIZE,
        xc < 64,
        yc < 32,
        0 <= k <= 16,
    decreases k,
{
    if k <= 0 {
        (rows, false)
    } else {
        let prev = spec_draw_rows(rows, mem, i, xc, yc, k - 1);
        let line = spec_draw_row(
            prev.0,
            xc,
            (yc + k - 1) as u8,
            spec_read(mem, wrap_add(i, (k - 1) as u16)),
        );
        (line.0, prev.1 || line.1)
    }
}

/// The draw instruction: the coordinates come from VX and VY reduced into
/// the screen (wrapping on entry), the sprite from memory at the index
/// register, and VF reports whether any of the rows collided.
pub open spec fn spec_dxyn(m: MachineView, x: int, y: int, n: u8) -> MachineView
    recommends
        view_wf(m),
        0 <= x < 16,
        0 <= y < 16,
        n < 16,
{
    let xc = (m.v[x] % 64) as u8;
    let yc = (m.v[y] % 32) as u8;
    let drawn = spec_draw_rows(m.rows, m.mem, m.i, xc, yc, n as int);
    MachineView {
        rows: drawn.0,
        v: m.v.update(15, if drawn.1 { 1u8 } else { 0u8 }),
        ..m
    }
}

/// The lowest-numbered key currently down at or above index `k`, if any.
pub open spec fn first_down_from(keys: Seq<bool>, k: int) -> Option<u8>
    recommends
        keys.len() == 16,
        0 <= k <= 16,
    decreases 16 - k,
{
    if k < 0 || k >= 16 {
        None
    } else if keys[k] {
        Some(k as u8)
    } else {
        first_down_from(keys, k + 1)
    }
}

/// The lowest-numbered key currently down, if any.
pub open spec fn first_down(keys: Seq<bool>) -> Option<u8> {
    first_down_from(keys, 0)
}

/// The blocking key-wait instruction, one poll of its state machine. `m` is
/// the state with the program counter already moved past the instruction.
/// With no key latched yet, the counter is rewound so the instruction runs
/// again next cycle, and any key already down is latched. With a key
/// latched and still down, the counter is rewound and a short tone is
/// asserted. On the cycle where the latched key is seen released, the
/// counter is left past the instruction, VX receives the key index, and the
/// latch is cleared.
pub open spec fn spec_key_wait(m: MachineView, x: int) -> MachineView
    recommends
        view_wf(m),
        0 <= x < 16,
{
    let rewound = wrap_sub(m.pc, 2);
    match m.waiting {
        None => MachineView { pc: rewound, waiting: first_down(m.keys), ..m },
        Some(key) => if m.keys[key as int] {
            MachineView { pc: rewound, sound: 4, ..m }
        } else {
            MachineView { v: m.v.update(x, key), waiting: None, ..m }
        },
    }
}

/// Storing V0 through V(k-1) into memory at the index register, which moves
/// along with the stores.
pub open spec fn spec_store_regs(mem: Seq<u8>, i: u16, v: Seq<u8>, k: int) -> (Seq<u8>, u16)
    recommends
        mem.len() == MEMORY_SIZE,
        v.len() == 16,
        0 <= k <= 16,
    decreases k,
{
    if k <= 0 {
        (mem, i)
    } else {
        let prev = spec_store_regs(mem, i, v, k - 1);
        (spec_write(prev.0, prev.1, v[k - 1]), wrap_add(prev.1, 1))
    }
}

/// Loading V0 through V(k-1) from memory at the index register, which moves
/// along with the loads.
pub open spec fn spec_load_regs(v: Seq<u8>, mem: Seq<u8>, i: u16, k: int) -> (Seq<u8>, u16)
    recommends
        mem.len() == MEMORY_SIZE,
        v.len() == 16,
        0 <= k <= 16,
    decreases k,
{
    if k <= 0 {
        (v, i)
    } else {
        let prev = spec_load_regs(v, mem, i, k - 1);
        (prev.0.update(k - 1, spec_read(mem, prev.1)), wrap_add(prev.1, 1))
    }
}

/// Whether executing `op` in state `m` is the one fatal condition: a return
/// from a subroutine with an empty call stack.
pub open spec fn op_faults(m: MachineView, op: u16) -> bool {
    op_top(op) == 0 && op_nnn(op) == 0x0EE && m.stack.len() == 0
}

/// The effect of one decoded instruction on the machine. `m` is the state
/// with the program counter already moved past the instruction, so a jump
/// simply overwrites it and a skip moves it once more. `salt` is the byte
/// the random-number instruction was handed. Opcode patterns outside the
/// instruction table leave the machine as it is (the counter has already
/// moved on), and the fatal empty-stack return is excluded by
/// `op_faults`.
pub open spec fn spec_exec_op(m: MachineView, op: u16, salt: u8) -> MachineView
    recommends
        view_wf(m),
        !op_faults(m, op),
{
    let top = op_top(op);
    let x = op_x(op);
    let y = op_y(op);
    let n = op_n(op);
    let nn = op_nn(op);
    let nnn = op_nnn(op);
    let vx = m.v[x];
    let vy = m.v[y];
    if top == 0x0 {
        if nnn == 0x0E0 {
            // clear the display
            MachineView { rows: blank_rows(), ..m }
        } else if nnn == 0x0EE {
            // return from a subroutine
            MachineView { pc: m.stack.last(), stack: m.stack.drop_last(), ..m }
        } else {
            // machine language routine: not implemented, a no-op
            m
        }
    } else if top == 0x1 {
        // jump
        MachineView { pc: nnn, ..m }
    } else if top == 0x2 {
        // call a subroutine
        MachineView { stack: m.stack.push(m.pc), pc: nnn, ..m }
    } else if top == 0x3 {
        // skip if VX equals the immediate
        if vx == nn {
            MachineView { pc: wrap_add(m.pc, 2), ..m }
        } else {
            m
        }
    } else if top == 0x4 {
        // skip if VX differs from the immediate
        if vx != nn {
            MachineView { pc: wrap_add(m.pc, 2), ..m }
        } else {
            m
        }
    } else if top == 0x5 {
        // skip if VX equals VY
        if vx == vy {
            MachineView { pc: wrap_add(m.pc, 2), ..m }
        } else {
            m
        }
    } else if top == 0x6 {
        // set VX to the immediate
        MachineView { v: m.v.update(x, nn), ..m }
    } else if top == 0x7 {
        // add the immediate to VX, wrapping, no flag
        MachineView { v: m.v.update(x, ((vx + nn) % 0x100) as u8), ..m }
    } else if top == 0x8 {
        MachineView { v: spec_alu(m.v, x, y, n), ..m }
    } else if top == 0x9 {
        // skip if VX differs from VY
        if vx != vy {
            MachineView { pc: wrap_add(m.pc, 2), ..m }
        } else {
            m
        }
    } else if top == 0xA {
        // set the index register
        MachineView { i: nnn, ..m }
    } else if top == 0xB {
        // jump to the address plus VX (the X-indexed variant)
        MachineView { pc: (nnn + vx) as u16, ..m }
    } else if top == 0xC {
        // a random byte masked by the immediate
        MachineView { v: m.v.update(x, salt & nn), ..m }
    } else if top == 0xD {
        spec_dxyn(m, x, y, n)
    } else if top == 0xE {
        if nn == 0x9E {
            // skip if the key named by VX is down
            if m.keys[vx as int % 16] {
                MachineView { pc: wrap_add(m.pc, 2), ..m }
            } else {
                m
            }
        } else if nn == 0xA1 {
            // skip if the key named by VX is not down
            if !m.keys[vx as int % 16] {
                MachineView { pc: wrap_add(m.pc, 2), ..m }
            } else {
                m
            }
        } else {
            m
        }
    } else {
        if nn == 0x07 {
            // read the delay timer into VX
            MachineView { v: m.v.update(x, m.delay), ..m }
        } else if nn == 0x0A {
            spec_key_wait(m, x)
        } else if nn == 0x15 {
            // set the delay timer from VX
            MachineView { delay: vx, ..m }
        } else if nn == 0x18 {
            // set the sound timer from VX
            MachineView { sound: vx, ..m }
        } else if nn == 0x1E {
            // add VX to the index register, wrapping, no flag
            MachineView { i: wrap_add(m.i, vx as u16), ..m }
        } else if nn == 0x29 {
            // the address of the font glyph for the low nibble of VX:
            // glyphs are 5 bytes each, starting at 0x50
            MachineView { i: (0x50 + (vx % 16) * 5) as u16, ..m }
        } else if nn == 0x33 {
            // the decimal digits of VX: hundreds, tens, units
            let m1 = spec_write(m.mem, m.i, vx / 100);
            let m2 = spec_write(m1, wrap_add(m.i, 1), (vx / 10) % 10);
            let m3 = spec_write(m2, wrap_add(m.i, 2), vx % 10);
            MachineView { mem: m3, ..m }
        } else if nn == 0x55 {
            // store V0..VX inclusive, moving the index register along
            let stored = spec_store_regs(m.mem, m.i, m.v, x + 1);
            MachineView { mem: stored.0, i: stored.1, ..m }
        } else if nn == 0x65 {
            // load V0..VX inclusive, moving the index register along
            let loaded = spec_load_regs(m.v, m.mem, m.i, x + 1);
            MachineView { v: loaded.0, i: loaded.1, ..m }
        } else {
            m
        }
    }
}

/// The register-to-register arithmetic family, written as the same sequence
/// of register updates the machine performs, so that the cases where X, Y
/// and the flag register coincide come out exactly right.
pub open spec fn spec_alu(v: Seq<u8>, x: int, y: int, n: u8) -> Seq<u8>
    recommends
        v.len() == 16,
        0 <= x < 16,
        0 <= y < 16,
{
    let vx = v[x];
    let vy = v[y];
    if n == 0x0 {
        // VX copies VY
        v.update(x, vy)
    } else if n == 0x1 {
        // bitwise OR; the flag register is forced to zero
        v.update(x, vx | vy).update(15, 0u8)
    } else if n == 0x2 {
        // bitwise AND; the flag register is forced to zero
        v.update(x, vx & vy).update(15, 0u8)
    } else if n == 0x3 {
        // bitwise XOR; the flag register is forced to zero
        v.update(x, vx ^ vy).update(15, 0u8)
    } else if n == 0x4 {
        // add with carry into the flag register
        v.update(x, ((vx + vy) % 0x100) as u8).update(
            15,
            if vx + vy > 0xFF { 1u8 } else { 0u8 },
        )
    } else if n == 0x5 {
        // VX minus VY, the flag register saying no borrow happened
        v.update(x, ((vx - vy + 0x100) % 0x100) as u8).update(
            15,
            if vx >= vy { 1u8 } else { 0u8 },
        )
    } else if n == 0x6 {
        // load VY then shift right: the dropped bit goes to the flag
        let v1 = v.update(x, vy);
        let flag = v1[x] % 2;
        v1.update(x, v1[x] / 2).update(15, flag)
    } else if n == 0x7 {
        // VY minus VX, the flag register saying no borrow happened
        v.update(x, ((vy - vx + 0x100) % 0x100) as u8).update(
            15,
            if vy >= vx { 1u8 } else { 0u8 },
        )
    } else if n == 0xE {
        // load VY then shift left: the dropped bit goes to the flag
        let v1 = v.update(x, vy);
        let flag = v1[x] / 0x80;
        v1.update(x, ((v1[x] * 2) % 0x100) as u8).update(15, flag)
    } else {
        // an invalid arithmetic pattern is a no-op
        v
    }
}

/// One whole fetch-decode-execute cycle: fetch the opcode at the program
/// counter, move the counter past it, and execute; or the fatal empty-stack
/// return, which leaves no defined next state.
pub open spec fn spec_step(m: MachineView, salt: u8) -> Option<MachineView> {
    let op = spec_fetch(m);
    if op_faults(m, op) {
        None
    } else {
        Some(spec_exec_op(MachineView { pc: wrap_add(m.pc, 2), ..m }, op, salt))
    }
}

/// Whether one cycle from `m` hits the fatal empty-stack return. This does
/// not depend on the random byte.
pub open spec fn step_faults(m: MachineView) -> bool {
    op_faults(m, spec_fetch(m))
}

/// A run of consecutive cycles, one per entry of `salts`, stopping at a
/// fatal state if one is reached.
pub open spec fn spec_run(m: MachineView, salts: Seq<u8>) -> Option<MachineView>
    decreases salts.len(),
{
    if salts.len() == 0 {
        Some(m)
    } else {
        match spec_step(m, salts[0]) {
            Some(m2) => spec_run(m2, salts.subrange(1, salts.len() as int)),
            None => None,
        }
    }
}

/// One timer advance: each of the two timers goes down by one, stopping
/// at zero. This happens once per execution batch, never per instruction.
pub open spec fn spec_decr_timers(m: MachineView) -> MachineView {
    MachineView {
        delay: if m.delay > 0 { (m.delay - 1) as u8 } else { 0u8 },
        sound: if m.sound > 0 { (m.sound - 1) as u8 } else { 0u8 },
        ..m
    }
}

/// A whole execution batch: a run of one cycle per entry of `salts`, then a
/// single timer advance — the timers move once per batch however many
/// instructions the batch held.
pub open spec fn spec_batch(m: MachineView, salts: Seq<u8>) -> Option<MachineView> {
    match spec_run(m, salts) {
        Some(m2) => Some(spec_decr_timers(m2)),
        None => None,
    }
}

/// Law: a run over `salts` and then one more cycle is a run over `salts`
/// with that cycle's salt appended.
pub proof fn lemma_run_snoc(m: MachineView, salts: Seq<u8>, salt: u8)
    ensures
        spec_run(m, salts.push(salt)) == (match spec_run(m, salts) {
            Some(m2) => spec_step(m2, salt),
            None => None,
        }),
    decreases salts.len(),
{
    let whole = salts.push(salt);
    if salts.len() == 0 {
        assert(whole[0] == salt);
        assert(whole.subrange(1, whole.len() as int) =~= Seq::<u8>::empty());
        assert(spec_run(m, salts) == Some(m));
        match spec_step(m, salt) {
            Some(m2) => {
                assert(spec_run(m2, whole.subrange(1, whole.len() as int)) == Some(m2));
                assert(spec_run(m, whole) == Some(m2));
            },
            None => {
                assert(spec_run(m, whole) is None);
            },
        }
    } else {
        assert(whole[0] == salts[0]);
        let rest = salts.subrange(1, salts.len() as int);
        assert(whole.subrange(1, whole.len() as int) =~= rest.push(salt));
        match spec_step(m, salts[0]) {
            Some(m2) => {
                lemma_run_snoc(m2, rest, salt);
                assert(spec_run(m, whole) == spec_run(m2, rest.push(salt)));
                assert(spec_run(m, salts) == spec_run(m2, rest));
            },
            None => {
                assert(spec_run(m, whole) is None);
                assert(spec_run(m, salts) is None);
            },
        }
    }
}

/// Law: the key scan of the key-wait instruction finds the lowest-numbered
/// key that is down, and finds nothing exactly when no key is down.
pub proof fn lemma_first_down_from(keys: Seq<bool>, k: int)
    requires
        keys.len() == 16,
        0 <= k <= 16,
    ensures
        match first_down_from(keys, k) {
            Some(f) => k <= f < 16 && keys[f as int] && (forall|j: int|
                k <= j < f ==> !keys[j]),
            None => forall|j: int| k <= j < 16 ==> !keys[j],
        },
    decreases 16 - k,
{
    if k < 16 && !keys[k] {
        lemma_first_down_from(keys, k + 1);
    }
}

// ---------------------------------------------------------------------------
// The machine itself
// ---------------------------------------------------------------------------

/// The one fatal fault: a return instruction found the call stack empty,
/// which means the program image or the caller is broken; execution must
/// not continue with a corrupted program counter.
#[derive(Clone, Copy, Debug, PartialEq, Eq, Structural)]
pub enum Fault {
    StackUnderflow,
}

pub struct CPU {
    pub bus: Bus,
    pub keys_down: [bool; 16],
    pub pc: u16,
    i: u16,
    stack: Vec<u16>,
    delay_timer: u8,
    pub sound_timer: u8,
    v: [u8; 16],
    key_pressed: Option<u8>,
}

impl View for CPU {
    type V = MachineView;

    closed spec fn view(&self) -> MachineView {
        MachineView {
            mem: self.bus.memory@,
            rows: self.bus.gpu.buffer@,
            keys: self.keys_down@,
            v: self.v@,
            stack: self.stack@,
            pc: self.pc,
            i: self.i,
            delay: self.delay_timer,
            sound: self.sound_timer,
            waiting: self.key_pressed,
        }
    }
}

impl CPU {
    /// Well-formedness of the machine. All machines built by `new` satisfy
    /// it and every operation preserves it.
    pub open spec fn wf(&self) -> bool {
        view_wf(self@)
    }

    pub fn new() -> (cpu: CPU)
        ensures
            cpu@ == spec_boot(),
            cpu.wf(),
    {
        let cpu = CPU {
            bus: Bus::new(),
            keys_down: [false; 16],
            pc: 0x200,
            i: 0,
            stack: Vec::new(),
            delay_timer: 0,
            sound_timer: 0,
            v: [0u8; 16],
            key_pressed: None,
        };
        proof {
            assert(cpu@.keys =~= spec_boot().keys);
            assert(cpu@.v =~= spec_boot().v);
            assert(cpu@.stack =~= spec_boot().stack);
            assert(cpu@ =~= spec_boot());
        }
        cpu
    }

    /// The opcode currently under the program counter.
    pub fn get_op(&self) -> (op: u16)
        ensures
            op == spec_fetch(self@),
    {
        (self.bus.read_byte(self.pc) as u16) * 0x100 + (self.bus.read_byte(
            self.pc.wrapping_add(1),
        ) as u16)
    }

    /// Advance both timers by one batch: each goes down by one, stopping at
    /// zero.
    pub fn decr_timers(&mut self)
        ensures
            final(self)@ == spec_decr_timers(old(self)@),
    {
        if self.delay_timer > 0 {
            self.delay_timer = self.delay_timer - 1;
        }
        if self.sound_timer > 0 {
            self.sound_timer = self.sound_timer - 1;
        }
        proof {
            assert(self@ =~= spec_decr_timers(old(self)@));
        }
    }

    /// The value of a general register.
    pub fn get_v(&self, x: u8) -> (value: u8)
        requires
            x < 16,
        ensures
            value == self@.v[x as int],
    {
        self.v[x as usize]
    }

    /// The value of the index register.
    pub fn get_i(&self) -> (value: u16)
        ensures
            value == self@.i,
    {
        self.i
    }

    /// The value of the delay timer.
    pub fn get_delay_timer(&self) -> (value: u8)
        ensures
            value == self@.delay,
    {
        self.delay_timer
    }

    /// How many return addresses the call stack holds.
    pub fn stack_depth(&self) -> (depth: usize)
        ensures
            depth == self@.stack.len(),
    {
        self.stack.len()
    }

    /// The machine state as one diagnostic line: the program counter and
    /// the opcode under it, the index register and the word under it, the
    /// sixteen registers in hexadecimal, and the input latch. For eyes
    /// only; nothing is promised of the text beyond being nonempty.
    pub fn debug_text(&self) -> (text: String)
        ensures
            text@.len() > 0,
    {
        proof {
            reveal_strlit("CPU { pc: ");
        }
        let mut text = str_owned("CPU { pc: ");
        text.append(hex4(self.pc).as_str());
        text.append(", op: ");
        text.append(hex4(self.get_op()).as_str());
        text.append(", i: ");
        text.append(hex4(self.i).as_str());
        text.append(", data: ");
        let data = (self.bus.read_byte(self.i) as u16) * 0x100 + (self.bus.read_byte(
            self.i.wrapping_add(1),
        ) as u16);
        text.append(hex4(data).as_str());
        text.append(", v: ");
        let mut k: usize = 0;
        while k < 16
            invariant
                text@.len() > 0,
            decreases 16 - k,
        {
            if k > 0 {
                text.append(" ");
            }
            text.append(hex2(self.v[k]).as_str());
            k = k + 1;
        }
        text.append(", inp: ");
        let mut k: usize = 0;
        while k < 16
            invariant
                text@.len() > 0,
            decreases 16 - k,
        {
            text.append(if self.keys_down[k] {
                "X"
            } else {
                "-"
            });
            k = k + 1;
        }
        text.append(" }");
        text
    }

    /// The key scan of the key-wait instruction: the lowest-numbered key
    /// currently down, if any.
    fn scan_first_down(&self) -> (found: Option<u8>)
        ensures
            found == first_down(self@.keys),
    {
        let mut k: usize = 0;
        while k < 16
            invariant
                k <= 16,
                first_down(self@.keys) == first_down_from(self@.keys, k as int),
            decreases 16 - k,
        {
            if self.keys_down[k] {
                return Some(k as u8);
            }
            k = k + 1;
        }
        None
    }

    /// The draw instruction: `n` sprite rows read from memory at the index
    /// register, drawn at the point named by registers `x` and `y`.
    #[allow(non_snake_case)]
    pub fn op_DXYN(&mut self, x: usize, y: usize, n: u8)
        requires
            old(self).wf(),
            x < 16,
            y < 16,
            n < 16,
        ensures
            final(self).wf(),
            final(self)@ == spec_dxyn(old(self)@, x as int, y as int, n),
    {
        let x_coord = self.v[x] % 64;
        let y_coord = self.v[y] % 32;
        let mut collided = false;
        let mut k: u8 = 0;
        while k < n
            invariant
                self.wf(),
                k <= n,
                n < 16,
                x_coord < 64,
                y_coord < 32,
                x_coord == old(self)@.v[x as int] % 64,
                y_coord == old(self)@.v[y as int] % 32,
                self@.mem == old(self)@.mem,
                self@.keys == old(self)@.keys,
                self@.v == old(self)@.v,
                self@.stack == old(self)@.stack,
                self@.pc == old(self)@.pc,
                self@.i == old(self)@.i,
                self@.delay == old(self)@.delay,
                self@.sound == old(self)@.sound,
                self@.waiting == old(self)@.waiting,
                (self@.rows, collided) == spec_draw_rows(
                    old(self)@.rows,
                    old(self)@.mem,
                    old(self)@.i,
                    x_coord,
                    y_coord,
                    k as int,
                ),
            decreases n - k,
        {
            let address = self.i.wrapping_add(k as u16);
            let line_collided = self.bus.display(x_coord, y_coord + k, address);
            collided = collided || line_collided;
            k = k + 1;
        }
        self.v[15] = if collided {
            1
        } else {
            0
        };
        proof {
            assert(self@ =~= spec_dxyn(old(self)@, x as int, y as int, n));
        }
    }

    /// One poll of the blocking key-wait state machine for register `x`.
    #[allow(non_snake_case)]
    pub fn op_FX0A(&mut self, x: usize)
        requires
            old(self).wf(),
            x < 16,
        ensures
            final(self).wf(),
            final(self)@ == spec_key_wait(old(self)@, x as int),
    {
        self.pc = self.pc.wrapping_sub(2);
        match self.key_pressed {
            None => {
                let found = self.scan_first_down();
                proof {
                    lemma_first_down_from(self@.keys, 0);
                }
                self.key_pressed = found;
            },
            Some(key) => {
                if self.keys_down[key as usize] {
                    self.sound_timer = 4;
                } else {
                    self.pc = self.pc.wrapping_add(2);
                    self.v[x] = key;
                    self.key_pressed = None;
                }
            },
        }
        proof {
            assert(self@ =~= spec_key_wait(old(self)@, x as int));
        }
    }

    /// Execute one decoded instruction. The program counter has already
    /// moved past it; `salt` is the byte the random-number instruction
    /// uses. The caller rules the fatal empty-stack return out.
    pub fn exec_op(&mut self, opcode: u16, salt: u8)
        requires
            old(self).wf(),
            !op_faults(old(self)@, opcode),
        ensures
            final(self).wf(),
            final(self)@ == spec_exec_op(old(self)@, opcode, salt),
    {
        let top = opcode / 0x1000;
        let x = ((opcode / 0x100) % 0x10) as usize;
        let y = ((opcode / 0x10) % 0x10) as usize;
        let n = (opcode % 0x10) as u8;
        let nn = (opcode % 0x100) as u8;
        let nnn = opcode % 0x1000;
        if top == 0x0 {
            if nnn == 0x0E0 {
                // clear the display
                self.bus.gpu.clear();
            } else if nnn == 0x0EE {
                // return from a subroutine; the stack is not empty here
                if let Some(address) = self.stack.pop() {
                    self.pc = address;
                }
            }
        } else if top == 0x1 {
            // jump
            self.pc = nnn;
        } else if top == 0x2 {
            // call a subroutine
            self.stack.push(self.pc);
            self.pc = nnn;
        } else if top == 0x3 {
            // skip one instruction if VX equals the immediate
            if self.v[x] == nn {
                self.pc = self.pc.wrapping_add(2);
            }
        } else if top == 0x4 {
            // skip one instruction if VX differs from the immediate
            if self.v[x] != nn {
                self.pc = self.pc.wrapping_add(2);
            }
        } else if top == 0x5 {
            // skip one instruction if VX equals VY
            if self.v[x] == self.v[y] {
                self.pc = self.pc.wrapping_add(2);
            }
        } else if top == 0x6 {
            // set VX to the immediate
            self.v[x] = nn;
        } else if top == 0x7 {
            // add the immediate to VX, wrapping, no flag
            let sum: u16 = self.v[x] as u16 + nn as u16;
            self.v[x] = (sum % 0x100) as u8;
        } else if top == 0x8 {
            self.op_alu(x, y, n);
        } else if top == 0x9 {
            // skip one instruction if VX differs from VY
            if self.v[x] != self.v[y] {
                self.pc = self.pc.wrapping_add(2);
            }
        } else if top == 0xA {
            // set the index register
            self.i = nnn;
        } else if top == 0xB {
            // jump to the address plus VX (the X-indexed variant)
            self.pc = nnn + self.v[x] as u16;
        } else if top == 0xC {
            // the random byte masked by the immediate
            self.v[x] = salt & nn;
        } else if top == 0xD {
            self.op_DXYN(x, y, n);
        } else if top == 0xE {
            if nn == 0x9E {
                // skip if the key named by VX is down
                let vx = self.v[x];
                if self.keys_down[(vx % 16) as usize] {
                    self.pc = self.pc.wrapping_add(2);
                }
            } else if nn == 0xA1 {
                // skip if the key named by VX is not down
                let vx = self.v[x];
                if !self.keys_down[(vx % 16) as usize] {
                    self.pc = self.pc.wrapping_add(2);
                }
            }
        } else {
            if nn == 0x07 {
                // read the delay timer into VX
                self.v[x] = self.delay_timer;
            } else if nn == 0x0A {
                self.op_FX0A(x);
            } else if nn == 0x15 {
                // set the delay timer from VX
                self.delay_timer = self.v[x];
            } else if nn == 0x18 {
                // set the sound timer from VX
                self.sound_timer = self.v[x];
            } else if nn == 0x1E {
                // add VX to the index register, wrapping, no flag
                self.i = self.i.wrapping_add(self.v[x] as u16);
            } else if nn == 0x29 {
                // the font glyph for the low nibble of VX: 5 bytes per
                // glyph starting at 0x50
                self.i = 0x50 + (self.v[x] % 16) as u16 * 5;
            } else if nn == 0x33 {
                // the decimal digits of VX: hundreds, tens, units
                let vx = self.v[x];
                self.bus.save_byte(self.i, vx / 100);
                self.bus.save_byte(self.i.wrapping_add(1), vx / 10 % 10);
                self.bus.save_byte(self.i.wrapping_add(2), vx % 10);
            } else if nn == 0x55 {
                // store V0..VX inclusive, the index register moving along
                let mut reg: usize = 0;
                while reg < x + 1
                    invariant
                        old(self).wf(),
                        reg <= x + 1,
                        x < 16,
                        self@.rows == old(self)@.rows,
                        self@.keys == old(self)@.keys,
                        self@.v == old(self)@.v,
                        self@.stack == old(self)@.stack,
                        self@.pc == old(self)@.pc,
                        self@.delay == old(self)@.delay,
                        self@.sound == old(self)@.sound,
                        self@.waiting == old(self)@.waiting,
                        (self@.mem, self@.i) == spec_store_regs(
                            old(self)@.mem,
                            old(self)@.i,
                            old(self)@.v,
                            reg as int,
                        ),
                    decreases x + 1 - reg,
                {
                    self.bus.save_byte(self.i, self.v[reg]);
                    self.i = self.i.wrapping_add(1);
                    reg = reg + 1;
                }
            } else if nn == 0x65 {
                // load V0..VX inclusive, the index register moving along
                let mut reg: usize = 0;
                while reg < x + 1
                    invariant
                        old(self).wf(),
                        reg <= x + 1,
                        x < 16,
                        self@.mem == old(self)@.mem,
                        self@.rows == old(self)@.rows,
                        self@.keys == old(self)@.keys,
                        self@.stack == old(self)@.stack,
                        self@.pc == old(self)@.pc,
                        self@.delay == old(self)@.delay,
                        self@.sound == old(self)@.sound,
                        self@.waiting == old(self)@.waiting,
                        (self@.v, self@.i) == spec_load_regs(
                            old(self)@.v,
                            old(self)@.mem,
                            old(self)@.i,
                            reg as int,
                        ),
                    decreases x + 1 - reg,
                {
                    self.v[reg] = self.bus.read_byte(self.i);
                    self.i = self.i.wrapping_add(1);
                    reg = reg + 1;
                }
            }
        }
        proof {
            assert(self@ =~= spec_exec_op(old(self)@, opcode, salt));
        }
    }

    /// The register-to-register arithmetic family, `8XYn`.
    fn op_alu(&mut self, x: usize, y: usize, n: u8)
        requires
            old(self).wf(),
            x < 16,
            y < 16,
        ensures
            final(self).wf(),
            final(self)@ == (MachineView {
                v: spec_alu(old(self)@.v, x as int, y as int, n),
                ..old(self)@
            }),
    {
        if n == 0x0 {
            // VX copies VY
            self.v[x] = self.v[y];
        } else if n == 0x1 {
            // bitwise OR; the flag register is forced to zero
            self.v[x] = self.v[x] | self.v[y];
            self.v[15] = 0;
        } else if n == 0x2 {
            // bitwise AND; the flag register is forced to zero
            self.v[x] = self.v[x] & self.v[y];
            self.v[15] = 0;
        } else if n == 0x3 {
            // bitwise XOR; the flag register is forced to zero
            self.v[x] = self.v[x] ^ self.v[y];
            self.v[15] = 0;
        } else if n == 0x4 {
            // add with carry into the flag register
            let sum: u16 = self.v[x] as u16 + self.v[y] as u16;
            self.v[x] = (sum % 0x100) as u8;
            self.v[15] = if sum > 0xFF {
                1
            } else {
                0
            };
        } else if n == 0x5 {
            // VX minus VY, the flag saying no borrow happened
            let flag: u8 = if self.v[x] >= self.v[y] {
                1
            } else {
                0
            };
            let diff: u16 = self.v[x] as u16 + 0x100 - self.v[y] as u16;
            self.v[x] = (diff % 0x100) as u8;
            self.v[15] = flag;
        } else if n == 0x6 {
            // load VY then shift right; the dropped bit goes to the flag
            self.v[x] = self.v[y];
            let flag = self.v[x] % 2;
            self.v[x] = self.v[x] / 2;
            self.v[15] = flag;
        } else if n == 0x7 {
            // VY minus VX, the flag saying no borrow happened
            let flag: u8 = if self.v[y] >= self.v[x] {
                1
            } else {
                0
            };
            let diff: u16 = self.v[y] as u16 + 0x100 - self.v[x] as u16;
            self.v[x] = (diff % 0x100) as u8;
            self.v[15] = flag;
        } else if n == 0xE {
            // load VY then shift left; the dropped bit goes to the flag
            self.v[x] = self.v[y];
            let flag = self.v[x] / 0x80;
            let doubled: u16 = self.v[x] as u16 * 2;
            self.v[x] = (doubled % 0x100) as u8;
            self.v[15] = flag;
        }
        proof {
            assert(self@ =~= (MachineView {
                v: spec_alu(old(self)@.v, x as int, y as int, n),
                ..old(self)@
            }));
        }
    }

    /// One fetch-decode-execute cycle. The opcode under the program counter
    /// is fetched, the counter moves past it, and the instruction runs; a
    /// return with an empty call stack is refused instead, with the
    /// machine left exactly as it was.
    pub fn tick(&mut self) -> (r: Result<(), Fault>)
        requires
            old(self).wf(),
        ensures
            final(self).wf(),
            r is Err <==> step_faults(old(self)@),
            r is Err ==> *final(self) == *old(self) && r == Err::<(), Fault>(
                Fault::StackUnderflow,
            ),
            r is Ok ==> exists|salt: u8| Some(final(self)@) == spec_step(old(self)@, salt),
            r is Ok && op_top(spec_fetch(old(self)@)) != 0xC ==> Some(final(self)@) == spec_step(
                old(self)@,
                0,
            ),
    {
        let opcode = self.get_op();
        if opcode / 0x1000 == 0 && opcode % 0x1000 == 0x0EE && self.stack.len() == 0 {
            return Err(Fault::StackUnderflow);
        }
        self.pc = self.pc.wrapping_add(2);
        let salt: u8 = if opcode / 0x1000 == 0xC {
            random_byte()
        } else {
            0
        };
        self.exec_op(opcode, salt);
        proof {
            assert(Some(self@) == spec_step(old(self)@, salt));
        }
        Ok(())
    }

    /// One whole execution batch: `ticks` fetch-decode-execute cycles, then
    /// a single timer advance — so the timers move once per batch, however
    /// many instructions the batch held. A fatal cycle stops the batch at
    /// once, timers untouched, with the machine left at the fatal state.
    pub fn ticks(&mut self, ticks: u16) -> (r: Result<(), Fault>)
        requires
            old(self).wf(),
        ensures
            final(self).wf(),
            r is Ok ==> exists|salts: Seq<u8>|
                salts.len() == ticks && spec_batch(old(self)@, salts) == Some(final(self)@),
            r is Err ==> exists|salts: Seq<u8>|
                salts.len() < ticks && spec_run(old(self)@, salts) == Some(final(self)@)
                    && step_faults(final(self)@),
            r is Err ==> r == Err::<(), Fault>(Fault::StackUnderflow),
    {
        let ghost mut salts: Seq<u8> = Seq::empty();
        let mut k: u16 = 0;
        while k < ticks
            invariant
                self.wf(),
                k <= ticks,
                salts.len() == k,
                spec_run(old(self)@, salts) == Some(self@),
            decreases ticks - k,
        {
            let ghost pre = self@;
            match self.tick() {
                Ok(()) => {
                    proof {
                        let salt = choose|salt: u8| Some(self@) == spec_step(pre, salt);
                        lemma_run_snoc(old(self)@, salts, salt);
                        salts = salts.push(salt);
                    }
                },
                Err(fault) => {
                    return Err(fault);
                },
            }
            k = k + 1;
        }
        self.decr_timers();
        Ok(())
    }
}

/// Relies on rand::random: a byte from the thread's generator. Nothing is
/// promised of the value that comes back.
#[verifier::external_body]
fn random_byte() -> u8 {
    rand::random::<u8>()
}

/// A short human-readable description of an opcode, for diagnostics; the
/// text carries no promises beyond being nonempty.
pub fn fmt_opcode(opcode: u16) -> (text: String)
    ensures
        text@.len() > 0,
{
    let top = opcode / 0x1000;
    let x = (opcode / 0x100) % 0x10;
    let y = (opcode / 0x10) % 0x10;
    let n = opcode % 0x10;
    let nn = opcode % 0x100;
    let nnn = opcode % 0x1000;
    if top == 0x0 {
        if nnn == 0x0E0 {
            proof {
                reveal_strlit("00E0 Clear");
            }
            str_owned("00E0 Clear")
        } else if nnn == 0x0EE {
            proof {
                reveal_strlit("00EE Return");
            }
            str_owned("00EE Return")
        } else {
            proof {
                reveal_strlit("0___ Not implemented");
            }
            str_owned("0___ Not implemented")
        }
    } else if top == 0x1 {
        proof {
            reveal_strlit("1NNN Jump to ");
        }
        let mut text = str_owned("1NNN Jump to ");
        text.append(dec_u16(nnn).as_str());
        text
    } else if top == 0x2 {
        proof {
            reveal_strlit("2NNN Call sub at ");
        }
        let mut text = str_owned("2NNN Call sub at ");
        text.append(dec_u16(nnn).as_str());
        text
    } else if top == 0x3 {
        proof {
            reveal_strlit("3XNN Skip if V");
        }
        let mut text = str_owned("3XNN Skip if V");
        text.append(dec_u16(x).as_str());
        text.append(" equals ");
        text.append(dec_u16(nn).as_str());
        text
    } else if top == 0x4 {
        proof {
            reveal_strlit("4XNN Skip if V");
        }
        let mut text = str_owned("4XNN Skip if V");
        text.append(dec_u16(x).as_str());
        text.append(" not equals ");
        text.append(dec_u16(nn).as_str());
        text
    } else if top == 0x5 {
        proof {
            reveal_strlit("5XY0 Skip if V");
        }
        let mut text = str_owned("5XY0 Skip if V");
        text.append(dec_u16(x).as_str());
        text.append(" equals V");
        text.append(dec_u16(y).as_str());
        text
    } else if top == 0x6 {
        proof {
            reveal_strlit("6XNN Set V");
        }
        let mut text = str_owned("6XNN Set V");
        text.append(dec_u16(x).as_str());
        text.append(" to ");
        text.append(dec_u16(nn).as_str());
        text
    } else if top == 0x7 {
        proof {
            reveal_strlit("7XNN Add ");
        }
        let mut text = str_owned("7XNN Add ");
        text.append(dec_u16(nn).as_str());
        text.append(" to V");
        text.append(dec_u16(x).as_str());
        text
    } else if top == 0x8 {
        fmt_alu_opcode(x, y, n)
    } else if top == 0x9 {
        proof {
            reveal_strlit("9XY0 Skip if V");
        }
        let mut text = str_owned("9XY0 Skip if V");
        text.append(dec_u16(x).as_str());
        text.append(" not equals V");
        text.append(dec_u16(y).as_str());
        text
    } else if top == 0xA {
        proof {
            reveal_strlit("ANNN Set I to ");
        }
        let mut text = str_owned("ANNN Set I to ");
        text.append(dec_u16(nnn).as_str());
        text
    } else if top == 0xB {
        proof {
            reveal_strlit("BNNN Jump to ");
        }
        let mut text = str_owned("BNNN Jump to ");
        text.append(dec_u16(nnn).as_str());
        text.append(" + V");
        text.append(dec_u16(x).as_str());
        text
    } else if top == 0xC {
        proof {
            reveal_strlit("CXNN Set V");
        }
        let mut text = str_owned("CXNN Set V");
        text.append(dec_u16(x).as_str());
        text.append(" to random AND ");
        text.append(dec_u16(nn).as_str());
        text
    } else if top == 0xD {
        proof {
            reveal_strlit("DXYN Display ");
        }
        let mut text = str_owned("DXYN Display ");
        text.append(dec_u16(n).as_str());
        text.append(" rows at V");
        text.append(dec_u16(x).as_str());
        text.append(",V");
        text.append(dec_u16(y).as_str());
        text.append(" with carry");
        text
    } else if top == 0xE {
        if nn == 0x9E {
            proof {
                reveal_strlit("EX9E Skip if inp[V");
            }
            let mut text = str_owned("EX9E Skip if inp[V");
            text.append(dec_u16(x).as_str());
            text.append("]");
            text
        } else if nn == 0xA1 {
            proof {
                reveal_strlit("EXA1 Skip if not inp[V");
            }
            let mut text = str_owned("EXA1 Skip if not inp[V");
            text.append(dec_u16(x).as_str());
            text.append("]");
            text
        } else {
            proof {
                reveal_strlit("E___ Invalid");
            }
            str_owned("E___ Invalid")
        }
    } else {
        if nn == 0x07 {
            proof {
                reveal_strlit("FX07 Set V");
            }
            let mut text = str_owned("FX07 Set V");
            text.append(dec_u16(x).as_str());
            text.append(" to delay timer");
            text
        } else if nn == 0x0A {
            proof {
                reveal_strlit("FX0A Set V");
            }
            let mut text = str_owned("FX0A Set V");
            text.append(dec_u16(x).as_str());
            text.append(" to first inp, or decr PC");
            text
        } else if nn == 0x15 {
            proof {
                reveal_strlit("FX15 Set delay timer to V");
            }
            let mut text = str_owned("FX15 Set delay timer to V");
            text.append(dec_u16(x).as_str());
            text
        } else if nn == 0x18 {
            proof {
                reveal_strlit("FX18 Set sound timer to V");
            }
            let mut text = str_owned("FX18 Set sound timer to V");
            text.append(dec_u16(x).as_str());
            text
        } else if nn == 0x1E {
            proof {
                reveal_strlit("FX1E Add V");
            }
            let mut text = str_owned("FX1E Add V");
            text.append(dec_u16(x).as_str());
            text.append(" to I");
            text
        } else if nn == 0x29 {
            proof {
                reveal_strlit("FX29 Set I to addr of font char in V");
            }
            let mut text = str_owned("FX29 Set I to addr of font char in V");
            text.append(dec_u16(x).as_str());
            text
        } else if nn == 0x33 {
            proof {
                reveal_strlit("FX33 Store BCD of V");
            }
            let mut text = str_owned("FX33 Store BCD of V");
            text.append(dec_u16(x).as_str());
            text.append(" in M[I], incr I");
            text
        } else if nn == 0x55 {
            proof {
                reveal_strlit("FX55 Store V0..V");
            }
            let mut text = str_owned("FX55 Store V0..V");
            text.append(dec_u16(x).as_str());
            text.append(" in M[I], incr I (VIP impl)");
            text
        } else if nn == 0x65 {
            proof {
                reveal_strlit("FX65 Load V0..V");
            }
            let mut text = str_owned("FX65 Load V0..V");
            text.append(dec_u16(x).as_str());
            text.append(" from M[I], incr I (VIP impl)");
            text
        } else {
            proof {
                reveal_strlit("FX__ Invalid");
            }
            str_owned("FX__ Invalid")
        }
    }
}

/// The descriptions of the register-to-register arithmetic family.
fn fmt_alu_opcode(x: u16, y: u16, n: u16) -> (text: String)
    ensures
        text@.len() > 0,
{
    if n == 0x0 {
        proof {
            reveal_strlit("8XY0 Set V");
        }
        let mut text = str_owned("8XY0 Set V");
        text.append(dec_u16(x).as_str());
        text.append(" to V");
        text.append(dec_u16(y).as_str());
        text
    } else if n == 0x1 {
        proof {
            reveal_strlit("8XY1 Set V");
        }
        let mut text = str_owned("8XY1 Set V");
        text.append(dec_u16(x).as_str());
        text.append(" to V");
        text.append(dec_u16(x).as_str());
        text.append(" OR V");
        text.append(dec_u16(y).as_str());
        text
    } else if n == 0x2 {
        proof {
            reveal_strlit("8XY2 Set V");
        }
        let mut text = str_owned("8XY2 Set V");
        text.append(dec_u16(x).as_str());
        text.append(" to V");
        text.append(dec_u16(x).as_str());
        text.append(" AND V");
        text.append(dec_u16(y).as_str());
        text
    } else if n == 0x3 {
        proof {
            reveal_strlit("8XY3 Set V");
        }
        let mut text = str_owned("8XY3 Set V");
        text.append(dec_u16(x).as_str());
        text.append(" to V");
        text.append(dec_u16(x).as_str());
        text.append(" XOR V");
        text.append(dec_u16(y).as_str());
        text
    } else if n == 0x4 {
        proof {
            reveal_strlit("8XY4 Add V");
        }
        let mut text = str_owned("8XY4 Add V");
        text.append(dec_u16(y).as_str());
        text.append(" to V");
        text.append(dec_u16(x).as_str());
        text.append(" with carry");
        text
    } else if n == 0x5 {
        proof {
            reveal_strlit("8XY5 Sub V");
        }
        let mut text = str_owned("8XY5 Sub V");
        text.append(dec_u16(y).as_str());
        text.append(" from V");
        text.append(dec_u16(x).as_str());
        text.append(" with carry");
        text
    } else if n == 0x6 {
        proof {
            reveal_strlit("8XY6 Set V");
        }
        let mut text = str_owned("8XY6 Set V");
        text.append(dec_u16(x).as_str());
        text.append(" to V");
        text.append(dec_u16(y).as_str());
        text.append(">>1 with carry (VIP impl)");
        text
    } else if n == 0x7 {
        proof {
            reveal_strlit("8XY7 Set V");
        }
        let mut text = str_owned("8XY7 Set V");
        text.append(dec_u16(x).as_str());
        text.append(" to V");
        text.append(dec_u16(y).as_str());
        text.append("-V");
        text.append(dec_u16(x).as_str());
        text.append(" with carry");
        text
    } else if n == 0xE {
        proof {
            reveal_strlit("8XYE Set V");
        }
        let mut text = str_owned("8XYE Set V");
        text.append(dec_u16(x).as_str());
        text.append(" to V");
        text.append(dec_u16(y).as_str());
        text.append("<<1 with carry (VIP impl)");
        text
    } else {
        proof {
            reveal_strlit("8XY_ Invalid");
        }
        str_owned("8XY_ Invalid")
    }
}

} // verus!
