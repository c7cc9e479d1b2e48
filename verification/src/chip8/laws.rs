//! The laws of the instruction set, stated over the machine model and
//! proved once and for all: what each of the historically delicate opcodes
//! does, for every machine state and every input.

use vstd::prelude::*;
use crate::chip8::cpu::{
    first_down, lemma_first_down_from, op_nn, op_nnn, op_top, op_x, op_y, spec_batch, spec_fetch,
    spec_run, spec_step, view_wf, wrap_add, MachineView,
};

verus! {

/// Law: the register-set instruction `6XNN` stores NN in VX exactly and
/// has no other effect: every other register, the flag register among
/// them, and every other part of the machine stay as they were.
pub proof fn lemma_step_set_vx(m: MachineView, salt: u8)
    requires
        view_wf(m),
        op_top(spec_fetch(m)) == 0x6,
    ensures
        ({
            let op = spec_fetch(m);
            let m2 = spec_step(m, salt)->0;
            &&& spec_step(m, salt) is Some
            &&& m2 == MachineView { pc: wrap_add(m.pc, 2), v: m.v.update(op_x(op), op_nn(op)), ..m }
            &&& m2.v[op_x(op)] == op_nn(op)
            &&& forall|j: int| 0 <= j < 16 && j != op_x(op) ==> m2.v[j] == m.v[j]
        }),
{
}

/// Law: the add-immediate instruction `7XNN` adds NN into VX wrapping
/// around at 256, and touches no flag: when X is not the flag register,
/// the flag register keeps its prior value whatever it was.
pub proof fn lemma_step_add_vx(m: MachineView, salt: u8)
    requires
        view_wf(m),
        op_top(spec_fetch(m)) == 0x7,
    ensures
        ({
            let op = spec_fetch(m);
            let m2 = spec_step(m, salt)->0;
            &&& spec_step(m, salt) is Some
            &&& m2 == MachineView {
                pc: wrap_add(m.pc, 2),
                v: m.v.update(op_x(op), ((m.v[op_x(op)] + op_nn(op)) % 0x100) as u8),
                ..m
            }
            &&& op_x(op) != 15 ==> m2.v[15] == m.v[15]
        }),
{
}

/// Law: the add-with-carry instruction `8XY4` leaves in VX the sum of VX
/// and VY reduced modulo 256, and then sets the flag register to 1
/// exactly when the sum overflowed a byte, else to 0.
pub proof fn lemma_step_add_carry(m: MachineView, salt: u8)
    requires
        view_wf(m),
        op_top(spec_fetch(m)) == 0x8,
        spec_fetch(m) % 0x10 == 0x4,
    ensures
        ({
            let op = spec_fetch(m);
            let sum = m.v[op_x(op)] + m.v[op_y(op)];
            let m2 = spec_step(m, salt)->0;
            &&& spec_step(m, salt) is Some
            &&& m2 == MachineView {
                pc: wrap_add(m.pc, 2),
                v: m.v.update(op_x(op), (sum % 0x100) as u8).update(
                    15,
                    if sum > 0xFF { 1u8 } else { 0u8 },
                ),
                ..m
            }
            &&& m2.v[15] == (if sum > 0xFF { 1u8 } else { 0u8 })
        }),
{
}

/// Law: the bitwise instructions `8XY1`, `8XY2` and `8XY3` always leave
/// the flag register at 0 afterwards, whatever it held before.
pub proof fn lemma_step_bitwise_clears_flag(m: MachineView, salt: u8)
    requires
        view_wf(m),
        op_top(spec_fetch(m)) == 0x8,
        1 <= spec_fetch(m) % 0x10 <= 3,
    ensures
        ({
            let m2 = spec_step(m, salt)->0;
            &&& spec_step(m, salt) is Some
            &&& m2.v.len() == 16
            &&& m2.v[15] == 0
        }),
{
}

/// Law: the jump-with-offset instruction `BNNN` jumps to NNN plus VX — the
/// X-indexed variant, where the register index comes from the opcode's own
/// second nibble, not always from V0.
pub proof fn lemma_step_jump_indexed(m: MachineView, salt: u8)
    requires
        view_wf(m),
        op_top(spec_fetch(m)) == 0xB,
    ensures
        ({
            let op = spec_fetch(m);
            let m2 = spec_step(m, salt)->0;
            &&& spec_step(m, salt) is Some
            &&& m2 == MachineView { pc: (op_nnn(op) + m.v[op_x(op)]) as u16, ..m }
        }),
{
}

/// Law: the shift-right instruction `8XY6` first loads VY into VX and
/// shifts that value — the load-then-shift variant: VX ends as VY halved,
/// and the flag register ends as VY's dropped low bit.
pub proof fn lemma_step_shift_right(m: MachineView, salt: u8)
    requires
        view_wf(m),
        op_top(spec_fetch(m)) == 0x8,
        spec_fetch(m) % 0x10 == 0x6,
    ensures
        ({
            let op = spec_fetch(m);
            let vy = m.v[op_y(op)];
            let m2 = spec_step(m, salt)->0;
            &&& spec_step(m, salt) is Some
            &&& m2 == MachineView {
                pc: wrap_add(m.pc, 2),
                v: m.v.update(op_x(op), vy / 2).update(15, vy % 2),
                ..m
            }
        }),
{
    let op = spec_fetch(m);
    let vy = m.v[op_y(op)];
    assert(m.v.update(op_x(op), vy).update(op_x(op), vy / 2) =~= m.v.update(op_x(op), vy / 2));
}

/// Law: the reverse-subtract instruction `8XY7` leaves VY minus VX in VX,
/// wrapping, and then sets the flag register to 1 exactly when no borrow
/// happened, that is when VY was at least VX.
pub proof fn lemma_step_sub_reversed(m: MachineView, salt: u8)
    requires
        view_wf(m),
        op_top(spec_fetch(m)) == 0x8,
        spec_fetch(m) % 0x10 == 0x7,
    ensures
        ({
            let op = spec_fetch(m);
            let vx = m.v[op_x(op)];
            let vy = m.v[op_y(op)];
            let m2 = spec_step(m, salt)->0;
            &&& spec_step(m, salt) is Some
            &&& m2 == MachineView {
                pc: wrap_add(m.pc, 2),
                v: m.v.update(op_x(op), ((vy - vx + 0x100) % 0x100) as u8).update(
                    15,
                    if vy >= vx { 1u8 } else { 0u8 },
                ),
                ..m
            }
        }),
{
}

/// Law: the shift-left instruction `8XYE` first loads VY into VX and
/// shifts that value — the load-then-shift variant: VX ends as VY doubled
/// modulo 256, and the flag register ends as VY's dropped high bit.
pub proof fn lemma_step_shift_left(m: MachineView, salt: u8)
    requires
        view_wf(m),
        op_top(spec_fetch(m)) == 0x8,
        spec_fetch(m) % 0x10 == 0xE,
    ensures
        ({
            let op = spec_fetch(m);
            let vy = m.v[op_y(op)];
            let m2 = spec_step(m, salt)->0;
            &&& spec_step(m, salt) is Some
            &&& m2 == MachineView {
                pc: wrap_add(m.pc, 2),
                v: m.v.update(op_x(op), ((vy * 2) % 0x100) as u8).update(15, vy / 0x80),
                ..m
            }
        }),
{
    let op = spec_fetch(m);
    let vy = m.v[op_y(op)];
    assert(m.v.update(op_x(op), vy).update(op_x(op), ((vy * 2) % 0x100) as u8) =~= m.v.update(
        op_x(op),
        ((vy * 2) % 0x100) as u8,
    ));
}

/// Law: the font-address instruction `FX29` points the index register at
/// the glyph for the low nibble of VX: glyphs are 5 bytes each from 0x50,
/// so the address scales by 5 rather than adding the digit directly.
pub proof fn lemma_step_font_address(m: MachineView, salt: u8)
    requires
        view_wf(m),
        op_top(spec_fetch(m)) == 0xF,
        op_nn(spec_fetch(m)) == 0x29,
    ensures
        ({
            let op = spec_fetch(m);
            let m2 = spec_step(m, salt)->0;
            &&& spec_step(m, salt) is Some
            &&& m2 == MachineView {
                pc: wrap_add(m.pc, 2),
                i: (0x50 + (m.v[op_x(op)] % 16) * 5) as u16,
                ..m
            }
        }),
{
}

/// Law: a poll of the key-wait instruction `FX0A` with nothing latched and
/// no key down leaves the machine exactly as it was: the program counter
/// stays rewound onto the instruction, so the next cycle polls again.
pub proof fn lemma_step_key_wait_idle(m: MachineView, salt: u8)
    requires
        view_wf(m),
        op_top(spec_fetch(m)) == 0xF,
        op_nn(spec_fetch(m)) == 0x0A,
        m.waiting is None,
        forall|j: int| 0 <= j < 16 ==> !m.keys[j],
    ensures
        spec_step(m, salt) == Some(m),
{
    lemma_first_down_from(m.keys, 0);
    assert(spec_step(m, salt)->0 =~= m);
}

/// Law: a poll of the key-wait instruction with nothing latched and some
/// key down latches the lowest-numbered key that is down, rewinds the
/// program counter onto the instruction, and changes nothing else.
pub proof fn lemma_step_key_wait_latch(m: MachineView, salt: u8)
    requires
        view_wf(m),
        op_top(spec_fetch(m)) == 0xF,
        op_nn(spec_fetch(m)) == 0x0A,
        m.waiting is None,
    ensures
        spec_step(m, salt) == Some(MachineView { waiting: first_down(m.keys), ..m }),
        (exists|j: int| 0 <= j < 16 && m.keys[j]) ==> first_down(m.keys) is Some,
{
    lemma_first_down_from(m.keys, 0);
    assert(spec_step(m, salt)->0 =~= MachineView { waiting: first_down(m.keys), ..m });
    if exists|j: int| 0 <= j < 16 && m.keys[j] {
        let j = choose|j: int| 0 <= j < 16 && m.keys[j];
        assert(first_down(m.keys) is None ==> !m.keys[j]);
    }
}

/// Law: a poll of the key-wait instruction whose latched key is still down
/// keeps the counter rewound and asserts the short tone on the sound
/// timer; registers and latch stay as they were.
pub proof fn lemma_step_key_wait_held(m: MachineView, salt: u8, key: u8)
    requires
        view_wf(m),
        op_top(spec_fetch(m)) == 0xF,
        op_nn(spec_fetch(m)) == 0x0A,
        m.waiting == Some(key),
        m.keys[key as int],
    ensures
        spec_step(m, salt) == Some(MachineView { sound: 4, ..m }),
{
    assert(spec_step(m, salt)->0 =~= MachineView { sound: 4, ..m });
}

/// Law: the poll of the key-wait instruction that sees its latched key
/// released completes the instruction: the program counter ends exactly
/// one instruction further (it advances once, on this poll alone), the
/// target register receives the latched key's index, and the latch clears.
pub proof fn lemma_step_key_wait_release(m: MachineView, salt: u8, key: u8)
    requires
        view_wf(m),
        op_top(spec_fetch(m)) == 0xF,
        op_nn(spec_fetch(m)) == 0x0A,
        m.waiting == Some(key),
        !m.keys[key as int],
    ensures
        spec_step(m, salt) == Some(MachineView {
            pc: wrap_add(m.pc, 2),
            v: m.v.update(op_x(spec_fetch(m)), key),
            waiting: None,
            ..m
        }),
{
    assert(spec_step(m, salt)->0 =~= MachineView {
        pc: wrap_add(m.pc, 2),
        v: m.v.update(op_x(spec_fetch(m)), key),
        waiting: None,
        ..m
    });
}

/// Whether an opcode writes a timer: only the set-delay and set-sound
/// instructions and a held poll of the key-wait instruction do.
pub open spec fn is_timer_op(op: u16) -> bool {
    op_top(op) == 0xF && (op_nn(op) == 0x15 || op_nn(op) == 0x18 || op_nn(op) == 0x0A)
}

/// Law: no single cycle moves a timer unless its instruction writes one:
/// the timers advance between batches, never per instruction.
pub proof fn lemma_step_timers(m: MachineView, salt: u8)
    requires
        spec_step(m, salt) is Some,
        !is_timer_op(spec_fetch(m)),
    ensures
        spec_step(m, salt)->0.delay == m.delay,
        spec_step(m, salt)->0.sound == m.sound,
{
}

/// A run in which no executed instruction writes a timer.
pub open spec fn run_avoids_timer_ops(m: MachineView, salts: Seq<u8>) -> bool
    decreases salts.len(),
{
    salts.len() == 0 || (!is_timer_op(spec_fetch(m)) && (match spec_step(m, salts[0]) {
        Some(m2) => run_avoids_timer_ops(m2, salts.subrange(1, salts.len() as int)),
        None => true,
    }))
}

/// Law: over a whole batch whose instructions write no timer, each timer
/// goes down by exactly one (stopping at zero) — however many
/// instructions the batch executed.
pub proof fn lemma_batch_timers(m: MachineView, salts: Seq<u8>, m2: MachineView)
    requires
        spec_batch(m, salts) == Some(m2),
        run_avoids_timer_ops(m, salts),
    ensures
        m2.delay == (if m.delay > 0 { (m.delay - 1) as u8 } else { 0u8 }),
        m2.sound == (if m.sound > 0 { (m.sound - 1) as u8 } else { 0u8 }),
{
    let mr = spec_run(m, salts)->0;
    lemma_run_timers(m, salts, mr);
}

/// Law: a run whose instructions write no timer leaves both timers alone.
pub proof fn lemma_run_timers(m: MachineView, salts: Seq<u8>, mr: MachineView)
    requires
        spec_run(m, salts) == Some(mr),
        run_avoids_timer_ops(m, salts),
    ensures
        mr.delay == m.delay,
        mr.sound == m.sound,
    decreases salts.len(),
{
    if salts.len() > 0 {
        let m1 = spec_step(m, salts[0])->0;
        lemma_step_timers(m, salts[0]);
        lemma_run_timers(m1, salts.subrange(1, salts.len() as int), mr);
    }
}

/// Law: every cycle other than a random-number instruction is
/// deterministic: the byte handed to the random-number generator cannot
/// matter to it.
pub proof fn lemma_step_deterministic(m: MachineView, salt_a: u8, salt_b: u8)
    requires
        op_top(spec_fetch(m)) != 0xC,
    ensures
        spec_step(m, salt_a) == spec_step(m, salt_b),
{
}

} // verus!
