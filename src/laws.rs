use vstd::prelude::*;

use crate::instruction::{decoded, lemma_decoded_wf, Instruction};
use crate::machine::{Event, MachineState, MEMORY_SIZE, SCREEN_SIZE};
use crate::semantics::{advanced, fetched, held_key, step_transition, transition, Signal};
use crate::sprite::{lemma_sprite_pixel, sprite_bit, sprite_covers, sprite_pixel};

verus! {

/// The 8-bit arithmetic instructions wrap modulo 256, and the flag register
/// receives the carry, the no-borrow bit or the bit shifted out, written
/// after the result. The add of a byte leaves the flag register alone.
pub proof fn law_arithmetic_wraps(m: MachineState, x: u8, y: u8, kk: u8, event: Option<Event>, random: u8)
    requires
        m.wf(),
        x < 15,
        y < 16,
    ensures
        ({
            let vx = m.registers[x as int];
            let vy = m.registers[y as int];
            &&& transition(m, Instruction::AddByte { x, kk }, event, random) matches Ok((s, _))
                && s.registers[x as int] == (vx + kk) % 256 && s.registers[15] == m.registers[15]
            &&& transition(m, Instruction::AddReg { x, y }, event, random) matches Ok((s, _))
                && s.registers[x as int] == (vx + vy) % 256 && s.registers[15] == (if vx + vy
                > 255 {
                1int
            } else {
                0
            })
            &&& transition(m, Instruction::Sub { x, y }, event, random) matches Ok((s, _))
                && s.registers[x as int] == (vx - vy) % 256 && s.registers[15] == (if vx > vy {
                1int
            } else {
                0
            })
            &&& transition(m, Instruction::Subn { x, y }, event, random) matches Ok((s, _))
                && s.registers[x as int] == (vy - vx) % 256 && s.registers[15] == (if vy > vx {
                1int
            } else {
                0
            })
            &&& transition(m, Instruction::Shr { x, y }, event, random) matches Ok((s, _))
                && s.registers[x as int] == vx / 2 && s.registers[15] == vx % 2
            &&& transition(m, Instruction::Shl { x, y }, event, random) matches Ok((s, _))
                && s.registers[x as int] == (vx * 2) % 256 && s.registers[15] == vx / 128
        }),
{
    reveal(transition);
}

proof fn lemma_skip_byte_equal(m: MachineState, x: u8, y: u8, kk: u8, event: Option<Event>, random: u8)
    requires
        m.wf(),
        x < 16,
        y < 16,
    ensures
        ({
            let vx = m.registers[x as int];
            let vy = m.registers[y as int];
            transition(m, Instruction::SeByte { x, kk }, event, random) matches Ok((s, _)) && s.pc == if vx == kk {
                advanced(advanced(m.pc))
            } else {
                advanced(m.pc)
            }
        }),
{
    reveal(transition);
}

proof fn lemma_skip_byte_unequal(m: MachineState, x: u8, y: u8, kk: u8, event: Option<Event>, random: u8)
    requires
        m.wf(),
        x < 16,
        y < 16,
    ensures
        ({
            let vx = m.registers[x as int];
            let vy = m.registers[y as int];
            transition(m, Instruction::SneByte { x, kk }, event, random) matches Ok((s, _)) && s.pc == if vx != kk {
                advanced(advanced(m.pc))
            } else {
                advanced(m.pc)
            }
        }),
{
    reveal(transition);
}

proof fn lemma_skip_registers_equal(m: MachineState, x: u8, y: u8, kk: u8, event: Option<Event>, random: u8)
    requires
        m.wf(),
        x < 16,
        y < 16,
    ensures
        ({
            let vx = m.registers[x as int];
            let vy = m.registers[y as int];
            transition(m, Instruction::SeReg { x, y }, event, random) matches Ok((s, _)) && s.pc == if vx == vy {
                advanced(advanced(m.pc))
            } else {
                advanced(m.pc)
            }
        }),
{
    reveal(transition);
}

proof fn lemma_skip_registers_unequal(m: MachineState, x: u8, y: u8, kk: u8, event: Option<Event>, random: u8)
    requires
        m.wf(),
        x < 16,
        y < 16,
    ensures
        ({
            let vx = m.registers[x as int];
            let vy = m.registers[y as int];
            transition(m, Instruction::SneReg { x, y }, event, random) matches Ok((s, _)) && s.pc == if vx != vy {
                advanced(advanced(m.pc))
            } else {
                advanced(m.pc)
            }
        }),
{
    reveal(transition);
}

proof fn lemma_skip_key_held(m: MachineState, x: u8, y: u8, kk: u8, event: Option<Event>, random: u8)
    requires
        m.wf(),
        x < 16,
        y < 16,
    ensures
        ({
            let vx = m.registers[x as int];
            let vy = m.registers[y as int];
            transition(m, Instruction::Skp { x }, event, random) matches Ok((s, _)) && s.pc == if held_key(event) == Some((vx % 16) as u8) {
                advanced(advanced(m.pc))
            } else {
                advanced(m.pc)
            }
        }),
{
    reveal(transition);
}

proof fn lemma_skip_key_not_held(m: MachineState, x: u8, y: u8, kk: u8, event: Option<Event>, random: u8)
    requires
        m.wf(),
        x < 16,
        y < 16,
    ensures
        ({
            let vx = m.registers[x as int];
            let vy = m.registers[y as int];
            transition(m, Instruction::Sknp { x }, event, random) matches Ok((s, _)) && s.pc == if held_key(event) != Some((vx % 16) as u8) {
                advanced(advanced(m.pc))
            } else {
                advanced(m.pc)
            }
        }),
{
    reveal(transition);
}

/// A skip instruction moves the program counter four bytes on where its
/// condition holds, and two otherwise (wrapping within memory).
pub proof fn law_skip_distance(m: MachineState, x: u8, y: u8, kk: u8, event: Option<Event>, random: u8)
    requires
        m.wf(),
        x < 16,
        y < 16,
    ensures
        advanced(m.pc) == (m.pc + 2) % (MEMORY_SIZE as int),
        advanced(advanced(m.pc)) == (m.pc + 4) % (MEMORY_SIZE as int),
        ({
            let vx = m.registers[x as int];
            let vy = m.registers[y as int];
            transition(m, Instruction::SeByte { x, kk }, event, random) matches Ok((s, _)) && s.pc == if vx == kk {
                advanced(advanced(m.pc))
            } else {
                advanced(m.pc)
            }
        }),
        ({
            let vx = m.registers[x as int];
            let vy = m.registers[y as int];
            transition(m, Instruction::SneByte { x, kk }, event, random) matches Ok((s, _)) && s.pc == if vx != kk {
                advanced(advanced(m.pc))
            } else {
                advanced(m.pc)
            }
        }),
        ({
            let vx = m.registers[x as int];
            let vy = m.registers[y as int];
            transition(m, Instruction::SeReg { x, y }, event, random) matches Ok((s, _)) && s.pc == if vx == vy {
                advanced(advanced(m.pc))
            } else {
                advanced(m.pc)
            }
        }),
        ({
            let vx = m.registers[x as int];
            let vy = m.registers[y as int];
            transition(m, Instruction::SneReg { x, y }, event, random) matches Ok((s, _)) && s.pc == if vx != vy {
                advanced(advanced(m.pc))
            } else {
                advanced(m.pc)
            }
        }),
        ({
            let vx = m.registers[x as int];
            let vy = m.registers[y as int];
            transition(m, Instruction::Skp { x }, event, random) matches Ok((s, _)) && s.pc == if held_key(event) == Some((vx % 16) as u8) {
                advanced(advanced(m.pc))
            } else {
                advanced(m.pc)
            }
        }),
        ({
            let vx = m.registers[x as int];
            let vy = m.registers[y as int];
            transition(m, Instruction::Sknp { x }, event, random) matches Ok((s, _)) && s.pc == if held_key(event) != Some((vx % 16) as u8) {
                advanced(advanced(m.pc))
            } else {
                advanced(m.pc)
            }
        }),
{
    lemma_skip_byte_equal(m, x, y, kk, event, random);
    lemma_skip_byte_unequal(m, x, y, kk, event, random);
    lemma_skip_registers_equal(m, x, y, kk, event, random);
    lemma_skip_registers_unequal(m, x, y, kk, event, random);
    lemma_skip_key_held(m, x, y, kk, event, random);
    lemma_skip_key_not_held(m, x, y, kk, event, random);
}

/// A call followed by a return comes back to the instruction after the call,
/// with the call stack as deep as before.
pub proof fn law_call_then_return(
    m: MachineState,
    addr: u16,
    event1: Option<Event>,
    random1: u8,
    event2: Option<Event>,
    random2: u8,
)
    requires
        m.wf(),
        addr < 0x1000,
        m.sp + 1 < 16,
    ensures
        transition(m, Instruction::Call { addr }, event1, random1) matches Ok((called, _))
            && called.pc == addr && (transition(called, Instruction::Ret, event2, random2) matches Ok(
            (back, _),
        ) && back.pc == advanced(m.pc) && back.sp == m.sp),
{
    reveal(transition);
}

/// Drawing the same sprite twice at the same place restores the screen. On a
/// blank screen, the second draw of a full one-row sprite reports a
/// collision.
pub proof fn law_draw_twice(
    m: MachineState,
    x: u8,
    y: u8,
    n: u8,
    event1: Option<Event>,
    random1: u8,
    event2: Option<Event>,
    random2: u8,
)
    requires
        m.wf(),
        x < 15,
        y < 15,
        n < 16,
    ensures
        transition(m, Instruction::Drw { x, y, n }, event1, random1) matches Ok(
            (once, Signal::Redraw),
        ) && (transition(once, Instruction::Drw { x, y, n }, event2, random2) matches Ok(
            (twice, Signal::Redraw),
        ) && twice.screen == m.screen && (n == 1 && m.memory[m.index as int % (MEMORY_SIZE as int)]
            == 0xff && (forall|p: int| 0 <= p < SCREEN_SIZE ==> !m.screen[p])
            ==> twice.registers[15] == 1)),
{
    reveal(transition);
    let ins = Instruction::Drw { x, y, n };
    let once = transition(m, ins, event1, random1)->Ok_0.0;
    let twice = transition(once, ins, event2, random2)->Ok_0.0;
    let vx = m.registers[x as int];
    let vy = m.registers[y as int];
    assert(once.registers[x as int] == vx && once.registers[y as int] == vy);
    assert forall|p: int| 0 <= p < SCREEN_SIZE implies #[trigger] sprite_covers(once, vx, vy, n, p)
        == sprite_covers(m, vx, vy, n, p) by {}
    assert(twice.screen =~= m.screen);
    if n == 1 && m.memory[m.index as int % (MEMORY_SIZE as int)] == 0xff && (forall|p: int|
        0 <= p < SCREEN_SIZE ==> !m.screen[p]) {
        let pos = sprite_pixel(vx, vy, 0, 0);
        lemma_sprite_pixel(vx, vy, 0, 0);
        assert((0xffu8 >> 7u8) & 1u8 == 1u8) by (bit_vector);
        assert(sprite_covers(m, vx, vy, n, pos));
        assert(once.screen[pos]);
        assert(sprite_covers(once, vx, vy, n, pos));
    }
}

/// The screen wraps horizontally: a one-row sprite drawn at column 63 of
/// row 0 puts its first bit on column 63 and bits 1 to 7 on columns 0 to 6.
pub proof fn law_draw_wraps(m: MachineState, x: u8, y: u8, event: Option<Event>, random: u8)
    requires
        m.wf(),
        x < 16,
        y < 16,
        m.registers[x as int] == 63,
        m.registers[y as int] == 0,
    ensures
        ({
            let byte = m.memory[m.index as int % (MEMORY_SIZE as int)];
            transition(m, Instruction::Drw { x, y, n: 1 }, event, random) matches Ok((s, _))
                && s.screen[63] == (m.screen[63] != sprite_bit(byte, 0)) && forall|c: int|
                1 <= c < 8 ==> #[trigger] s.screen[c - 1] == (m.screen[c - 1] != sprite_bit(
                byte,
                c,
            ))
        }),
{
    reveal(transition);
    let byte = m.memory[m.index as int % (MEMORY_SIZE as int)];
    assert(sprite_covers(m, 63, 0, 1, 63) == sprite_bit(byte, 0));
    assert forall|c: int| 1 <= c < 8 implies sprite_covers(m, 63, 0, 1, c - 1) == sprite_bit(
        byte,
        c,
    ) by {}
}

/// Waiting for a key: a step on the wait without a resolved key changes
/// nothing and asks for a key again, so repeated steps stay put; a step with
/// a resolved key stores it and moves two bytes on.
pub proof fn law_await_key(m: MachineState, x: u8, event: Option<Event>, random: u8, k: u8)
    requires
        m.wf(),
        decoded(fetched(m)) == Some(Instruction::LdVxK { x }),
        !(event matches Some(Event::WaitingKeyPress(_))),
    ensures
        step_transition(m, event, random) == Ok::<(MachineState, Signal), crate::machine::EmulationError>(
            (m, Signal::AwaitKey),
        ),
        step_transition(m, Some(Event::WaitingKeyPress(k)), random) matches Ok((s, Signal::Nothing))
            && s.registers[x as int] == k && s.pc == advanced(m.pc),
{
    reveal(transition);
    lemma_decoded_wf(fetched(m));
}

/// Storing registers `0..=x` and loading the same registers back from the
/// same address gives the registers that were stored.
pub proof fn law_store_load_round_trip(
    m: MachineState,
    x: u8,
    event1: Option<Event>,
    random1: u8,
    event2: Option<Event>,
    random2: u8,
)
    requires
        m.wf(),
        x < 16,
    ensures
        transition(m, Instruction::LdMemVx { x }, event1, random1) matches Ok((stored, _))
            && (transition(stored, Instruction::LdVxMem { x }, event2, random2) matches Ok(
            (loaded, _),
        ) && loaded.registers == m.registers),
{
    reveal(transition);
    let stored = transition(m, Instruction::LdMemVx { x }, event1, random1)->Ok_0.0;
    let loaded = transition(stored, Instruction::LdVxMem { x }, event2, random2)->Ok_0.0;
    assert forall|i: int| 0 <= i <= x implies #[trigger] stored.memory[(m.index + i) % (
    MEMORY_SIZE as int)] == m.registers[i] by {
        let a = (m.index + i) % 4096;
        assert((a - m.index) % 4096 == i) by (nonlinear_arith)
            requires
                a == (m.index + i) % 4096,
                0 <= i < 16,
                0 <= m.index,
        ;
    }
    assert(loaded.registers =~= m.registers);
}

} // verus!
