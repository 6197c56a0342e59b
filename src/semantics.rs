use vstd::prelude::*;

use crate::instruction::{decoded, Instruction};
use crate::machine::{
    Action, Chip8, EmulationError, Event, MachineState, MEMORY_SIZE, SCREEN_SIZE,
};
use crate::sprite::{collides, drawn_screen};

verus! {

/// What a step asks of the host, in the abstract.
pub enum Signal {
    Nothing,
    Redraw,
    AwaitKey,
}

/// The address two bytes on, wrapping within memory.
pub open spec fn advanced(pc: usize) -> usize {
    ((pc + 2) % (MEMORY_SIZE as int)) as usize
}

/// The key that an event reports as held, if any.
pub open spec fn held_key(event: Option<Event>) -> Option<u8> {
    match event {
        Some(Event::KeyPress(k)) => Some(k),
        _ => None,
    }
}

/// Whether an event resolves a pending wait for a key.
pub open spec fn resolves_wait(event: Option<Event>) -> bool {
    event matches Some(Event::WaitingKeyPress(_))
}

/// The value of register `x`.
pub open spec fn reg(m: MachineState, x: u8) -> u8 {
    m.registers[x as int]
}

/// The state with register `x` set to `val`.
pub open spec fn with_reg(m: MachineState, x: u8, val: u8) -> MachineState {
    MachineState { registers: m.registers.update(x as int, val), ..m }
}

/// The state with register `x` set to `val` and then the flag register to
/// `flag`: where `x` is the flag register, the flag wins.
pub open spec fn with_reg_and_flag(m: MachineState, x: u8, val: u8, flag: u8) -> MachineState {
    with_reg(with_reg(m, x, val), 15, flag)
}

/// The state with the next instruction skipped where `cond` holds.
pub open spec fn skip_if(m: MachineState, cond: bool) -> MachineState {
    if cond {
        MachineState { pc: advanced(m.pc), ..m }
    } else {
        m
    }
}

/// Memory with the decimal digits of `val` at `index`, `index + 1` and
/// `index + 2`, wrapping within memory.
pub open spec fn bcd_memory(mem: Seq<u8>, index: u16, val: u8) -> Seq<u8> {
    mem.update(index as int % MEMORY_SIZE as int, (val / 100) as u8).update(
        (index as int + 1) % MEMORY_SIZE as int,
        ((val / 10) % 10) as u8,
    ).update((index as int + 2) % MEMORY_SIZE as int, (val % 10) as u8)
}

/// Memory with registers `0..=x` stored from the index register on,
/// wrapping within memory.
pub open spec fn stored_registers(m: MachineState, x: u8) -> Seq<u8> {
    Seq::new(
        MEMORY_SIZE as nat,
        |a: int|
            {
                let offset = (a - m.index) % (MEMORY_SIZE as int);
                if offset <= x {
                    m.registers[offset]
                } else {
                    m.memory[a]
                }
            },
    )
}

/// Registers with `0..=x` loaded from memory from the index register on,
/// wrapping within memory.
pub open spec fn loaded_registers(m: MachineState, x: u8) -> Seq<u8> {
    Seq::new(
        16,
        |i: int|
            if i <= x {
                m.memory[(m.index + i) % (MEMORY_SIZE as int)]
            } else {
                m.registers[i]
            },
    )
}

/// The effect of executing `ins` on state `m`, with `event` from the host and
/// `random` as the byte drawn for the random instruction: the next state and
/// what the host must do, or the error that ends the run.
///
/// The program counter moves two bytes on before the instruction's own
/// effect, except while the wait for a key is unresolved.
#[verifier::opaque]
pub open spec fn transition(m: MachineState, ins: Instruction, event: Option<Event>, random: u8) -> Result<
    (MachineState, Signal),
    EmulationError,
> {
    let waiting = ins is LdVxK && !resolves_wait(event);
    let s = MachineState { pc: if waiting { m.pc } else { advanced(m.pc) }, ..m };
    match ins {
        Instruction::Cls => Ok(
            (MachineState { screen: Seq::new(SCREEN_SIZE as nat, |p: int| false), ..s }, Signal::Redraw),
        ),
        Instruction::Ret => if m.sp == 0 {
            Err(EmulationError::StackUnderflow)
        } else {
            Ok(
                (
                    MachineState { pc: m.stack[m.sp as int], sp: (m.sp - 1) as usize, ..s },
                    Signal::Nothing,
                ),
            )
        },
        Instruction::Sys { addr } | Instruction::Jp { addr } => Ok(
            (MachineState { pc: addr as usize, ..s }, Signal::Nothing),
        ),
        Instruction::Call { addr } => if m.sp + 1 >= 16 {
            Err(EmulationError::StackOverflow)
        } else {
            Ok(
                (
                    MachineState {
                        pc: addr as usize,
                        sp: (m.sp + 1) as usize,
                        stack: m.stack.update(m.sp + 1, s.pc),
                        ..s
                    },
                    Signal::Nothing,
                ),
            )
        },
        Instruction::SeByte { x, kk } => Ok((skip_if(s, reg(m, x) == kk), Signal::Nothing)),
        Instruction::SneByte { x, kk } => Ok((skip_if(s, reg(m, x) != kk), Signal::Nothing)),
        Instruction::SeReg { x, y } => Ok((skip_if(s, reg(m, x) == reg(m, y)), Signal::Nothing)),
        Instruction::SneReg { x, y } => Ok((skip_if(s, reg(m, x) != reg(m, y)), Signal::Nothing)),
        Instruction::LdByte { x, kk } => Ok((with_reg(s, x, kk), Signal::Nothing)),
        Instruction::AddByte { x, kk } => Ok(
            (with_reg(s, x, ((reg(m, x) + kk) % 256) as u8), Signal::Nothing),
        ),
        Instruction::LdReg { x, y } => Ok((with_reg(s, x, reg(m, y)), Signal::Nothing)),
        Instruction::Or { x, y } => Ok((with_reg(s, x, reg(m, x) | reg(m, y)), Signal::Nothing)),
        Instruction::And { x, y } => Ok((with_reg(s, x, reg(m, x) & reg(m, y)), Signal::Nothing)),
        Instruction::Xor { x, y } => Ok((with_reg(s, x, reg(m, x) ^ reg(m, y)), Signal::Nothing)),
        Instruction::AddReg { x, y } => Ok(
            (
                with_reg_and_flag(
                    s,
                    x,
                    ((reg(m, x) + reg(m, y)) % 256) as u8,
                    if reg(m, x) + reg(m, y) > 255 {
                        1
                    } else {
                        0
                    },
                ),
                Signal::Nothing,
            ),
        ),
        Instruction::Sub { x, y } => Ok(
            (
                with_reg_and_flag(
                    s,
                    x,
                    ((reg(m, x) - reg(m, y)) % 256) as u8,
                    if reg(m, x) > reg(m, y) {
                        1
                    } else {
                        0
                    },
                ),
                Signal::Nothing,
            ),
        ),
        Instruction::Shr { x, y: _ } => Ok(
            (with_reg_and_flag(s, x, (reg(m, x) / 2) as u8, (reg(m, x) % 2) as u8), Signal::Nothing),
        ),
        Instruction::Subn { x, y } => Ok(
            (
                with_reg_and_flag(
                    s,
                    x,
                    ((reg(m, y) - reg(m, x)) % 256) as u8,
                    if reg(m, y) > reg(m, x) {
                        1
                    } else {
                        0
                    },
                ),
                Signal::Nothing,
            ),
        ),
        Instruction::Shl { x, y: _ } => Ok(
            (
                with_reg_and_flag(s, x, ((reg(m, x) * 2) % 256) as u8, (reg(m, x) / 128) as u8),
                Signal::Nothing,
            ),
        ),
        Instruction::LdI { addr } => Ok((MachineState { index: addr, ..s }, Signal::Nothing)),
        Instruction::JpV0 { addr } => Ok(
            (
                MachineState { pc: ((addr + reg(m, 0)) % (MEMORY_SIZE as int)) as usize, ..s },
                Signal::Nothing,
            ),
        ),
        Instruction::Rnd { x, kk } => Ok((with_reg(s, x, random & kk), Signal::Nothing)),
        Instruction::Drw { x, y, n } => Ok(
            (
                with_reg(
                    MachineState { screen: drawn_screen(m, reg(m, x), reg(m, y), n), ..s },
                    15,
                    if collides(m, reg(m, x), reg(m, y), n) {
                        1
                    } else {
                        0
                    },
                ),
                Signal::Redraw,
            ),
        ),
        Instruction::Skp { x } => Ok(
            (skip_if(s, held_key(event) == Some(reg(m, x) % 16)), Signal::Nothing),
        ),
        Instruction::Sknp { x } => Ok(
            (skip_if(s, held_key(event) != Some(reg(m, x) % 16)), Signal::Nothing),
        ),
        Instruction::LdVxDt { x } => Ok((with_reg(s, x, m.delay), Signal::Nothing)),
        Instruction::LdVxK { x } => match event {
            Some(Event::WaitingKeyPress(k)) => Ok((with_reg(s, x, k), Signal::Nothing)),
            _ => Ok((s, Signal::AwaitKey)),
        },
        Instruction::LdDtVx { x } => Ok((MachineState { delay: reg(m, x), ..s }, Signal::Nothing)),
        Instruction::LdStVx { x } => Ok((MachineState { sound: reg(m, x), ..s }, Signal::Nothing)),
        Instruction::AddI { x } => Ok(
            (MachineState { index: ((m.index + reg(m, x)) % 0x10000) as u16, ..s }, Signal::Nothing),
        ),
        Instruction::LdF { x } => Ok(
            (MachineState { index: (5 * (reg(m, x) % 16)) as u16, ..s }, Signal::Nothing),
        ),
        Instruction::LdB { x } => Ok(
            (MachineState { memory: bcd_memory(m.memory, m.index, reg(m, x)), ..s }, Signal::Nothing),
        ),
        Instruction::LdMemVx { x } => Ok(
            (MachineState { memory: stored_registers(m, x), ..s }, Signal::Nothing),
        ),
        Instruction::LdVxMem { x } => Ok(
            (MachineState { registers: loaded_registers(m, x), ..s }, Signal::Nothing),
        ),
    }
}

/// The instruction word at the program counter, big-endian, wrapping within
/// memory.
pub open spec fn fetched(m: MachineState) -> u16 {
    (m.memory[m.pc as int] * 256 + m.memory[(m.pc + 1) % (MEMORY_SIZE as int)]) as u16
}

/// The effect of one step: fetch, decode, execute.
pub open spec fn step_transition(m: MachineState, event: Option<Event>, random: u8) -> Result<
    (MachineState, Signal),
    EmulationError,
> {
    match decoded(fetched(m)) {
        None => Err(EmulationError::UnknownOpcode(fetched(m))),
        Some(ins) => transition(m, ins, event, random),
    }
}

/// The host-facing result for a signal, with the framebuffer after the step.
pub open spec fn action_for(sig: Signal, screen: [u32; 2048]) -> Option<Action> {
    match sig {
        Signal::Nothing => None,
        Signal::Redraw => Some(Action::DisplayScreen(screen)),
        Signal::AwaitKey => Some(Action::WaitForKeyPress),
    }
}

/// A step from state `before` to machine `after` returned `r` as the
/// abstract effect `t` says: the state it gives and the matching action, or
/// the error with nothing changed.
pub open spec fn reports(
    before: MachineState,
    t: Result<(MachineState, Signal), EmulationError>,
    after: Chip8,
    r: Result<Option<Action>, EmulationError>,
) -> bool {
    match t {
        Ok((next, sig)) => after@ == next && r == Ok::<Option<Action>, EmulationError>(
            action_for(sig, after.screen),
        ),
        Err(e) => after@ == before && r == Err::<Option<Action>, EmulationError>(e),
    }
}

} // verus!
