use vstd::prelude::*;
use vstd::wrapping::u8_specs;

use crate::instruction::{decode, Instruction};
use crate::machine::{Action, Chip8, EmulationError, Event, MachineState, MEMORY_SIZE};
use crate::random::random_byte;
use crate::semantics::{
    advanced, fetched, loaded_registers, reports, step_transition, stored_registers, transition,
    with_reg, with_reg_and_flag,
};

verus! {

/// Where the font glyph of a hexadecimal digit starts in memory.
fn get_font_location(digit: u8) -> (r: u16)
    requires
        digit <= 0x0f,
    ensures
        r == 5 * digit,
{
    5 * (digit as u16)
}

/// Wrapping addition and subtraction of bytes are arithmetic modulo 256.
proof fn lemma_wrapping(a: u8, b: u8)
    ensures
        u8_specs::wrapping_add(a, b) == ((a + b) % 256) as u8,
        u8_specs::wrapping_sub(a, b) == ((a - b) % 256) as u8,
{
}

/// The offset from `base` to `a`, both taken within memory, is `i` exactly
/// when `a` is `base + i` wrapped into memory.
proof fn lemma_offset(base: int, i: int, a: int)
    requires
        0 <= i < 16,
        0 <= a < MEMORY_SIZE,
        0 <= base,
    ensures
        ((a - base) % (MEMORY_SIZE as int) == i) == (a == (base + i) % (MEMORY_SIZE as int)),
{
    assert(((a - base) % 4096 == i) == (a == (base + i) % 4096)) by (nonlinear_arith)
        requires
            0 <= i < 16,
            0 <= a < 4096,
            0 <= base,
    ;
}

/// Whether `ins` clears the screen, jumps, calls or returns.
spec fn is_jump(ins: Instruction) -> bool {
    ins is Cls || ins is Ret || ins is Sys || ins is Jp || ins is Call || ins is JpV0
}

/// Whether `ins` is a conditional skip.
spec fn is_skip(ins: Instruction) -> bool {
    ins is SeByte || ins is SneByte || ins is SeReg || ins is SneReg || ins is Skp || ins is Sknp
}

/// Whether `ins` writes one register and nothing else.
spec fn is_load(ins: Instruction) -> bool {
    ins is LdByte || ins is AddByte || ins is LdReg || ins is Or || ins is And || ins is Xor
        || ins is Rnd || ins is LdVxDt
}

/// Whether `ins` works on the index register, the timers or memory.
spec fn is_memory(ins: Instruction) -> bool {
    ins is LdI || ins is AddI || ins is LdF || ins is LdDtVx || ins is LdStVx || ins is LdB
        || ins is LdMemVx || ins is LdVxMem
}

impl Chip8 {
    /// Sets the program counter to a twelve-bit address.
    fn jump(&mut self, addr: u16)
        requires
            old(self).wf(),
            addr < 0x1000,
        ensures
            final(self).wf(),
            final(self)@ == (MachineState { pc: addr as usize, ..old(self)@ }),
            final(self).screen == old(self).screen,
    {
        self.pc = addr as usize;
    }

    /// Saves a return address one level deeper on the call stack.
    fn push_stack(&mut self, addr: usize)
        requires
            old(self).wf(),
            old(self).sp + 1 < 16,
            addr < MEMORY_SIZE,
        ensures
            final(self).wf(),
            final(self)@ == (MachineState {
                sp: (old(self).sp + 1) as usize,
                stack: old(self)@.stack.update(old(self).sp + 1, addr),
                ..old(self)@
            }),
            final(self).screen == old(self).screen,
    {
        self.sp = self.sp + 1;
        self.stack[self.sp] = addr;
    }

    /// Skips the next instruction.
    fn skip(&mut self)
        requires
            old(self).wf(),
        ensures
            final(self).wf(),
            final(self)@ == (MachineState { pc: advanced(old(self).pc), ..old(self)@ }),
            final(self).screen == old(self).screen,
    {
        self.pc = (self.pc + 2) % MEMORY_SIZE;
    }

    /// Stores registers `0..=x` into memory from the index register on.
    fn store_registers(&mut self, x: u8)
        requires
            old(self).wf(),
            x < 16,
        ensures
            final(self).wf(),
            final(self)@ == (MachineState {
                memory: stored_registers(old(self)@, x),
                ..old(self)@
            }),
            final(self).screen == old(self).screen,
    {
        let ghost m = self@;
        let mut i: usize = 0;
        while i <= x as usize
            invariant
                x < 16,
                i <= x + 1,
                self.wf(),
                self.screen == old(self).screen,
                self@ == (MachineState { memory: self@.memory, ..m }),
                forall|a: int|
                    0 <= a < MEMORY_SIZE ==> #[trigger] self@.memory[a] == {
                        let offset = (a - m.index) % (MEMORY_SIZE as int);
                        if offset < i {
                            m.registers[offset]
                        } else {
                            m.memory[a]
                        }
                    },
            decreases x + 1 - i,
        {
            let a = (self.I as usize + i) % MEMORY_SIZE;
            let ghost before = self@.memory;
            self.memory[a] = self.v[i];
            proof {
                assert forall|b: int| 0 <= b < MEMORY_SIZE implies #[trigger] self@.memory[b] == {
                    let offset = (b - m.index) % (MEMORY_SIZE as int);
                    if offset < i + 1 {
                        m.registers[offset]
                    } else {
                        m.memory[b]
                    }
                } by {
                    lemma_offset(m.index as int, i as int, b);
                }
            }
            i = i + 1;
        }
        proof {
            assert(self@.memory =~= stored_registers(m, x));
        }
    }

    /// Loads registers `0..=x` from memory from the index register on.
    fn load_registers(&mut self, x: u8)
        requires
            old(self).wf(),
            x < 16,
        ensures
            final(self).wf(),
            final(self)@ == (MachineState {
                registers: loaded_registers(old(self)@, x),
                ..old(self)@
            }),
            final(self).screen == old(self).screen,
    {
        let ghost m = self@;
        let mut i: usize = 0;
        while i <= x as usize
            invariant
                x < 16,
                i <= x + 1,
                self.wf(),
                self.screen == old(self).screen,
                self@ == (MachineState { registers: self@.registers, ..m }),
                forall|k: int|
                    0 <= k < 16 ==> #[trigger] self@.registers[k] == if k < i {
                        m.memory[(m.index + k) % (MEMORY_SIZE as int)]
                    } else {
                        m.registers[k]
                    },
            decreases x + 1 - i,
        {
            self.v[i] = self.memory[(self.I as usize + i) % MEMORY_SIZE];
            i = i + 1;
        }
        proof {
            assert(self@.registers =~= loaded_registers(m, x));
        }
    }

    /// Executes a clear of the screen, a jump, a call or a return.
    #[verifier::rlimit(100)]
    fn execute_jump(&mut self, ins: Instruction, event: Option<Event>, random: u8) -> (r: Result<
        Option<Action>,
        EmulationError,
    >)
        requires
            old(self).wf(),
            ins.wf(),
            is_jump(ins),
        ensures
            final(self).wf(),
            reports(old(self)@, transition(old(self)@, ins, event, random), *final(self), r),
    {
        proof {
            reveal(transition);
        }
        match ins {
            Instruction::Ret => {
                if self.sp == 0 {
                    return Err(EmulationError::StackUnderflow);
                }
            },
            Instruction::Call { addr: _ } => {
                if self.sp + 1 >= 16 {
                    return Err(EmulationError::StackOverflow);
                }
            },
            _ => {},
        }
        self.skip();
        match ins {
            Instruction::Cls => {
                self.screen = [0u32; 2048];
                proof {
                    assert(self@.screen =~= Seq::new(2048, |p: int| false));
                }
                Ok(Some(Action::DisplayScreen(self.screen)))
            },
            Instruction::Ret => {
                self.pc = self.stack[self.sp];
                self.sp = self.sp - 1;
                Ok(None)
            },
            Instruction::Sys { addr } => {
                self.jump(addr);
                Ok(None)
            },
            Instruction::Jp { addr } => {
                self.jump(addr);
                Ok(None)
            },
            Instruction::Call { addr } => {
                self.push_stack(self.pc);
                self.jump(addr);
                Ok(None)
            },
            Instruction::JpV0 { addr } => {
                self.pc = (addr as usize + self.v[0] as usize) % MEMORY_SIZE;
                Ok(None)
            },
            _ => Ok(None),
        }
    }

    /// Executes a conditional skip.
    #[verifier::rlimit(100)]
    fn execute_skip(&mut self, ins: Instruction, event: Option<Event>, random: u8) -> (r: Result<
        Option<Action>,
        EmulationError,
    >)
        requires
            old(self).wf(),
            ins.wf(),
            is_skip(ins),
        ensures
            final(self).wf(),
            reports(old(self)@, transition(old(self)@, ins, event, random), *final(self), r),
    {
        proof {
            reveal(transition);
        }
        self.skip();
        match ins {
            Instruction::SeByte { x, kk } => {
                if self.v[x as usize] == kk {
                    self.skip();
                }
                Ok(None)
            },
            Instruction::SneByte { x, kk } => {
                if self.v[x as usize] != kk {
                    self.skip();
                }
                Ok(None)
            },
            Instruction::SeReg { x, y } => {
                if self.v[x as usize] == self.v[y as usize] {
                    self.skip();
                }
                Ok(None)
            },
            Instruction::SneReg { x, y } => {
                if self.v[x as usize] != self.v[y as usize] {
                    self.skip();
                }
                Ok(None)
            },
            Instruction::Skp { x } => {
                match event {
                    Some(Event::KeyPress(k)) => {
                        if self.v[x as usize] % 16 == k {
                            self.skip();
                        }
                    },
                    _ => {},
                }
                Ok(None)
            },
            Instruction::Sknp { x } => {
                match event {
                    Some(Event::KeyPress(k)) => {
                        if self.v[x as usize] % 16 != k {
                            self.skip();
                        }
                    },
                    _ => {
                        self.skip();
                    },
                }
                Ok(None)
            },
            _ => Ok(None),
        }
    }

    /// Sets register `x`.
    fn set_register(&mut self, x: u8, val: u8)
        requires
            old(self).wf(),
            x < 16,
        ensures
            final(self).wf(),
            final(self)@ == with_reg(old(self)@, x, val),
            final(self).screen == old(self).screen,
    {
        self.v[x as usize] = val;
    }

    /// Sets register `x` and then the flag register.
    fn set_register_and_flag(&mut self, x: u8, val: u8, flag: u8)
        requires
            old(self).wf(),
            x < 16,
        ensures
            final(self).wf(),
            final(self)@ == with_reg_and_flag(old(self)@, x, val, flag),
            final(self).screen == old(self).screen,
    {
        self.v[x as usize] = val;
        self.v[0xf] = flag;
    }

    /// Executes a load, an add of a byte, a logic instruction or the random byte.
    #[verifier::rlimit(100)]
    fn execute_load(&mut self, ins: Instruction, event: Option<Event>, random: u8) -> (r: Result<
        Option<Action>,
        EmulationError,
    >)
        requires
            old(self).wf(),
            ins.wf(),
            is_load(ins),
        ensures
            final(self).wf(),
            reports(old(self)@, transition(old(self)@, ins, event, random), *final(self), r),
    {
        proof {
            reveal(transition);
        }
        let ghost m = self@;
        self.skip();
        match ins {
            Instruction::LdByte { x, kk } => self.set_register(x, kk),
            Instruction::AddByte { x, kk } => {
                let vx = self.v[x as usize];
                self.set_register(x, vx.wrapping_add(kk));
            },
            Instruction::LdReg { x, y } => {
                let vy = self.v[y as usize];
                self.set_register(x, vy);
            },
            Instruction::Or { x, y } => {
                let val = self.v[x as usize] | self.v[y as usize];
                self.set_register(x, val);
            },
            Instruction::And { x, y } => {
                let val = self.v[x as usize] & self.v[y as usize];
                self.set_register(x, val);
            },
            Instruction::Xor { x, y } => {
                let val = self.v[x as usize] ^ self.v[y as usize];
                self.set_register(x, val);
            },
            Instruction::Rnd { x, kk } => self.set_register(x, random & kk),
            Instruction::LdVxDt { x } => {
                let dt = self.DT;
                self.set_register(x, dt);
            },
            _ => {},
        }
        Ok(None)
    }

    /// Executes an add or a subtract of two registers, which sets the flag register.
    #[verifier::rlimit(100)]
    fn execute_add(&mut self, ins: Instruction, event: Option<Event>, random: u8) -> (r: Result<
        Option<Action>,
        EmulationError,
    >)
        requires
            old(self).wf(),
            ins.wf(),
            ins is AddReg || ins is Sub || ins is Subn,
        ensures
            final(self).wf(),
            reports(old(self)@, transition(old(self)@, ins, event, random), *final(self), r),
    {
        proof {
            reveal(transition);
        }
        self.skip();
        match ins {
            Instruction::AddReg { x, y } => {
                let vx = self.v[x as usize];
                let vy = self.v[y as usize];
                let carry: u8 = if vx as u16 + vy as u16 > 255 {
                    1
                } else {
                    0
                };
                let sum = vx.wrapping_add(vy);
                proof {
                    lemma_wrapping(vx, vy);
                }
                self.set_register_and_flag(x, sum, carry);
            },
            Instruction::Sub { x, y } => {
                let vx = self.v[x as usize];
                let vy = self.v[y as usize];
                let no_borrow: u8 = if vx > vy {
                    1
                } else {
                    0
                };
                let diff = vx.wrapping_sub(vy);
                proof {
                    lemma_wrapping(vx, vy);
                }
                self.set_register_and_flag(x, diff, no_borrow);
            },
            Instruction::Subn { x, y } => {
                let vx = self.v[x as usize];
                let vy = self.v[y as usize];
                let no_borrow: u8 = if vy > vx {
                    1
                } else {
                    0
                };
                let diff = vy.wrapping_sub(vx);
                proof {
                    lemma_wrapping(vy, vx);
                }
                self.set_register_and_flag(x, diff, no_borrow);
            },
            _ => {},
        }
        Ok(None)
    }

    /// Executes a shift, which sets the flag register to the bit shifted out.
    #[verifier::rlimit(100)]
    fn execute_shift(&mut self, ins: Instruction, event: Option<Event>, random: u8) -> (r: Result<
        Option<Action>,
        EmulationError,
    >)
        requires
            old(self).wf(),
            ins.wf(),
            ins is Shr || ins is Shl,
        ensures
            final(self).wf(),
            reports(old(self)@, transition(old(self)@, ins, event, random), *final(self), r),
    {
        proof {
            reveal(transition);
        }
        self.skip();
        match ins {
            Instruction::Shr { x, y: _ } => {
                let vx = self.v[x as usize];
                self.set_register_and_flag(x, vx / 2, vx % 2);
            },
            Instruction::Shl { x, y: _ } => {
                let vx = self.v[x as usize];
                self.set_register_and_flag(x, ((vx as u16 * 2) % 256) as u8, vx / 128);
            },
            _ => {},
        }
        Ok(None)
    }

    /// Executes an instruction on the index register, the timers or memory.
    #[verifier::rlimit(100)]
    fn execute_memory(&mut self, ins: Instruction, event: Option<Event>, random: u8) -> (r: Result<
        Option<Action>,
        EmulationError,
    >)
        requires
            old(self).wf(),
            ins.wf(),
            is_memory(ins),
        ensures
            final(self).wf(),
            reports(old(self)@, transition(old(self)@, ins, event, random), *final(self), r),
    {
        proof {
            reveal(transition);
        }
        self.skip();
        match ins {
            Instruction::LdI { addr } => {
                self.I = addr;
            },
            Instruction::AddI { x } => {
                self.I = self.I.wrapping_add(self.v[x as usize] as u16);
            },
            Instruction::LdF { x } => {
                self.I = get_font_location(self.v[x as usize] % 16);
            },
            Instruction::LdDtVx { x } => {
                self.DT = self.v[x as usize];
            },
            Instruction::LdStVx { x } => {
                self.ST = self.v[x as usize];
            },
            Instruction::LdB { x } => {
                let val = self.v[x as usize];
                let base = self.I as usize;
                self.memory[base % MEMORY_SIZE] = val / 100;
                self.memory[(base + 1) % MEMORY_SIZE] = (val / 10) % 10;
                self.memory[(base + 2) % MEMORY_SIZE] = val % 10;
            },
            Instruction::LdMemVx { x } => self.store_registers(x),
            Instruction::LdVxMem { x } => self.load_registers(x),
            _ => {},
        }
        Ok(None)
    }

    /// Draws a sprite or waits for a key.
    fn execute_display(&mut self, ins: Instruction, event: Option<Event>, random: u8) -> (r: Result<
        Option<Action>,
        EmulationError,
    >)
        requires
            old(self).wf(),
            ins.wf(),
            ins is Drw || ins is LdVxK,
        ensures
            final(self).wf(),
            reports(old(self)@, transition(old(self)@, ins, event, random), *final(self), r),
    {
        proof {
            reveal(transition);
        }
        match ins {
            Instruction::Drw { x, y, n } => {
                let vx = self.v[x as usize];
                let vy = self.v[y as usize];
                let collision = self.draw_sprite(vx, vy, n);
                self.set_register(0xf, if collision {
                    1
                } else {
                    0
                });
                self.skip();
                Ok(Some(Action::DisplayScreen(self.screen)))
            },
            Instruction::LdVxK { x } => {
                match event {
                    Some(Event::WaitingKeyPress(k)) => {
                        self.skip();
                        self.set_register(x, k);
                        Ok(None)
                    },
                    _ => Ok(Some(Action::WaitForKeyPress)),
                }
            },
            _ => Ok(None),
        }
    }

    /// Executes one decoded instruction: moves the program counter on (but
    /// for an unresolved wait for a key), applies the instruction's effect
    /// and says what the host must do. `random` is the byte that the random
    /// instruction masks.
    ///
    /// A return with an empty call stack and a call with a full one are
    /// errors, and leave the machine unchanged.
    pub fn execute(&mut self, ins: Instruction, event: Option<Event>, random: u8) -> (r: Result<
        Option<Action>,
        EmulationError,
    >)
        requires
            old(self).wf(),
            ins.wf(),
        ensures
            final(self).wf(),
            reports(old(self)@, transition(old(self)@, ins, event, random), *final(self), r),
    {
        match ins {
            Instruction::Cls | Instruction::Ret | Instruction::Sys { .. } | Instruction::Jp { .. }
            | Instruction::Call { .. } | Instruction::JpV0 { .. } => self.execute_jump(ins, event, random),
            Instruction::SeByte { .. } | Instruction::SneByte { .. } | Instruction::SeReg { .. }
            | Instruction::SneReg { .. } | Instruction::Skp { .. } | Instruction::Sknp { .. } => {
                self.execute_skip(ins, event, random)
            },
            Instruction::LdByte { .. } | Instruction::AddByte { .. } | Instruction::LdReg { .. }
            | Instruction::Or { .. } | Instruction::And { .. } | Instruction::Xor { .. }
            | Instruction::Rnd { .. } | Instruction::LdVxDt { .. } => self.execute_load(ins, event, random),
            Instruction::AddReg { .. } | Instruction::Sub { .. } | Instruction::Subn { .. } => {
                self.execute_add(ins, event, random)
            },
            Instruction::Shr { .. } | Instruction::Shl { .. } => self.execute_shift(ins, event, random),
            Instruction::LdI { .. } | Instruction::AddI { .. } | Instruction::LdF { .. }
            | Instruction::LdDtVx { .. } | Instruction::LdStVx { .. } | Instruction::LdB { .. }
            | Instruction::LdMemVx { .. } | Instruction::LdVxMem { .. } => self.execute_memory(ins, event, random),
            Instruction::Drw { .. } | Instruction::LdVxK { .. } => self.execute_display(ins, event, random),
        }
    }

    /// One step of the machine: fetches the big-endian word at the program
    /// counter, decodes it and executes it, with `random` as the byte for the
    /// random instruction. A word that encodes no instruction is an error
    /// and leaves the machine unchanged.
    pub fn step(&mut self, event: Option<Event>, random: u8) -> (r: Result<
        Option<Action>,
        EmulationError,
    >)
        requires
            old(self).wf(),
        ensures
            final(self).wf(),
            reports(old(self)@, step_transition(old(self)@, event, random), *final(self), r),
    {
        let hi = self.memory[self.pc];
        let lo = self.memory[(self.pc + 1) % MEMORY_SIZE];
        let op: u16 = (hi as u16) * 256 + (lo as u16);
        proof {
            assert(op == fetched(self@));
        }
        match decode(op) {
            None => Err(EmulationError::UnknownOpcode(op)),
            Some(ins) => self.execute(ins, event, random),
        }
    }

    /// One step of the machine, with a byte from the machine's random source
    /// for the random instruction: the result is that of `step` for some
    /// byte.
    pub fn emulate_op(&mut self, event: Option<Event>) -> (r: Result<
        Option<Action>,
        EmulationError,
    >)
        requires
            old(self).wf(),
        ensures
            final(self).wf(),
            exists|random: u8|
                reports(
                    old(self)@,
                    #[trigger] step_transition(old(self)@, event, random),
                    *final(self),
                    r,
                ),
    {
        let random = random_byte(&mut self.rng);
        self.step(event, random)
    }
}

} // verus!
