use vstd::prelude::*;

use crate::random::fresh_rng;

verus! {

/// Width of the display in pixels.
pub const WIDTH: usize = 64;

/// Height of the display in pixels.
pub const HEIGHT: usize = 32;

/// Number of pixels on the display.
pub const SCREEN_SIZE: usize = 2048;

/// Number of addressable bytes of memory.
pub const MEMORY_SIZE: usize = 4096;

/// Address at which a program image is loaded and execution starts.
pub const PROGRAM_START: usize = 0x200;

/// Number of bytes of the built-in font: sixteen glyphs of five bytes.
pub const FONT_SIZE: usize = 80;

/// Value of a lit pixel in the framebuffer handed to the renderer.
pub const PIXEL_ON: u32 = 0x00ff_ffff;

/// Value of an unlit pixel in the framebuffer handed to the renderer.
pub const PIXEL_OFF: u32 = 0;

/// What the host must do after a step.
#[derive(Debug, PartialEq, Eq)]
pub enum Action {
    /// The framebuffer changed; present this copy of it (row-major, 64 x 32).
    DisplayScreen([u32; 2048]),
    /// The machine waits for a key; step it again with a resolved key.
    WaitForKeyPress,
}

/// Input that the host hands to a step.
#[derive(Clone, Copy, Debug, PartialEq, Eq, Structural)]
pub enum Event {
    /// This key (0x0 to 0xF) is currently held.
    KeyPress(u8),
    /// A pending wait for a key is satisfied with this key.
    WaitingKeyPress(u8),
}

/// A fatal condition that ends a run.
#[derive(Clone, Copy, Debug, PartialEq, Eq, Structural)]
pub enum EmulationError {
    /// The word at the program counter encodes no known instruction.
    UnknownOpcode(u16),
    /// A call beyond the depth of the call stack.
    StackOverflow,
    /// A return without a matching call.
    StackUnderflow,
}

/// The CHIP-8 machine: registers, memory, call stack, timers and display.
#[allow(non_snake_case)]
pub struct Chip8 {
    /// The display, row-major; each pixel is `PIXEL_ON` or `PIXEL_OFF`.
    pub screen: [u32; 2048],
    /// General-purpose registers `V0` to `VF`; `VF` doubles as the flag.
    pub v: [u8; 16],
    /// The index register.
    pub I: u16,
    /// The program counter.
    pub pc: usize,
    /// The depth of the call stack; `stack[sp]` is the latest return address.
    pub sp: usize,
    /// Main memory.
    pub memory: [u8; 4096],
    /// Saved return addresses.
    pub stack: [usize; 16],
    /// The delay timer.
    pub DT: u8,
    /// The sound timer.
    pub ST: u8,
    /// The source of the random instruction.
    pub rng: rand::rngs::ThreadRng,
}

/// The abstract state of a machine: its display as lit or unlit pixels, and
/// every register, memory byte and stack slot.
pub struct MachineState {
    pub screen: Seq<bool>,
    pub registers: Seq<u8>,
    pub index: u16,
    pub pc: usize,
    pub sp: usize,
    pub memory: Seq<u8>,
    pub stack: Seq<usize>,
    pub delay: u8,
    pub sound: u8,
}

impl MachineState {
    /// Sizes of the parts, and the bounds on the program counter, the stack
    /// pointer and the saved addresses.
    pub open spec fn wf(self) -> bool {
        &&& self.screen.len() == SCREEN_SIZE
        &&& self.registers.len() == 16
        &&& self.memory.len() == MEMORY_SIZE
        &&& self.stack.len() == 16
        &&& self.pc < MEMORY_SIZE
        &&& self.sp < 16
        &&& forall|i: int| 0 <= i < 16 ==> self.stack[i] < MEMORY_SIZE
    }
}

/// Whether a framebuffer value shows a lit pixel.
pub open spec fn lit(p: u32) -> bool {
    p != PIXEL_OFF
}

impl View for Chip8 {
    type V = MachineState;

    open spec fn view(&self) -> MachineState {
        MachineState {
            screen: self.screen@.map_values(|p: u32| lit(p)),
            registers: self.v@,
            index: self.I,
            pc: self.pc,
            sp: self.sp,
            memory: self.memory@,
            stack: self.stack@,
            delay: self.DT,
            sound: self.ST,
        }
    }
}

/// The built-in font: the glyphs of the hexadecimal digits 0 to F, five
/// rows of one byte each.
pub open spec fn font_glyphs() -> Seq<u8> {
    seq![
        0xf0u8, 0x90, 0x90, 0x90, 0xf0,
        0x20, 0x60, 0x20, 0x20, 0x70,
        0xf0, 0x10, 0xf0, 0x80, 0xf0,
        0xf0, 0x10, 0xf0, 0x10, 0xf0,
        0x90, 0x90, 0xf0, 0x10, 0x10,
        0xf0, 0x80, 0xf0, 0x10, 0xf0,
        0xf0, 0x80, 0xf0, 0x90, 0xf0,
        0xf0, 0x10, 0x20, 0x40, 0x40,
        0xf0, 0x90, 0xf0, 0x90, 0xf0,
        0xf0, 0x90, 0xf0, 0x10, 0xf0,
        0xf0, 0x90, 0xf0, 0x90, 0x90,
        0xe0, 0x90, 0xe0, 0x90, 0xe0,
        0xf0, 0x80, 0x80, 0x80, 0xf0,
        0xe0, 0x90, 0x90, 0x90, 0xe0,
        0xf0, 0x80, 0xf0, 0x80, 0xf0,
        0xf0, 0x80, 0xf0, 0x80, 0x80,
    ]
}

/// The built-in font as bytes.
pub fn font_set() -> (r: [u8; 80])
    ensures
        r@ == font_glyphs(),
{
    let glyphs: [u8; 80] = [
        0xf0, 0x90, 0x90, 0x90, 0xf0,
        0x20, 0x60, 0x20, 0x20, 0x70,
        0xf0, 0x10, 0xf0, 0x80, 0xf0,
        0xf0, 0x10, 0xf0, 0x10, 0xf0,
        0x90, 0x90, 0xf0, 0x10, 0x10,
        0xf0, 0x80, 0xf0, 0x10, 0xf0,
        0xf0, 0x80, 0xf0, 0x90, 0xf0,
        0xf0, 0x10, 0x20, 0x40, 0x40,
        0xf0, 0x90, 0xf0, 0x90, 0xf0,
        0xf0, 0x90, 0xf0, 0x10, 0xf0,
        0xf0, 0x90, 0xf0, 0x90, 0x90,
        0xe0, 0x90, 0xe0, 0x90, 0xe0,
        0xf0, 0x80, 0x80, 0x80, 0xf0,
        0xe0, 0x90, 0x90, 0x90, 0xe0,
        0xf0, 0x80, 0xf0, 0x80, 0xf0,
        0xf0, 0x80, 0xf0, 0x80, 0x80,
    ];
    proof {
        assert(glyphs@ =~= font_glyphs());
    }
    glyphs
}

/// Memory as loaded for a program image: the font at address 0, the image
/// from `PROGRAM_START` on, as much of it as fits, and zero elsewhere.
pub open spec fn initial_memory(program: Seq<u8>) -> Seq<u8> {
    Seq::new(
        MEMORY_SIZE as nat,
        |a: int|
            if a < FONT_SIZE {
                font_glyphs()[a]
            } else if PROGRAM_START <= a < PROGRAM_START + program.len() {
                program[a - PROGRAM_START]
            } else {
                0u8
            },
    )
}

/// The state of a machine freshly loaded with a program image.
pub open spec fn initial_state(program: Seq<u8>) -> MachineState {
    MachineState {
        screen: Seq::new(SCREEN_SIZE as nat, |p: int| false),
        registers: Seq::new(16, |i: int| 0u8),
        index: 0,
        pc: PROGRAM_START,
        sp: 0,
        memory: initial_memory(program),
        stack: Seq::new(16, |i: int| 0usize),
        delay: 0,
        sound: 0,
    }
}

/// A timer after one tick: one less, but never below zero.
pub open spec fn ticked(t: u8) -> u8 {
    if t > 0 {
        (t - 1) as u8
    } else {
        0
    }
}

impl Chip8 {
    /// The machine's invariant: its abstract state is well formed and every
    /// pixel holds one of the two framebuffer values.
    pub open spec fn wf(&self) -> bool {
        &&& self@.wf()
        &&& forall|p: int| 0 <= p < SCREEN_SIZE ==> #[trigger] self.screen[p] == PIXEL_ON
            || self.screen[p] == PIXEL_OFF
    }

    /// A machine with the font and the program image loaded, the program
    /// counter at `PROGRAM_START` and everything else cleared. Bytes of the
    /// image beyond the end of memory are not loaded.
    pub fn new(program: &[u8]) -> (r: Chip8)
        ensures
            r.wf(),
            r@ == initial_state(program@),
    {
        let font = font_set();
        let mut memory: [u8; 4096] = [0u8; 4096];
        let mut i: usize = 0;
        while i < FONT_SIZE
            invariant
                i <= FONT_SIZE,
                font@ == font_glyphs(),
                forall|a: int| 0 <= a < i ==> memory[a] == font_glyphs()[a],
                forall|a: int| i <= a < MEMORY_SIZE ==> memory[a] == 0,
            decreases FONT_SIZE - i,
        {
            memory[i] = font[i];
            i = i + 1;
        }
        let room: usize = MEMORY_SIZE - PROGRAM_START;
        let len: usize = if program.len() < room {
            program.len()
        } else {
            room
        };
        let mut j: usize = 0;
        while j < len
            invariant
                len <= program@.len(),
                len <= MEMORY_SIZE - PROGRAM_START,
                j <= len,
                forall|a: int| 0 <= a < FONT_SIZE ==> memory[a] == font_glyphs()[a],
                forall|a: int|
                    PROGRAM_START <= a < PROGRAM_START + j ==> memory[a] == program@[a
                        - PROGRAM_START],
                forall|a: int|
                    FONT_SIZE <= a < MEMORY_SIZE && !(PROGRAM_START <= a < PROGRAM_START + j)
                        ==> memory[a] == 0,
            decreases len - j,
        {
            memory[PROGRAM_START + j] = program[j];
            j = j + 1;
        }
        let r = Chip8 {
            screen: [0u32; 2048],
            v: [0u8; 16],
            I: 0,
            pc: PROGRAM_START,
            sp: 0,
            memory,
            stack: [0usize; 16],
            DT: 0,
            ST: 0,
            rng: fresh_rng(),
        };
        proof {
            assert(r@.memory =~= initial_memory(program@));
            assert(r@.screen =~= initial_state(program@).screen);
            assert(r@.registers =~= initial_state(program@).registers);
            assert(r@.stack =~= initial_state(program@).stack);
        }
        r
    }

    /// One tick of the timers: each that is above zero goes down by one.
    pub fn decreament_timer(&mut self)
        requires
            old(self).wf(),
        ensures
            final(self).wf(),
            final(self)@ == (MachineState {
                delay: ticked(old(self)@.delay),
                sound: ticked(old(self)@.sound),
                ..old(self)@
            }),
            final(self).screen == old(self).screen,
    {
        if self.DT > 0 {
            self.DT = self.DT - 1;
        }
        if self.ST > 0 {
            self.ST = self.ST - 1;
        }
    }
}

} // verus!
