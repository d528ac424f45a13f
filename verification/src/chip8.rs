use vstd::prelude::*;
use crate::display::Display;
use crate::fonts::FONT_SET;
use crate::keyboard::Keyboard;
use crate::memory::Ram;
use crate::registers::Register;
use crate::stack::Stack;
use crate::timers::Timers;
use crate::zeros::{zeroed, zeroed_words};

verus! {

/// How the program counter moves after an instruction.
#[derive(PartialEq, Eq, Structural, Debug)]
pub enum ProgramCounter {
    Next,
    Skip,
    Jump(usize),
}

impl ProgramCounter {
    /// `Skip` when the condition holds, `Next` otherwise.
    pub fn skip_if(condition: bool) -> (pc: ProgramCounter)
        ensures
            pc == (if condition { ProgramCounter::Skip } else { ProgramCounter::Next }),
    {
        if condition {
            ProgramCounter::Skip
        } else {
            ProgramCounter::Next
        }
    }
}

/// What a cycle asks its caller to report: an instruction it does not know,
/// and the sound timer running out.
pub struct CycleOutcome {
    pub unknown_opcode: bool,
    pub sound: bool,
}

/// The whole machine state.
pub struct Chip8 {
    pub ram: Ram,
    pub register: Register,
    pub display: Display,
    pub timers: Timers,
    pub opcode: u16,
    pub stack: Stack,
    pub keyboard: Keyboard,
}

/// The instruction stored at `addr`: the byte there is the high byte, the
/// next one the low byte.
pub open spec fn opcode_at(program: Seq<u8>, addr: int) -> int {
    program[addr] * 256 + program[addr + 1]
}

/// Program memory after a ROM image has been copied to address 0x200.
pub open spec fn loaded(program: Seq<u8>, rom: Seq<u8>) -> Seq<u8> {
    program.subrange(0, 0x200) + rom + program.subrange(0x200 + rom.len() as int, program.len() as int)
}

/// The instruction family: the top four bits of the instruction word.
pub open spec fn family(opcode: u16) -> int {
    opcode as int / 0x1000
}

/// The registers after one instruction: an `ANNN` instruction loads the
/// index register with `NNN`, the instruction's low twelve bits, and moves
/// to the next instruction; every other instruction leaves the registers as
/// they were.
pub open spec fn executed(r: Register, opcode: u16) -> Register {
    if family(opcode) == 0xA {
        Register { vx: r.vx, i: (opcode % 0x1000) as u16, pc: (r.pc + 2) as u16 }
    } else {
        r
    }
}

/// The instructions that the machine reports as unknown: all but the `ANNN`
/// family and, of the `0NNN` family, those whose low four bits are 0x0
/// (clear screen, `00E0`) or 0xE (return from subroutine, `00EE`).
pub open spec fn is_unknown_opcode(opcode: u16) -> bool {
    !(family(opcode) == 0xA || (family(opcode) == 0 && (opcode % 16 == 0 || opcode % 16 == 0xE)))
}

/// One count-down step: each timer above zero drops by one.
pub open spec fn ticked(t: Timers) -> Timers {
    Timers {
        delay_timer: if t.delay_timer > 0 { (t.delay_timer - 1) as u8 } else { 0 },
        sound_timer: if t.sound_timer > 0 { (t.sound_timer - 1) as u8 } else { 0 },
    }
}

impl Chip8 {
    /// The instruction word at the program counter.
    pub open spec fn current_opcode(self) -> u16 {
        opcode_at(self.ram.program@, self.register.pc as int) as u16
    }

    /// A machine ready to run: the font in the interpreter area, the program
    /// counter at 0x200, both timers at 60, everything else zero.
    pub fn new() -> (c: Self)
        ensures
            c.ram.size == 4096,
            c.ram.interp@ == FONT_SET@ + zeroed(432),
            c.ram.program@ == zeroed(3584),
            c.register.vx@ == zeroed(16),
            c.register.i == 0,
            c.register.pc == 0x200,
            c.display@ == zeroed(2048),
            c.timers.delay_timer == 60,
            c.timers.sound_timer == 60,
            c.opcode == 0,
            c.stack.data@ == zeroed_words(16),
            c.stack.sp == 0,
            c.keyboard.key@ == zeroed(16),
    {
        let mut ram = Ram::new();
        for index in 0usize..80
            invariant
                ram.size == 4096,
                ram.program@ == zeroed(3584),
                forall|j: int| 0 <= j < index ==> ram.interp@[j] == FONT_SET@[j],
                forall|j: int| index <= j < 512 ==> ram.interp@[j] == 0,
        {
            ram.interp[index] = FONT_SET[index];
        }
        assert(ram.interp@ =~= FONT_SET@ + zeroed(432));
        let stack = Stack { data: [0u16; 16], sp: 0 };
        assert(stack.data@ =~= zeroed_words(16));
        let register = Register { vx: [0u8; 16], i: 0, pc: 0x200 };
        assert(register.vx@ =~= zeroed(16));
        Self {
            ram,
            register,
            display: Display::new(),
            timers: Timers::new(60, 60),
            opcode: 0,
            stack,
            keyboard: Keyboard::new(),
        }
    }

    /// Copies a ROM image into program memory at address 0x200, leaving the
    /// rest of the machine as it was.
    pub fn load_rom(&mut self, rom: &[u8])
        requires
            rom@.len() <= 3072,
        ensures
            final(self).ram.program@ == loaded(old(self).ram.program@, rom@),
            final(self).ram.interp == old(self).ram.interp,
            final(self).ram.size == old(self).ram.size,
            final(self).register == old(self).register,
            final(self).display == old(self).display,
            final(self).timers == old(self).timers,
            final(self).opcode == old(self).opcode,
            final(self).stack == old(self).stack,
            final(self).keyboard == old(self).keyboard,
    {
        let len = rom.len();
        for index in 0usize..len
            invariant
                len == rom@.len(),
                len <= 3072,
                forall|j: int| 0 <= j < index ==> self.ram.program@[0x200 + j] == rom@[j],
                forall|j: int|
                    0 <= j < 3584 && !(0x200 <= j < 0x200 + index) ==> self.ram.program@[j]
                        == old(self).ram.program@[j],
                self.ram.interp == old(self).ram.interp,
                self.ram.size == old(self).ram.size,
                self.register == old(self).register,
                self.display == old(self).display,
                self.timers == old(self).timers,
                self.opcode == old(self).opcode,
                self.stack == old(self).stack,
                self.keyboard == old(self).keyboard,
        {
            self.ram.program[index + 0x200] = rom[index];
        }
        assert(self.ram.program@ =~= loaded(old(self).ram.program@, rom@));
    }

    /// Runs one cycle: fetches the instruction at the program counter,
    /// executes it, and counts both timers down. The cycle is complete after
    /// the timer update and returns normally; it draws nothing, since the
    /// machine has no drawing step yet. What it has to report (an unknown
    /// instruction, the sound timer running out) it hands back to the caller
    /// instead of printing it.
    pub fn emulate_cycle(&mut self) -> (out: CycleOutcome)
        requires
            old(self).register.pc + 1 < 3584,
        ensures
            final(self).register == executed(
                old(self).register,
                opcode_at(old(self).ram.program@, old(self).register.pc as int) as u16,
            ),
            final(self).timers == ticked(old(self).timers),
            out.unknown_opcode == is_unknown_opcode(
                opcode_at(old(self).ram.program@, old(self).register.pc as int) as u16,
            ),
            out.sound == (old(self).timers.sound_timer == 1),
            old(self).current_opcode() & 0xF000 == 0xA000 ==> {
                &&& final(self).register.i == old(self).current_opcode() & 0x0FFF
                &&& final(self).register.pc == old(self).register.pc + 2
                &&& final(self).register.vx == old(self).register.vx
            },
            old(self).current_opcode() & 0xF000 != 0xA000 ==> final(self).register
                == old(self).register,
            out.unknown_opcode == !(old(self).current_opcode() & 0xF000 == 0xA000 || (
            old(self).current_opcode() & 0xF000 == 0 && (old(self).current_opcode() & 0x000F == 0
                || old(self).current_opcode() & 0x000F == 0xE))),
            final(self).ram == old(self).ram,
            final(self).display == old(self).display,
            final(self).opcode == old(self).opcode,
            final(self).stack == old(self).stack,
            final(self).keyboard == old(self).keyboard,
    {
        let opcode = self.fetch_opcode();
        let unknown_opcode = self.execute_opcode(opcode);
        if self.timers.delay_timer > 0 {
            self.timers.delay_timer -= 1;
        }
        let mut sound = false;
        if self.timers.sound_timer > 0 {
            if self.timers.sound_timer == 1 {
                sound = true;
            }
            self.timers.sound_timer -= 1;
        }
        CycleOutcome { unknown_opcode, sound }
    }

    /// The instruction at the program counter.
    pub fn fetch_opcode(&self) -> (op: u16)
        requires
            self.register.pc + 1 < 3584,
        ensures
            op == opcode_at(self.ram.program@, self.register.pc as int),
            op >> 8 == self.ram.program@[self.register.pc as int],
            op & 0xFF == self.ram.program@[self.register.pc as int + 1],
    {
        let index: usize = self.register.pc as usize;
        let hi: u8 = self.ram.program[index];
        let lo: u8 = self.ram.program[index + 1];
        let op: u16 = (hi as u16) << 8 | lo as u16;
        assert(op == (hi as u16) * 256 + (lo as u16) && op >> 8 == hi as u16 && op & 0xFF
            == lo as u16) by (bit_vector)
            requires
                op == (hi as u16) << 8 | lo as u16,
        ;
        op
    }

    /// Executes one instruction; the result says whether it was unknown.
    fn execute_opcode(&mut self, opcode: u16) -> (unknown: bool)
        requires
            family(opcode) == 0xA ==> old(self).register.pc <= 0xFFFD,
        ensures
            final(self).register == executed(old(self).register, opcode),
            unknown == is_unknown_opcode(opcode),
            opcode & 0xF000 == 0xA000 ==> {
                &&& final(self).register.i == opcode & 0x0FFF
                &&& final(self).register.pc == old(self).register.pc + 2
                &&& final(self).register.vx == old(self).register.vx
            },
            opcode & 0xF000 != 0xA000 ==> final(self).register == old(self).register,
            unknown == !(opcode & 0xF000 == 0xA000 || (opcode & 0xF000 == 0 && (opcode & 0x000F
                == 0 || opcode & 0x000F == 0xE))),
            final(self).ram == old(self).ram,
            final(self).display == old(self).display,
            final(self).timers == old(self).timers,
            final(self).opcode == old(self).opcode,
            final(self).stack == old(self).stack,
            final(self).keyboard == old(self).keyboard,
    {
        proof {
            assert(opcode & 0xF000 == 0xA000 <==> opcode / 0x1000 == 0xA) by (bit_vector);
            assert(opcode & 0xF000 == 0x0000 <==> opcode / 0x1000 == 0) by (bit_vector);
            assert(opcode & 0x0FFF == opcode % 0x1000) by (bit_vector);
            assert(opcode & 0x000F == opcode % 16) by (bit_vector);
        }
        match opcode & 0xF000 {
            0xA000 => {
                // LD I, addr
                self.register.i = opcode & 0x0FFF;
                self.register.pc += 2;
                false
            },
            0x0000 => {
                match opcode & 0x000F {
                    // clear screen
                    0x0000 => false,
                    // return from subroutine
                    0x000E => false,
                    _ => true,
                }
            },
            _ => true,
        }
    }
}

} // verus!
