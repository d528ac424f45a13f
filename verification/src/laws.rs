use vstd::prelude::*;
use crate::chip8::{executed, family, is_unknown_opcode, loaded, opcode_at, ticked};
use crate::registers::Register;
use crate::timers::Timers;

verus! {

/// The timers after `n` cycles.
pub open spec fn ticked_n(t: Timers, n: nat) -> Timers
    decreases n,
{
    if n == 0 {
        t
    } else {
        ticked(ticked_n(t, (n - 1) as nat))
    }
}

/// Saturating subtraction on timer values.
pub open spec fn counted_down(value: u8, n: nat) -> int {
    if value >= n {
        value - n
    } else {
        0
    }
}

/// Whatever was in program memory before, after a ROM image is loaded the
/// instruction fetched at 0x200 + k is made of the ROM's bytes k and k + 1,
/// and every byte outside the ROM's place is left as it was.
pub proof fn law_fetch_reads_loaded_rom(program: Seq<u8>, rom: Seq<u8>, k: int)
    requires
        program.len() == 3584,
        rom.len() <= 3072,
        0 <= k,
        k + 1 < rom.len(),
    ensures
        opcode_at(loaded(program, rom), 0x200 + k) == rom[k] * 256 + rom[k + 1],
        loaded(program, rom).len() == 3584,
        forall|j: int|
            0 <= j < 3584 && !(0x200 <= j < 0x200 + rom.len()) ==> #[trigger] loaded(
                program,
                rom,
            )[j] == program[j],
{
}

/// An instruction is one 16-bit word: its high byte is the byte at the
/// address and its low byte the byte after it.
pub proof fn law_opcode_is_a_word(program: Seq<u8>, addr: int)
    requires
        0 <= addr,
        addr + 1 < program.len(),
    ensures
        0 <= opcode_at(program, addr) <= 0xFFFF,
        opcode_at(program, addr) / 256 == program[addr],
        opcode_at(program, addr) % 256 == program[addr + 1],
{
}

/// Only the `ANNN` instructions change the registers, and they are never
/// reported as unknown: every other instruction, known or not, leaves every
/// register as it was.
pub proof fn law_only_index_loads_change_registers(r: Register, opcode: u16)
    ensures
        family(opcode) != 0xA ==> executed(r, opcode) == r,
        family(opcode) == 0xA ==> !is_unknown_opcode(opcode),
        is_unknown_opcode(opcode) ==> executed(r, opcode) == r,
{
}

/// An `ANNN` instruction (top four bits 0xA) loads the index register with
/// its low twelve bits, whatever the index register held, moves the program
/// counter on by exactly one instruction (two bytes), keeps V0..VF, and is
/// never reported as unknown.
pub proof fn law_index_load(r: Register, opcode: u16)
    requires
        opcode & 0xF000 == 0xA000,
        r.pc <= 0xFFFD,
    ensures
        executed(r, opcode).i == opcode & 0x0FFF,
        executed(r, opcode).pc == r.pc + 2,
        executed(r, opcode).vx == r.vx,
        !is_unknown_opcode(opcode),
{
    assert(opcode & 0xF000 == 0xA000 ==> opcode / 0x1000 == 0xA) by (bit_vector);
    assert(opcode & 0x0FFF == opcode % 0x1000) by (bit_vector);
}

/// Two `ANNN` instructions in a row leave the program counter two
/// instructions further on and the index register holding the second
/// instruction's low twelve bits.
pub proof fn law_two_index_loads(r: Register, first: u16, second: u16)
    requires
        first & 0xF000 == 0xA000,
        second & 0xF000 == 0xA000,
        r.pc <= 0xFFFB,
    ensures
        executed(executed(r, first), second).pc == r.pc + 4,
        executed(executed(r, first), second).i == second & 0x0FFF,
        executed(executed(r, first), second).vx == r.vx,
{
    law_index_load(r, first);
    law_index_load(executed(r, first), second);
}

/// Every instruction outside the `0NNN` and `ANNN` families is reported as
/// unknown and changes no register.
pub proof fn law_other_families_are_unknown(r: Register, opcode: u16)
    requires
        opcode & 0xF000 != 0x0000,
        opcode & 0xF000 != 0xA000,
    ensures
        is_unknown_opcode(opcode),
        executed(r, opcode) == r,
{
    assert(opcode & 0xF000 != 0x0000 ==> opcode / 0x1000 != 0) by (bit_vector);
    assert(opcode & 0xF000 != 0xA000 ==> opcode / 0x1000 != 0xA) by (bit_vector);
}

/// In the `0NNN` family the instructions whose low four bits are 0x0 or 0xE
/// (clear screen `00E0`, return `00EE`, and the zero word) are known and
/// change no register; every other one is unknown and changes no register.
pub proof fn law_system_family(r: Register, opcode: u16)
    requires
        opcode & 0xF000 == 0x0000,
    ensures
        is_unknown_opcode(opcode) == !(opcode & 0x000F == 0x0 || opcode & 0x000F == 0xE),
        executed(r, opcode) == r,
        !is_unknown_opcode(0x00E0),
        !is_unknown_opcode(0x00EE),
{
    assert(opcode & 0xF000 == 0x0000 ==> opcode / 0x1000 == 0) by (bit_vector);
    assert(opcode & 0x000F == opcode % 16) by (bit_vector);
}

/// The timers count down by one per cycle and stop at zero: after `n`
/// cycles each holds its starting value minus `n`, or zero. The sound timer
/// stands at 1 exactly when the next step runs it out.
pub proof fn law_timers_count_down(t: Timers, n: nat)
    ensures
        (t.sound_timer == 1) <==> (t.sound_timer > 0 && ticked(t).sound_timer == 0),
        ticked_n(t, n).delay_timer == counted_down(t.delay_timer, n),
        ticked_n(t, n).sound_timer == counted_down(t.sound_timer, n),
    decreases n,
{
    if n > 0 {
        law_timers_count_down(t, (n - 1) as nat);
    }
}

} // verus!
