use chip8::display::Display;
use chip8::fonts::FONT_SET;
use chip8::keyboard::Keyboard;
use chip8::memory::Ram;
use chip8::registers::Register;
use chip8::timers::Timers;
use chip8::{Chip8, ProgramCounter};

#[test]
fn new_machine_holds_font_and_starts_at_0x200() {
    let c = Chip8::new();
    assert_eq!(c.ram.size, 4096);
    for i in 0..80 {
        assert_eq!(c.ram.interp[i], FONT_SET[i]);
    }
    for i in 80..512 {
        assert_eq!(c.ram.interp[i], 0);
    }
    assert!(c.ram.program.iter().all(|b| *b == 0));
    assert_eq!(c.register.pc, 0x200);
    assert_eq!(c.register.i, 0);
    assert_eq!(c.register.vx, [0u8; 16]);
    assert_eq!(c.timers.delay_timer, 60);
    assert_eq!(c.timers.sound_timer, 60);
    assert_eq!(c.opcode, 0);
    assert_eq!(c.stack.sp, 0);
    assert_eq!(c.stack.data, [0u16; 16]);
    assert_eq!(c.keyboard.key, [0u8; 16]);
    assert!(c.display.pixels().iter().all(|p| *p == 0));
}

#[test]
fn font_glyphs_of_zero_and_f() {
    assert_eq!(&FONT_SET[0..5], &[0xF0, 0x90, 0x90, 0x90, 0xF0]);
    assert_eq!(&FONT_SET[75..80], &[0xF0, 0x80, 0xF0, 0x80, 0x80]);
}

#[test]
fn parts_start_zeroed() {
    let r = Ram::new();
    assert_eq!(r.size, 4096);
    assert!(r.interp.iter().all(|b| *b == 0));
    assert!(r.program.iter().all(|b| *b == 0));
    let reg = Register::new();
    assert_eq!(reg.pc, 0);
    assert_eq!(reg.i, 0);
    assert_eq!(reg.vx, [0u8; 16]);
    assert_eq!(Keyboard::new().key, [0u8; 16]);
    let d = Display::new();
    assert_eq!(d.pixels().len(), 64 * 32);
    assert!(d.pixels().iter().all(|p| *p == 0));
    let t = Timers::new(3, 7);
    assert_eq!(t.delay_timer, 3);
    assert_eq!(t.sound_timer, 7);
}

#[test]
fn skip_if_picks_skip_or_next() {
    assert_eq!(ProgramCounter::skip_if(true), ProgramCounter::Skip);
    assert_eq!(ProgramCounter::skip_if(false), ProgramCounter::Next);
}

#[test]
fn fetch_reads_loaded_rom() {
    let mut c = Chip8::new();
    c.load_rom(&[0xA2, 0xF0, 0x12, 0x34]);
    assert_eq!(c.ram.program[0x200], 0xA2);
    assert_eq!(c.ram.program[0x203], 0x34);
    assert_eq!(c.ram.program[0x204], 0);
    assert_eq!(c.ram.program[0x1FF], 0);
    assert_eq!(c.fetch_opcode(), 0xA2F0);
    c.register.pc = 0x202;
    assert_eq!(c.fetch_opcode(), 0x1234);
    c.register.pc = 0x201;
    assert_eq!(c.fetch_opcode(), 0xF012);
}

#[test]
fn load_rom_keeps_the_rest() {
    let mut c = Chip8::new();
    c.ram.program[0x100] = 7;
    c.ram.program[0x300] = 9;
    c.load_rom(&[1, 2, 3]);
    assert_eq!(c.ram.program[0x100], 7);
    assert_eq!(c.ram.program[0x300], 9);
    assert_eq!(&c.ram.program[0x200..0x203], &[1, 2, 3]);
    assert_eq!(c.register.pc, 0x200);
    assert_eq!(c.ram.interp[0], 0xF0);
}

#[test]
fn load_rom_of_largest_size() {
    let mut c = Chip8::new();
    let rom = vec![0xABu8; 3072];
    c.load_rom(&rom);
    assert_eq!(c.ram.program[0x200], 0xAB);
    assert_eq!(c.ram.program[3583], 0xAB);
    assert_eq!(c.ram.program[0x1FF], 0);
}

#[test]
fn cycle_on_a000_loads_index_and_advances() {
    let mut c = Chip8::new();
    c.register.i = 0x123;
    c.load_rom(&[0xA0, 0x00]);
    let out = c.emulate_cycle();
    assert!(!out.unknown_opcode);
    assert!(!out.sound);
    assert_eq!(c.register.i, 0);
    assert_eq!(c.register.pc, 0x202);
    assert_eq!(c.timers.delay_timer, 59);
    assert_eq!(c.timers.sound_timer, 59);
}

#[test]
fn cycle_on_annn_loads_index_with_nnn() {
    let mut c = Chip8::new();
    c.load_rom(&[0xA2, 0xF0]);
    let out = c.emulate_cycle();
    assert!(!out.unknown_opcode);
    assert_eq!(c.register.i, 0x2F0);
    assert_eq!(c.register.pc, 0x202);
    assert_eq!(c.register.vx, [0u8; 16]);
    assert_eq!(c.timers.delay_timer, 59);
    assert_eq!(c.opcode, 0);
}

#[test]
fn cycle_on_afff_loads_largest_index() {
    let mut c = Chip8::new();
    c.load_rom(&[0xAF, 0xFF]);
    let out = c.emulate_cycle();
    assert!(!out.unknown_opcode);
    assert_eq!(c.register.i, 0xFFF);
    assert_eq!(c.register.pc, 0x202);
}

#[test]
fn cycle_on_other_family_is_unknown_and_changes_no_register() {
    let mut c = Chip8::new();
    c.load_rom(&[0x12, 0x34]);
    let out = c.emulate_cycle();
    assert!(out.unknown_opcode);
    assert_eq!(c.register.pc, 0x200);
    assert_eq!(c.register.i, 0);
    assert_eq!(c.timers.delay_timer, 59);
}

#[test]
fn cycle_on_zero_opcode_is_known() {
    let mut c = Chip8::new();
    let out = c.emulate_cycle();
    assert!(!out.unknown_opcode);
    assert_eq!(c.register.pc, 0x200);
}

#[test]
fn cycle_on_00e0_and_00ee_is_known_and_changes_nothing() {
    let mut c = Chip8::new();
    c.load_rom(&[0x00, 0xE0, 0x00, 0xEE]);
    let out = c.emulate_cycle();
    assert!(!out.unknown_opcode);
    assert_eq!(c.register.pc, 0x200);
    c.register.pc = 0x202;
    let out = c.emulate_cycle();
    assert!(!out.unknown_opcode);
    assert_eq!(c.register.pc, 0x202);
    assert_eq!(c.register.i, 0);
}

#[test]
fn cycle_on_other_0nnn_is_unknown() {
    let mut c = Chip8::new();
    c.load_rom(&[0x00, 0xE1]);
    let out = c.emulate_cycle();
    assert!(out.unknown_opcode);
    assert_eq!(c.register.pc, 0x200);
}

#[test]
fn timers_count_down_and_sound_when_reaching_zero() {
    let mut c = Chip8::new();
    c.timers = Timers::new(2, 3);
    let first = c.emulate_cycle();
    assert!(!first.sound);
    assert_eq!((c.timers.delay_timer, c.timers.sound_timer), (1, 2));
    let second = c.emulate_cycle();
    assert!(!second.sound);
    assert_eq!((c.timers.delay_timer, c.timers.sound_timer), (0, 1));
    let third = c.emulate_cycle();
    assert!(third.sound);
    assert_eq!((c.timers.delay_timer, c.timers.sound_timer), (0, 0));
    let fourth = c.emulate_cycle();
    assert!(!fourth.sound);
    assert_eq!((c.timers.delay_timer, c.timers.sound_timer), (0, 0));
}

#[test]
fn sixty_cycles_run_the_timers_out() {
    let mut c = Chip8::new();
    let mut sounds = 0;
    for _ in 0..70 {
        if c.emulate_cycle().sound {
            sounds += 1;
        }
    }
    assert_eq!(sounds, 1);
    assert_eq!(c.timers.delay_timer, 0);
    assert_eq!(c.timers.sound_timer, 0);
}
