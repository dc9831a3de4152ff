use cj_8::cartridge::CU;
use cj_8::instruction::{decode, Instruction};
use cj_8::machine::EngineError;
use cj_8::system::System;

const NO_KEYS: [bool; 16] = [false; 16];

fn booted(program: Vec<u8>) -> System {
    let mut s = System::new();
    s.init(program);
    s
}

fn exec(s: &mut System, op: u16) {
    s.execute(op, &NO_KEYS, false, 0).unwrap();
}

fn words(ops: &[u16]) -> Vec<u8> {
    let mut out = Vec::new();
    for op in ops {
        out.push((op >> 8) as u8);
        out.push((op & 0xFF) as u8);
    }
    out
}

#[test]
fn new_machine_is_blank() {
    let s = System::new();
    assert_eq!(s.program_counter(), 0x200);
    assert_eq!(s.index(), 0);
    assert_eq!(s.stack_pointer(), 0);
    assert_eq!(s.delay_timer(), 0);
    assert_eq!(s.sound_timer(), 0);
    assert!(!s.draw_flag);
    assert!(!s.sound_active());
    for x in 0..16 {
        assert_eq!(s.register(x), 0);
    }
    for row in 0..32 {
        for col in 0..64 {
            assert_eq!(s.pixel(row, col), 0);
        }
    }
    assert_eq!(s.memory_at(0), 0);
}

#[test]
fn init_loads_font_and_program() {
    let cart = CU { buffer: vec![0x12, 0x34, 0xAB] };
    let s = booted(cart.buffer.clone());
    assert_eq!(s.memory_at(0), 0xF0);
    assert_eq!(s.memory_at(5), 0x20);
    assert_eq!(s.memory_at(79), 0x80);
    assert_eq!(s.memory_at(80), 0);
    assert_eq!(s.memory_at(0x200), 0x12);
    assert_eq!(s.memory_at(0x201), 0x34);
    assert_eq!(s.memory_at(0x202), 0xAB);
    assert_eq!(s.memory_at(0x203), 0);
    assert_eq!(s.program_counter(), 0x200);
}

#[test]
fn init_accepts_largest_program() {
    let s = booted(vec![0x77; 3584]);
    assert_eq!(s.memory_at(0x200), 0x77);
    assert_eq!(s.memory_at(4095), 0x77);
}

#[test]
fn decode_splits_nibbles() {
    assert_eq!(decode(0xD123), Some(Instruction::Draw { x: 1, y: 2, n: 3 }));
    assert_eq!(decode(0x6A42), Some(Instruction::LoadImm { x: 0xA, nn: 0x42 }));
    assert_eq!(decode(0x1ABC), Some(Instruction::Jump { addr: 0xABC }));
    assert_eq!(decode(0x00E0), Some(Instruction::ClearScreen));
    assert_eq!(decode(0x00EE), Some(Instruction::Return));
    assert_eq!(decode(0x8AB5), Some(Instruction::SubReg { x: 0xA, y: 0xB }));
    assert_eq!(decode(0xF30A), Some(Instruction::WaitKey { x: 3 }));
    assert_eq!(decode(0x0123), None);
    assert_eq!(decode(0x800F), None);
    assert_eq!(decode(0xE09F), None);
    assert_eq!(decode(0xF0FF), None);
}

#[test]
fn load_immediate_reads_back_every_register() {
    let mut s = booted(vec![]);
    for x in 0..16u16 {
        let nn = 0x10 + x as u8;
        exec(&mut s, 0x6000 | (x << 8) | nn as u16);
        assert_eq!(s.register(x as usize), nn);
    }
    assert_eq!(s.program_counter(), 0x200 + 32);
}

#[test]
fn add_immediate_wraps_without_flag() {
    let mut s = booted(vec![]);
    exec(&mut s, 0x6FAA);
    exec(&mut s, 0x63FF);
    exec(&mut s, 0x7301);
    assert_eq!(s.register(3), 0x00);
    assert_eq!(s.register(0xF), 0xAA);
    exec(&mut s, 0x7310);
    assert_eq!(s.register(3), 0x10);
}

#[test]
fn add_registers_sets_carry() {
    let mut s = booted(vec![]);
    exec(&mut s, 0x61FF);
    exec(&mut s, 0x6201);
    exec(&mut s, 0x8124);
    assert_eq!(s.register(0xF), 1);
    assert_eq!(s.register(1), 0x00);
    exec(&mut s, 0x6101);
    exec(&mut s, 0x6201);
    exec(&mut s, 0x8124);
    assert_eq!(s.register(0xF), 0);
    assert_eq!(s.register(1), 0x02);
}

#[test]
fn subtract_registers_sets_no_borrow_flag() {
    let mut s = booted(vec![]);
    exec(&mut s, 0x6105);
    exec(&mut s, 0x6203);
    exec(&mut s, 0x8125);
    assert_eq!(s.register(0xF), 1);
    assert_eq!(s.register(1), 0x02);
    exec(&mut s, 0x6103);
    exec(&mut s, 0x6205);
    exec(&mut s, 0x8125);
    assert_eq!(s.register(0xF), 0);
    assert_eq!(s.register(1), 0xFE);
    exec(&mut s, 0x6104);
    exec(&mut s, 0x6204);
    exec(&mut s, 0x8125);
    assert_eq!(s.register(0xF), 0);
    assert_eq!(s.register(1), 0x00);
}

#[test]
fn reverse_subtract_and_shifts() {
    let mut s = booted(vec![]);
    exec(&mut s, 0x6103);
    exec(&mut s, 0x6205);
    exec(&mut s, 0x8127);
    assert_eq!(s.register(1), 0x02);
    assert_eq!(s.register(0xF), 1);
    exec(&mut s, 0x6105);
    exec(&mut s, 0x6203);
    exec(&mut s, 0x8127);
    assert_eq!(s.register(1), 0xFE);
    assert_eq!(s.register(0xF), 0);
    exec(&mut s, 0x6105);
    exec(&mut s, 0x8106);
    assert_eq!(s.register(1), 0x02);
    assert_eq!(s.register(0xF), 1);
    exec(&mut s, 0x6181);
    exec(&mut s, 0x810E);
    assert_eq!(s.register(1), 0x02);
    assert_eq!(s.register(0xF), 1);
    exec(&mut s, 0x6140);
    exec(&mut s, 0x810E);
    assert_eq!(s.register(1), 0x80);
    assert_eq!(s.register(0xF), 0);
}

#[test]
fn bitwise_and_move() {
    let mut s = booted(vec![]);
    exec(&mut s, 0x61F0);
    exec(&mut s, 0x623C);
    exec(&mut s, 0x8121);
    assert_eq!(s.register(1), 0xFC);
    exec(&mut s, 0x61F0);
    exec(&mut s, 0x8122);
    assert_eq!(s.register(1), 0x30);
    exec(&mut s, 0x61F0);
    exec(&mut s, 0x8123);
    assert_eq!(s.register(1), 0xCC);
    exec(&mut s, 0x8320);
    assert_eq!(s.register(3), 0x3C);
}

#[test]
fn skips_advance_by_four_when_taken() {
    let mut s = booted(vec![]);
    exec(&mut s, 0x6107);
    let pc = s.program_counter();
    exec(&mut s, 0x3107);
    assert_eq!(s.program_counter(), pc + 4);
    exec(&mut s, 0x3108);
    assert_eq!(s.program_counter(), pc + 6);
    exec(&mut s, 0x4108);
    assert_eq!(s.program_counter(), pc + 10);
    exec(&mut s, 0x4107);
    assert_eq!(s.program_counter(), pc + 12);
    exec(&mut s, 0x6207);
    exec(&mut s, 0x5120);
    assert_eq!(s.program_counter(), pc + 18);
    exec(&mut s, 0x9120);
    assert_eq!(s.program_counter(), pc + 20);
    exec(&mut s, 0x6209);
    exec(&mut s, 0x9120);
    assert_eq!(s.program_counter(), pc + 26);
}

#[test]
fn jumps_and_index() {
    let mut s = booted(vec![]);
    exec(&mut s, 0x1ABC);
    assert_eq!(s.program_counter(), 0xABC);
    exec(&mut s, 0x6010);
    exec(&mut s, 0xB300);
    assert_eq!(s.program_counter(), 0x310);
    exec(&mut s, 0xA123);
    assert_eq!(s.index(), 0x123);
    exec(&mut s, 0x65FF);
    exec(&mut s, 0xF51E);
    assert_eq!(s.index(), 0x222);
    exec(&mut s, 0x6507);
    exec(&mut s, 0xF529);
    assert_eq!(s.index(), 7);
}

#[test]
fn random_masks_the_given_byte() {
    let mut s = booted(vec![]);
    s.execute(0xC40F, &NO_KEYS, false, 0xAB).unwrap();
    assert_eq!(s.register(4), 0x0B);
    s.execute(0xC4F0, &NO_KEYS, false, 0xAB).unwrap();
    assert_eq!(s.register(4), 0xA0);
}

#[test]
fn random_with_zero_mask_from_the_generator() {
    let mut s = booted(words(&[0x64FF, 0xC400, 0xC5FF]));
    s.emulate_cycle(&NO_KEYS, false).unwrap();
    assert_eq!(s.register(4), 0xFF);
    s.emulate_cycle(&NO_KEYS, false).unwrap();
    assert_eq!(s.register(4), 0x00);
    s.emulate_cycle(&NO_KEYS, false).unwrap();
    assert_eq!(s.program_counter(), 0x206);
}

#[test]
fn bcd_store_and_register_transfers() {
    let mut s = booted(vec![]);
    exec(&mut s, 0x63FE);
    exec(&mut s, 0xA300);
    exec(&mut s, 0xF333);
    assert_eq!(s.memory_at(0x300), 2);
    assert_eq!(s.memory_at(0x301), 5);
    assert_eq!(s.memory_at(0x302), 4);
    exec(&mut s, 0x6011);
    exec(&mut s, 0x6122);
    exec(&mut s, 0x6233);
    exec(&mut s, 0xA400);
    exec(&mut s, 0xF155);
    assert_eq!(s.memory_at(0x400), 0x11);
    assert_eq!(s.memory_at(0x401), 0x22);
    assert_eq!(s.memory_at(0x402), 0);
    assert_eq!(s.index(), 0x400);
    exec(&mut s, 0xA300);
    exec(&mut s, 0xF265);
    assert_eq!(s.register(0), 2);
    assert_eq!(s.register(1), 5);
    assert_eq!(s.register(2), 4);
    assert_eq!(s.register(3), 0xFE);
    assert_eq!(s.index(), 0x300);
}

#[test]
fn memory_addresses_wrap_at_twelve_bits() {
    let mut s = booted(vec![]);
    exec(&mut s, 0x60AB);
    exec(&mut s, 0x61CD);
    exec(&mut s, 0xAFFF);
    exec(&mut s, 0xF155);
    assert_eq!(s.memory_at(0xFFF), 0xAB);
    assert_eq!(s.memory_at(0x000), 0xCD);
}

#[test]
fn timers_set_read_and_tick() {
    let mut s = booted(vec![]);
    exec(&mut s, 0x6502);
    exec(&mut s, 0xF515);
    exec(&mut s, 0xF518);
    assert_eq!(s.delay_timer(), 2);
    assert_eq!(s.sound_timer(), 2);
    exec(&mut s, 0xF607);
    assert_eq!(s.register(6), 2);
    assert!(s.tick_timers());
    assert!(s.tick_timers());
    assert!(!s.tick_timers());
    for _ in 0..10 {
        assert!(!s.tick_timers());
    }
    assert_eq!(s.delay_timer(), 0);
    assert_eq!(s.sound_timer(), 0);
}

#[test]
fn cycle_reports_sound_edge() {
    let mut s = booted(words(&[0x6001, 0xF018, 0x6100, 0x6100]));
    assert_eq!(s.emulate_cycle(&NO_KEYS, false), Ok(false));
    assert_eq!(s.emulate_cycle(&NO_KEYS, false), Ok(true));
    assert_eq!(s.sound_timer(), 0);
    assert_eq!(s.emulate_cycle(&NO_KEYS, false), Ok(false));
}

#[test]
fn key_skips() {
    let mut keys = [false; 16];
    keys[0xA] = true;
    let mut s = booted(vec![]);
    s.execute(0x620A, &keys, false, 0).unwrap();
    let pc = s.program_counter();
    s.execute(0xE29E, &keys, false, 0).unwrap();
    assert_eq!(s.program_counter(), pc + 4);
    s.execute(0xE2A1, &keys, false, 0).unwrap();
    assert_eq!(s.program_counter(), pc + 6);
    s.execute(0x6214, &keys, false, 0).unwrap();
    s.execute(0xE29E, &keys, false, 0).unwrap();
    assert_eq!(s.program_counter(), pc + 10);
    s.execute(0xE2A1, &keys, false, 0).unwrap();
    assert_eq!(s.program_counter(), pc + 14);
}

#[test]
fn wait_key_blocks_until_event() {
    let mut s = booted(words(&[0xF30A]));
    for _ in 0..5 {
        s.emulate_cycle(&NO_KEYS, false).unwrap();
        assert_eq!(s.program_counter(), 0x200);
    }
    let mut keys = [false; 16];
    keys[5] = true;
    s.emulate_cycle(&keys, false).unwrap();
    assert_eq!(s.program_counter(), 0x200);
    s.emulate_cycle(&keys, true).unwrap();
    assert_eq!(s.program_counter(), 0x202);
    assert_eq!(s.register(3), 5);
}

#[test]
fn wait_key_takes_lowest_held_key() {
    let mut keys = [false; 16];
    keys[9] = true;
    keys[3] = true;
    let mut s = booted(vec![]);
    s.execute(0xF20A, &keys, true, 0).unwrap();
    assert_eq!(s.register(2), 3);
    assert_eq!(s.program_counter(), 0x202);
}

#[test]
fn wait_key_event_without_held_key_moves_on() {
    let mut s = booted(vec![]);
    s.execute(0x6277, &NO_KEYS, false, 0).unwrap();
    s.execute(0xF20A, &NO_KEYS, true, 0).unwrap();
    assert_eq!(s.register(2), 0x77);
    assert_eq!(s.program_counter(), 0x204);
}

#[test]
fn call_then_return_resumes_after_call() {
    let mut program = vec![0u8; 0x102];
    program[0] = 0x23;
    program[1] = 0x00;
    program[0x100] = 0x00;
    program[0x101] = 0xEE;
    let mut s = booted(program);
    s.emulate_cycle(&NO_KEYS, false).unwrap();
    assert_eq!(s.program_counter(), 0x300);
    assert_eq!(s.stack_pointer(), 1);
    s.emulate_cycle(&NO_KEYS, false).unwrap();
    assert_eq!(s.program_counter(), 0x202);
    assert_eq!(s.stack_pointer(), 0);
}

#[test]
fn return_on_empty_stack_underflows() {
    let mut s = booted(words(&[0x00EE]));
    assert_eq!(s.emulate_cycle(&NO_KEYS, false), Err(EngineError::StackUnderflow));
    assert_eq!(s.program_counter(), 0x200);
    assert_eq!(s.stack_pointer(), 0);
}

#[test]
fn seventeenth_call_overflows() {
    let mut s = booted(words(&[0x2200]));
    for depth in 1..=16 {
        s.emulate_cycle(&NO_KEYS, false).unwrap();
        assert_eq!(s.stack_pointer(), depth);
        assert_eq!(s.program_counter(), 0x200);
    }
    assert_eq!(s.emulate_cycle(&NO_KEYS, false), Err(EngineError::StackOverflow));
    assert_eq!(s.stack_pointer(), 16);
}

#[test]
fn unknown_opcodes_are_fatal() {
    for op in [0x0123u16, 0x800F, 0xE0FF, 0xF0FF, 0x0000] {
        let mut s = booted(vec![]);
        assert_eq!(
            s.execute(op, &NO_KEYS, false, 0),
            Err(EngineError::UnrecognizedOpcode(op))
        );
        assert_eq!(s.program_counter(), 0x200);
    }
    let mut s = booted(words(&[0x5AB1, 0x1234, 0xFFFF]));
    s.emulate_cycle(&NO_KEYS, false).unwrap();
    assert_eq!(s.program_counter(), 0x204);
    assert_eq!(
        s.emulate_cycle(&NO_KEYS, false),
        Err(EngineError::UnrecognizedOpcode(0xFFFF))
    );
    assert_eq!(s.delay_timer(), 0);
}

#[test]
fn drawing_twice_restores_screen() {
    let mut s = booted(vec![]);
    exec(&mut s, 0x610A);
    exec(&mut s, 0x6205);
    exec(&mut s, 0xA00A);
    exec(&mut s, 0xD125);
    assert_eq!(s.register(0xF), 0);
    assert!(s.draw_flag);
    assert_eq!(s.pixel(5, 10), 1);
    assert_eq!(s.pixel(5, 14), 0);
    exec(&mut s, 0xD125);
    assert_eq!(s.register(0xF), 1);
    for row in 0..32 {
        for col in 0..64 {
            assert_eq!(s.pixel(row, col), 0);
        }
    }
    exec(&mut s, 0xD125);
    exec(&mut s, 0x00E0);
    exec(&mut s, 0xD125);
    assert_eq!(s.register(0xF), 0);
}

#[test]
fn sprite_wraps_around_both_edges() {
    let mut s = booted(vec![]);
    exec(&mut s, 0x60FF);
    exec(&mut s, 0xA300);
    exec(&mut s, 0xF055);
    exec(&mut s, 0x603F);
    exec(&mut s, 0x6100);
    exec(&mut s, 0xD011);
    for col in 0..64 {
        let lit = col == 63 || col <= 6;
        assert_eq!(s.pixel(0, col), if lit { 1 } else { 0 }, "column {}", col);
    }
    for col in 0..64 {
        assert_eq!(s.pixel(1, col), 0);
    }
    let mut s = booted(vec![]);
    exec(&mut s, 0x6000);
    exec(&mut s, 0x611F);
    exec(&mut s, 0xA000);
    exec(&mut s, 0xD012);
    assert_eq!(s.pixel(31, 0), 1);
    assert_eq!(s.pixel(0, 0), 1);
    assert_eq!(s.pixel(0, 1), 0);
    assert_eq!(s.pixel(0, 3), 1);
}

#[test]
fn falsify_df_clears_draw_flag() {
    let mut s = booted(vec![]);
    exec(&mut s, 0x00E0);
    assert!(s.draw_flag);
    s.falsify_df();
    assert!(!s.draw_flag);
}

#[test]
fn end_to_end_draw_then_clear() {
    let mut s = booted(words(&[0x6000, 0xA000, 0xD001, 0x00E0]));
    for _ in 0..3 {
        s.emulate_cycle(&NO_KEYS, false).unwrap();
    }
    assert!(s.draw_flag);
    for col in 0..4 {
        assert_eq!(s.pixel(0, col), 1);
    }
    for col in 4..8 {
        assert_eq!(s.pixel(0, col), 0);
    }
    s.falsify_df();
    s.emulate_cycle(&NO_KEYS, false).unwrap();
    assert!(s.draw_flag);
    for row in 0..32 {
        for col in 0..64 {
            assert_eq!(s.pixel(row, col), 0);
        }
    }
    assert_eq!(s.program_counter(), 0x208);
}
