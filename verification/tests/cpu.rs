//! Instruction-level behavior: flags, cycle costs, control flow.

use dmg_core::cartridge::Cartridge;
use dmg_core::lr35902::{CpuError, LR35902};
use dmg_core::mmu::MemoryMapUnit;

fn machine() -> (LR35902, MemoryMapUnit) {
    let rom = vec![0u8; 0x8000];
    let cart = Cartridge::new(rom).unwrap();
    let mut mmu = MemoryMapUnit::new(cart, vec![0u8; 256]);
    mmu.write_8(0xFF50, 1);
    let mut cpu = LR35902::new();
    cpu.registers.pc = 0xC000;
    cpu.registers.sp = 0xD000;
    (cpu, mmu)
}

fn load(mmu: &mut MemoryMapUnit, program: &[u8]) {
    for (i, b) in program.iter().enumerate() {
        mmu.write_8(0xC000 + i as u16, *b);
    }
}

#[test]
fn nop_costs_four_cycles() {
    let (mut cpu, mut mmu) = machine();
    load(&mut mmu, &[0x00]);
    assert_eq!(cpu.step(&mut mmu).unwrap(), 4);
    assert_eq!(cpu.registers.pc, 0xC001);
}

#[test]
fn inc_a_from_ff_wraps_with_z_and_h() {
    let (mut cpu, mut mmu) = machine();
    load(&mut mmu, &[0x3C, 0x3C]);
    cpu.registers.a = 0xFF;
    cpu.registers.cf = true;
    cpu.step(&mut mmu).unwrap();
    assert_eq!(cpu.registers.a, 0x00);
    assert!(cpu.registers.zf);
    assert!(cpu.registers.hf);
    assert!(!cpu.registers.nf);
    assert!(cpu.registers.cf, "INC must leave C untouched");
    cpu.registers.a = 0xFF;
    cpu.registers.cf = false;
    cpu.step(&mut mmu).unwrap();
    assert!(!cpu.registers.cf, "INC must leave C untouched");
}

#[test]
fn adc_half_carry_from_carry_in() {
    let (mut cpu, mut mmu) = machine();
    load(&mut mmu, &[0x88]);
    cpu.registers.a = 0x0F;
    cpu.registers.b = 0x00;
    cpu.registers.cf = true;
    cpu.step(&mut mmu).unwrap();
    assert_eq!(cpu.registers.a, 0x10);
    assert!(cpu.registers.hf);
    assert!(!cpu.registers.cf);
    assert!(!cpu.registers.zf);
}

#[test]
fn daa_after_bcd_double_of_50() {
    let (mut cpu, mut mmu) = machine();
    load(&mut mmu, &[0x87, 0x27]);
    cpu.registers.a = 0x50;
    cpu.step(&mut mmu).unwrap();
    assert_eq!(cpu.registers.a, 0xA0);
    cpu.step(&mut mmu).unwrap();
    assert_eq!(cpu.registers.a, 0x00);
    assert!(cpu.registers.cf);
    assert!(cpu.registers.zf);
}

#[test]
fn jr_minus_two_loops_on_itself() {
    let (mut cpu, mut mmu) = machine();
    load(&mut mmu, &[0x18, 0xFE]);
    for _ in 0..5 {
        let t = cpu.step(&mut mmu).unwrap();
        assert_eq!(t, 12);
        assert_eq!(cpu.registers.pc, 0xC000);
    }
}

#[test]
fn conditional_jr_costs_long_iff_taken() {
    let (mut cpu, mut mmu) = machine();
    load(&mut mmu, &[0x20, 0x10, 0x20, 0x10]);
    cpu.registers.zf = true;
    assert_eq!(cpu.step(&mut mmu).unwrap(), 8);
    assert_eq!(cpu.registers.pc, 0xC002);
    cpu.registers.zf = false;
    assert_eq!(cpu.step(&mut mmu).unwrap(), 12);
    assert_eq!(cpu.registers.pc, 0xC014);
}

#[test]
fn push_pop_round_trip() {
    let (mut cpu, mut mmu) = machine();
    load(&mut mmu, &[0xC5, 0xC1]);
    cpu.registers.b = 0x12;
    cpu.registers.c = 0x34;
    assert_eq!(cpu.step(&mut mmu).unwrap(), 16);
    assert_eq!(cpu.registers.sp, 0xCFFE);
    assert_eq!(cpu.step(&mut mmu).unwrap(), 12);
    assert_eq!(cpu.registers.b, 0x12);
    assert_eq!(cpu.registers.c, 0x34);
    assert_eq!(cpu.registers.sp, 0xD000);
}

#[test]
fn push_pop_af_keeps_flag_nibble_zero() {
    let (mut cpu, mut mmu) = machine();
    load(&mut mmu, &[0xF5, 0xF1]);
    cpu.registers.a = 0x9A;
    cpu.registers.zf = true;
    cpu.registers.cf = true;
    cpu.step(&mut mmu).unwrap();
    cpu.step(&mut mmu).unwrap();
    assert_eq!(cpu.registers.a, 0x9A);
    assert!(cpu.registers.zf);
    assert!(!cpu.registers.nf);
    assert!(!cpu.registers.hf);
    assert!(cpu.registers.cf);
    assert_eq!(mmu.read_8(0xCFFE), 0x90, "F pushed with its low nibble zero");
}

#[test]
fn call_then_ret_returns_past_the_call() {
    let (mut cpu, mut mmu) = machine();
    load(&mut mmu, &[0xCD, 0x10, 0xC0]);
    mmu.write_8(0xC010, 0xC9);
    cpu.registers.zf = true;
    cpu.registers.cf = false;
    let t = cpu.step(&mut mmu).unwrap();
    assert_eq!(t, 24);
    assert_eq!(cpu.registers.pc, 0xC010);
    assert_eq!(cpu.registers.sp, 0xCFFE);
    let t = cpu.step(&mut mmu).unwrap();
    assert_eq!(t, 16);
    assert_eq!(cpu.registers.pc, 0xC003);
    assert_eq!(cpu.registers.sp, 0xD000);
    assert!(cpu.registers.zf);
    assert!(!cpu.registers.cf);
}

#[test]
fn illegal_opcode_is_a_fatal_decode_error() {
    let (mut cpu, mut mmu) = machine();
    load(&mut mmu, &[0xD3]);
    match cpu.step(&mut mmu) {
        Err(CpuError::IllegalOpcode(op)) => assert_eq!(op, 0xD3),
        _ => panic!("expected the decode error"),
    }
}

#[test]
fn halt_leaves_the_cpu_idle() {
    let (mut cpu, mut mmu) = machine();
    load(&mut mmu, &[0x76]);
    assert_eq!(cpu.step(&mut mmu).unwrap(), 4);
    assert!(cpu.halted);
    assert_eq!(cpu.step(&mut mmu).unwrap(), 0);
    assert_eq!(cpu.registers.pc, 0xC001);
}

#[test]
fn ei_takes_effect_after_the_next_instruction() {
    let (mut cpu, mut mmu) = machine();
    load(&mut mmu, &[0xFB, 0x00, 0x00]);
    cpu.step(&mut mmu).unwrap();
    assert!(!cpu.ime, "EI alone must not enable IME yet");
    cpu.step(&mut mmu).unwrap();
    assert!(cpu.ime, "IME enabled after the following instruction");
}

#[test]
fn interrupt_dispatch_services_vblank_first() {
    let (mut cpu, mut mmu) = machine();
    cpu.registers.pc = 0xC123;
    mmu.write_8(0xFFFF, 0x1F);
    mmu.write_8(0xFF0F, 0x1F);
    cpu.ime = true;
    let t = cpu.step(&mut mmu).unwrap();
    assert_eq!(t, 20);
    assert_eq!(cpu.registers.pc, 0x0040);
    assert_eq!(mmu.read_8(0xFF0F), 0x1E);
    assert_eq!(cpu.registers.sp, 0xCFFE);
    assert_eq!(mmu.read_8(0xCFFE), 0x23);
    assert_eq!(mmu.read_8(0xCFFF), 0xC1);
    assert!(!cpu.ime);
}

#[test]
fn cb_cycle_costs() {
    let (mut cpu, mut mmu) = machine();
    load(&mut mmu, &[0xCB, 0x00, 0xCB, 0x46, 0xCB, 0xC6]);
    cpu.registers.h = 0xC1;
    cpu.registers.l = 0x00;
    assert_eq!(cpu.step(&mut mmu).unwrap(), 8, "RLC B");
    assert_eq!(cpu.step(&mut mmu).unwrap(), 12, "BIT 0,(HL)");
    assert_eq!(cpu.step(&mut mmu).unwrap(), 16, "SET 0,(HL)");
}

#[test]
fn swap_exchanges_nibbles() {
    let (mut cpu, mut mmu) = machine();
    load(&mut mmu, &[0xCB, 0x37]);
    cpu.registers.a = 0xF1;
    cpu.step(&mut mmu).unwrap();
    assert_eq!(cpu.registers.a, 0x1F);
    assert!(!cpu.registers.zf);
    assert!(!cpu.registers.cf);
}

#[test]
fn rotate_a_left_through_carry() {
    let (mut cpu, mut mmu) = machine();
    load(&mut mmu, &[0x17]);
    cpu.registers.a = 0x80;
    cpu.registers.cf = false;
    cpu.step(&mut mmu).unwrap();
    assert_eq!(cpu.registers.a, 0x00);
    assert!(cpu.registers.cf);
    assert!(!cpu.registers.zf, "RLA always clears Z");
}

#[test]
fn sub_sets_borrow_flags() {
    let (mut cpu, mut mmu) = machine();
    load(&mut mmu, &[0x90]);
    cpu.registers.a = 0x10;
    cpu.registers.b = 0x21;
    cpu.step(&mut mmu).unwrap();
    assert_eq!(cpu.registers.a, 0xEF);
    assert!(cpu.registers.nf);
    assert!(cpu.registers.hf);
    assert!(cpu.registers.cf);
}

#[test]
fn bit_tests_the_complement_into_z() {
    let (mut cpu, mut mmu) = machine();
    load(&mut mmu, &[0xCB, 0x7F, 0xCB, 0x7F]);
    cpu.registers.a = 0x80;
    cpu.registers.cf = true;
    cpu.step(&mut mmu).unwrap();
    assert!(!cpu.registers.zf, "bit 7 set means Z clear");
    assert!(cpu.registers.hf);
    assert!(cpu.registers.cf, "BIT leaves C untouched");
    cpu.registers.a = 0x00;
    cpu.step(&mut mmu).unwrap();
    assert!(cpu.registers.zf, "bit 7 clear means Z set");
}

#[test]
fn add_hl_carries_from_bit_11() {
    let (mut cpu, mut mmu) = machine();
    load(&mut mmu, &[0x09]);
    cpu.registers.h = 0x0F;
    cpu.registers.l = 0xFF;
    cpu.registers.b = 0x00;
    cpu.registers.c = 0x01;
    cpu.registers.zf = true;
    cpu.step(&mut mmu).unwrap();
    assert_eq!(cpu.registers.h, 0x10);
    assert_eq!(cpu.registers.l, 0x00);
    assert!(cpu.registers.hf);
    assert!(!cpu.registers.cf);
    assert!(cpu.registers.zf, "ADD HL leaves Z untouched");
}

#[test]
fn ld_hl_sp_plus_offset_flags_from_low_byte() {
    let (mut cpu, mut mmu) = machine();
    load(&mut mmu, &[0xF8, 0xFF]);
    cpu.registers.sp = 0xD001;
    cpu.step(&mut mmu).unwrap();
    assert_eq!(cpu.registers.h, 0xD0);
    assert_eq!(cpu.registers.l, 0x00);
    assert!(cpu.registers.cf, "carry out of the low byte");
    assert!(!cpu.registers.zf);
}

#[test]
fn sbc_borrows_through_the_carry() {
    let (mut cpu, mut mmu) = machine();
    load(&mut mmu, &[0x98]);
    cpu.registers.a = 0x00;
    cpu.registers.b = 0x00;
    cpu.registers.cf = true;
    cpu.step(&mut mmu).unwrap();
    assert_eq!(cpu.registers.a, 0xFF);
    assert!(cpu.registers.nf);
    assert!(cpu.registers.hf);
    assert!(cpu.registers.cf);
}

#[test]
fn dec_hl_indirect_costs_twelve() {
    let (mut cpu, mut mmu) = machine();
    load(&mut mmu, &[0x35]);
    cpu.registers.h = 0xC1;
    cpu.registers.l = 0x00;
    mmu.write_8(0xC100, 0x01);
    assert_eq!(cpu.step(&mut mmu).unwrap(), 12);
    assert_eq!(mmu.read_8(0xC100), 0x00);
    assert!(cpu.registers.zf);
    assert!(cpu.registers.nf);
}

#[test]
fn reti_pops_and_enables_ime() {
    let (mut cpu, mut mmu) = machine();
    load(&mut mmu, &[0xD9]);
    cpu.registers.sp = 0xCFFE;
    mmu.write_8(0xCFFE, 0x34);
    mmu.write_8(0xCFFF, 0x12);
    assert_eq!(cpu.step(&mut mmu).unwrap(), 16);
    assert_eq!(cpu.registers.pc, 0x1234);
    assert_eq!(cpu.registers.sp, 0xD000);
    assert!(cpu.ime);
}

#[test]
fn stop_consumes_its_padding_byte() {
    let (mut cpu, mut mmu) = machine();
    load(&mut mmu, &[0x10, 0x00, 0x04]);
    assert_eq!(cpu.step(&mut mmu).unwrap(), 4);
    assert_eq!(cpu.registers.pc, 0xC002);
}

#[test]
fn ldh_stores_and_loads_through_the_io_page() {
    let (mut cpu, mut mmu) = machine();
    load(&mut mmu, &[0xE0, 0x80, 0x3E, 0x00, 0xF0, 0x80]);
    cpu.registers.a = 0x42;
    assert_eq!(cpu.step(&mut mmu).unwrap(), 12);
    assert_eq!(mmu.read_8(0xFF80), 0x42);
    cpu.step(&mut mmu).unwrap();
    assert_eq!(cpu.step(&mut mmu).unwrap(), 12);
    assert_eq!(cpu.registers.a, 0x42);
}

#[test]
fn halted_cpu_wakes_without_service_when_ime_clear() {
    let (mut cpu, mut mmu) = machine();
    load(&mut mmu, &[0x76, 0x04]);
    cpu.step(&mut mmu).unwrap();
    assert!(cpu.halted);
    mmu.write_8(0xFFFF, 0x01);
    mmu.write_8(0xFF0F, 0x01);
    assert_eq!(cpu.step(&mut mmu).unwrap(), 0, "leaving HALT services nothing");
    assert!(!cpu.halted);
    cpu.step(&mut mmu).unwrap();
    assert_eq!(cpu.registers.b, 1, "execution resumed past the HALT");
    assert_eq!(mmu.read_8(0xFF0F), 0x01, "IF untouched with IME clear");
}
