//! Subsystem and whole-machine behavior: memory routing, timer, joypad,
//! banking, rendering and frame timing.

use dmg_core::cartridge::{Cartridge, Error};
use dmg_core::dmg::DotMatrixGame;
use dmg_core::joypad::Joypad;
use dmg_core::lr35902::LR35902;
use dmg_core::mmu::MemoryMapUnit;
use dmg_core::ppu::{Mode, PixelProcessingUnit};
use dmg_core::thread::{DmgButton, DmgMessage, GuiMessage};
use dmg_core::timer::Timer;

fn plain_rom() -> Vec<u8> {
    vec![0u8; 0x8000]
}

fn mmu() -> MemoryMapUnit {
    let cart = Cartridge::new(plain_rom()).unwrap();
    let mut m = MemoryMapUnit::new(cart, vec![0u8; 256]);
    m.write_8(0xFF50, 1);
    m
}

#[test]
fn plain_addresses_store_their_byte() {
    let mut m = mmu();
    for a in [0x8000u16, 0x9FFF, 0xC000, 0xDFFF, 0xFE00, 0xFE9F, 0xFF80, 0xFFFE, 0xFFFF, 0xFF0F] {
        m.write_8(a, 0x5A);
        assert_eq!(m.read_8(a), 0x5A, "address {a:04X}");
    }
}

#[test]
fn unusable_region_reads_ff_and_drops_writes() {
    let mut m = mmu();
    m.write_8(0xFEA0, 0x12);
    assert_eq!(m.read_8(0xFEA0), 0xFF);
    assert_eq!(m.read_8(0xFEFF), 0xFF);
}

#[test]
fn echo_region_mirrors_work_ram() {
    let mut m = mmu();
    m.write_8(0xC123, 0x77);
    assert_eq!(m.read_8(0xE123), 0x77);
    m.write_8(0xE200, 0x42);
    assert_eq!(m.read_8(0xC200), 0x42);
}

#[test]
fn rom_region_ignores_writes() {
    let mut m = mmu();
    m.write_8(0x1234, 0x99);
    assert_eq!(m.read_8(0x1234), 0x00);
}

#[test]
fn read_16_is_little_endian_composition() {
    let mut m = mmu();
    m.write_8(0xC000, 0x34);
    m.write_8(0xC001, 0x12);
    assert_eq!(m.read_16(0xC000), 0x1234);
    assert_eq!(
        m.read_16(0xC000),
        (m.read_8(0xC000) as u16) | ((m.read_8(0xC001) as u16) << 8)
    );
}

#[test]
fn boot_rom_shadows_low_addresses_until_ff50() {
    let mut rom = plain_rom();
    rom[0x0000] = 0xAA;
    let cart = Cartridge::new(rom).unwrap();
    let mut boot = vec![0u8; 256];
    boot[0] = 0xBB;
    let mut m = MemoryMapUnit::new(cart, boot);
    assert_eq!(m.read_8(0x0000), 0xBB);
    m.write_8(0xFF50, 1);
    assert_eq!(m.read_8(0x0000), 0xAA);
}

#[test]
fn div_write_resets_then_counts_at_16384_hz() {
    let mut t = Timer::new();
    for _ in 0..1000 {
        t.tick();
    }
    t.write_8(0xFF04, 0x77);
    assert_eq!(t.read_8(0xFF04), 0);
    for _ in 0..256 {
        t.tick();
    }
    assert_eq!(t.read_8(0xFF04), 1);
    for _ in 0..512 {
        t.tick();
    }
    assert_eq!(t.read_8(0xFF04), 3);
}

#[test]
fn timer_overflow_reloads_tma_and_raises_interrupt() {
    let mut m = mmu();
    m.write_8(0xFF06, 0xAB);
    m.write_8(0xFF05, 0xFF);
    for _ in 0..4 {
        m.timer_tick();
    }
    m.write_8(0xFF07, 0x05);
    for _ in 0..11 {
        m.timer_tick();
    }
    assert_eq!(m.read_8(0xFF05), 0xFF, "no increment before the falling edge");
    m.timer_tick();
    assert_eq!(m.read_8(0xFF05), 0x00, "overflow leaves TIMA at zero for four cycles");
    for _ in 0..4 {
        assert_eq!(m.read_8(0xFF0F) & 0x04, 0);
        m.timer_tick();
    }
    assert_eq!(m.read_8(0xFF05), 0xAB, "TIMA reloaded from TMA sixteen cycles after the enable edge");
    assert_eq!(m.read_8(0xFF0F) & 0x04, 0x04, "timer interrupt raised");
}

#[test]
fn tima_write_during_reload_window_aborts_it() {
    let mut t = Timer::new();
    t.write_8(0xFF06, 0xAB);
    t.write_8(0xFF05, 0xFF);
    t.write_8(0xFF07, 0x05);
    for _ in 0..16 {
        t.tick();
    }
    assert_eq!(t.read_8(0xFF05), 0x00);
    t.write_8(0xFF05, 0x55);
    for _ in 0..8 {
        assert!(!t.tick(), "aborted reload must not raise the interrupt");
    }
    assert_eq!(t.read_8(0xFF05), 0x55);
}

#[test]
fn div_write_with_tracked_bit_high_bumps_tima() {
    let mut t = Timer::new();
    t.write_8(0xFF07, 0x05);
    for _ in 0..8 {
        t.tick();
    }
    assert_eq!(t.read_8(0xFF05), 0);
    t.write_8(0xFF04, 0);
    assert_eq!(t.read_8(0xFF05), 1, "the falling edge from the DIV reset counts");
}

#[test]
fn joypad_same_select_bits_same_read() {
    let mut j = Joypad::new();
    j.write(0x10);
    let first = j.read();
    j.write(0x13);
    let second = j.read();
    assert_eq!(first, second);
}

#[test]
fn joypad_read_assembles_selected_half() {
    let mut j = Joypad::new();
    j.write(0x30);
    assert_eq!(j.read(), 0x3F);
    j.button_pressed(DmgButton::Up);
    j.write(0x10);
    assert_eq!(j.read(), 0x1B, "Up pressed clears bit 2 of the pad half");
    j.write(0x20);
    assert_eq!(j.read(), 0x2F, "action half untouched");
    j.button_released(DmgButton::Up);
    j.write(0x10);
    assert_eq!(j.read(), 0x1F);
}

#[test]
fn joypad_press_in_active_half_raises_interrupt() {
    let cart = Cartridge::new(plain_rom()).unwrap();
    let mut g = DotMatrixGame::new(cart, vec![0u8; 256]);
    g.mmu.write_8(0xFF00, 0x20);
    g.button_pressed(DmgButton::B);
    assert_eq!(g.mmu.read_8(0xFF0F) & 0x10, 0x10);
    g.mmu.write_8(0xFF0F, 0);
    g.button_pressed(DmgButton::Left);
    assert_eq!(g.mmu.read_8(0xFF0F) & 0x10, 0, "pad half inactive: no interrupt");
}

#[test]
fn oam_dma_copies_160_bytes() {
    let mut m = mmu();
    for i in 0..160u16 {
        m.write_8(0xC100 + i, (i as u8) ^ 0x5A);
    }
    m.write_8(0xFF46, 0xC1);
    for i in 0..160u16 {
        assert_eq!(m.read_8(0xFE00 + i), ((i as u8) ^ 0x5A), "byte {i}");
    }
}

#[test]
fn mbc1_bank_switch_maps_the_chosen_bank() {
    let mut rom = vec![0u8; 0x10000];
    rom[0x0147] = 0x01;
    rom[0x0148] = 0x01;
    rom[0x0149] = 0x00;
    rom[0x8000] = 0xAB;
    rom[0x4000] = 0xCD;
    let mut cart = Cartridge::new(rom).unwrap();
    assert_eq!(cart.read_8(0x4000), 0xCD, "bank 1 mapped at reset");
    cart.write_8(0x2000, 0x02);
    assert_eq!(cart.read_8(0x4000), 0xAB, "bank 2 after the switch");
}

#[test]
fn mbc1_zero_bank_quirk_selects_bank_one() {
    let mut rom = vec![0u8; 0x10000];
    rom[0x0147] = 0x01;
    rom[0x0148] = 0x01;
    rom[0x4000] = 0xCD;
    let mut cart = Cartridge::new(rom).unwrap();
    cart.write_8(0x2000, 0x00);
    assert_eq!(cart.read_8(0x4000), 0xCD);
}

#[test]
fn mbc1_ram_needs_enabling() {
    let mut rom = vec![0u8; 0x8000];
    rom[0x0147] = 0x03;
    rom[0x0148] = 0x00;
    rom[0x0149] = 0x02;
    let mut cart = Cartridge::new(rom).unwrap();
    cart.write_8(0xA000, 0x12);
    assert_eq!(cart.read_8(0xA000), 0xFF, "disabled RAM reads 0xFF");
    cart.write_8(0x0000, 0x0A);
    cart.write_8(0xA000, 0x12);
    assert_eq!(cart.read_8(0xA000), 0x12);
    cart.write_8(0x0000, 0x00);
    assert_eq!(cart.read_8(0xA000), 0xFF);
}

#[test]
fn cartridge_errors_cover_the_header_faults() {
    assert!(matches!(Cartridge::new(vec![0u8; 0x100]), Err(Error::InvalidRomSize)));
    let mut rom = vec![0u8; 0x8000];
    rom[0x0147] = 0x01;
    rom[0x0149] = 0x07;
    assert!(matches!(Cartridge::new(rom), Err(Error::InvalidHeader(_))));
    let mut rom = vec![0u8; 0x8000];
    rom[0x0147] = 0x05;
    match Cartridge::new(rom) {
        Err(Error::UnimplementedMBC(b)) => assert_eq!(b, 0x05),
        _ => panic!("expected the unimplemented-MBC error"),
    }
}

#[test]
fn frame_takes_70224_cycles_and_emits_once() {
    let mut m = mmu();
    m.write_8(0xFF40, 0x91);
    let mut ppu = PixelProcessingUnit::new();
    let mut total: usize = 0;
    let mut steps: usize = 0;
    while steps < 442 {
        total += ppu.step(&mut m);
        steps += 1;
    }
    assert_eq!(total, 70224);
    assert_eq!(ppu.line, 0);
    assert!(matches!(ppu.mode, Mode::OAMSearch));
    assert_eq!(ppu.frame_count, 1);
    assert_eq!(m.read_8(0xFF0F) & 0x01, 0x01, "VBlank interrupt raised during the frame");
}

#[test]
fn lcd_off_freezes_the_ppu_and_raises_nothing() {
    let mut m = mmu();
    let mut ppu = PixelProcessingUnit::new();
    let before: Vec<u8> = ppu.framebuffer.clone();
    for _ in 0..50000 {
        let t = ppu.step(&mut m);
        assert_eq!(t, 4);
    }
    assert_eq!(ppu.frame_count, 0);
    assert_eq!(m.read_8(0xFF0F), 0, "no interrupt with the LCD off");
    assert_eq!(ppu.framebuffer, before, "framebuffer stays at the reset baseline");
    m.write_8(0xFF40, 0x80);
    let mut total: usize = 0;
    while ppu.frame_count == 0 {
        total += ppu.step(&mut m);
    }
    assert!(total <= 70224);
    assert_eq!(m.read_8(0xFF0F) & 0x01, 0x01, "VBlank fires once the LCD is back on");
}

#[test]
fn background_line_renders_through_bgp() {
    let mut m = mmu();
    m.write_8(0xFF40, 0x91);
    m.write_8(0xFF47, 0xE4);
    m.write_8(0x8000, 0xFF);
    let mut ppu = PixelProcessingUnit::new();
    for _ in 0..3 {
        ppu.step(&mut m);
    }
    for x in 0..160 {
        assert_eq!(ppu.framebuffer[x], 1, "line 0 shows color index 1 as shade 1");
    }
    for x in 0..160 {
        assert_eq!(ppu.framebuffer[160 + x], 0, "line 1 still at the baseline");
    }
}

#[test]
fn sprite_wins_over_background() {
    let mut m = mmu();
    m.write_8(0xFF40, 0x93);
    m.write_8(0xFF47, 0xE4);
    m.write_8(0xFF48, 0x08);
    m.write_8(0x8010, 0x80);
    m.write_8(0xFE00, 16);
    m.write_8(0xFE01, 8);
    m.write_8(0xFE02, 1);
    m.write_8(0xFE03, 0);
    let mut ppu = PixelProcessingUnit::new();
    for _ in 0..3 {
        ppu.step(&mut m);
    }
    assert_eq!(ppu.framebuffer[0], 2, "sprite pixel through OBP0");
    assert_eq!(ppu.framebuffer[1], 0, "transparent sprite pixel shows the background");
}

#[test]
fn nop_sled_reaches_halt_after_65536_cycles() {
    let mut rom = plain_rom();
    rom[0x4000] = 0x76;
    let cart = Cartridge::new(rom).unwrap();
    let mut g = DotMatrixGame::new(cart, vec![0u8; 256]);
    g.mmu.write_8(0xFF50, 1);
    g.run_ticks(65536).unwrap();
    assert!(!g.cpu.halted, "the HALT itself is only fetched on the next cycle");
    g.run_ticks(1).unwrap();
    assert!(g.cpu.halted);
    assert_eq!(g.cpu.registers.pc, 0x4001);
    assert_eq!(g.mmu.read_8(0xFF04), 0, "DIV advanced by 256, wrapping to 0");
    assert_eq!(g.mmu.timer.counter, (65537 % 65536) as u16);
}

#[test]
fn machine_execution_is_deterministic() {
    let mut rom = plain_rom();
    for (i, b) in [0x3E, 0x12, 0x06, 0x34, 0x80, 0x32, 0x18, 0xF8].iter().enumerate() {
        rom[0x100 + i] = *b;
    }
    let make = || {
        let cart = Cartridge::new(rom.clone()).unwrap();
        let mut g = DotMatrixGame::new(cart, vec![0u8; 256]);
        g.mmu.write_8(0xFF50, 1);
        g.cpu.registers.pc = 0x0100;
        g
    };
    let mut g1 = make();
    let mut g2 = make();
    g1.run_ticks(30000).unwrap();
    g2.run_ticks(30000).unwrap();
    assert_eq!(g1.registers(), g2.registers());
    assert_eq!(g1.memory_dump(), g2.memory_dump());
    assert_eq!(g1.frame_count(), g2.frame_count());
}

#[test]
fn memory_dump_matches_reads() {
    let mut m = mmu();
    m.write_8(0xC000, 0x11);
    m.write_8(0x8000, 0x22);
    let dump = m.get_memory_dump();
    assert_eq!(dump.len(), 0x10000);
    assert_eq!(dump[0xC000], 0x11);
    assert_eq!(dump[0x8000], 0x22);
    assert_eq!(dump[0xFEA0], 0xFF);
}

#[test]
fn vram_snapshot_covers_the_tile_data() {
    let mut m = mmu();
    m.write_8(0x8123, 0x66);
    let v = m.vram();
    assert_eq!(v.len(), 0x2000);
    assert_eq!(v[0x123], 0x66);
}

#[test]
fn cpu_reset_state_is_cleared() {
    let c = LR35902::new();
    assert_eq!(c.registers.pc, 0);
    assert_eq!(c.registers.sp, 0);
    assert!(!c.ime);
    assert!(!c.halted);
}

#[test]
fn window_replaces_background_from_wx() {
    let mut m = mmu();
    m.write_8(0xFF40, 0xF1);
    m.write_8(0xFF47, 0xE4);
    m.write_8(0xFF4A, 0);
    m.write_8(0xFF4B, 7);
    m.write_8(0x8010, 0xFF);
    m.write_8(0x9C00, 1);
    let mut ppu = PixelProcessingUnit::new();
    for _ in 0..3 {
        ppu.step(&mut m);
    }
    for x in 0..8 {
        assert_eq!(ppu.framebuffer[x], 1, "the first window tile covers pixels 0-7 of line 0");
    }
    assert_eq!(ppu.framebuffer[8], 0, "the next window map entry is still tile 0");
    assert_eq!(ppu.window_line, 1, "the window line counter advanced");
    for _ in 0..3 {
        ppu.step(&mut m);
    }
    assert_eq!(ppu.framebuffer[160], 0, "row 1 of the window tile is blank");
}

#[test]
fn boot_rom_that_leaves_lcd_off_keeps_the_frame_blank() {
    let rom = plain_rom();
    let cart = Cartridge::new(rom).unwrap();
    let mut boot = vec![0u8; 256];
    for (i, b) in [0x3E, 0x00, 0xE0, 0x40, 0x18, 0xFE].iter().enumerate() {
        boot[i] = *b;
    }
    let mut g = DotMatrixGame::new(cart, boot);
    g.run_ticks(200_000).unwrap();
    assert_eq!(g.frame_count(), 0, "no frame completes with the LCD off");
    assert_eq!(g.mmu.read_8(0xFF0F), 0, "no VBlank interrupt with the LCD off");
    assert!(g.framebuffer().iter().all(|&s| s == 0), "reset-white baseline kept");
}

#[test]
fn step_mode_advances_one_instruction_at_a_time() {
    let mut rom = plain_rom();
    rom[0x100] = 0x04;
    rom[0x101] = 0x04;
    let cart = Cartridge::new(rom).unwrap();
    let mut g = DotMatrixGame::new(cart, vec![0u8; 256]);
    g.mmu.write_8(0xFF50, 1);
    g.cpu.registers.pc = 0x0100;
    assert_eq!(g.step_instruction().unwrap(), 4);
    assert_eq!(g.cpu.registers.b, 1);
    assert_eq!(g.step_instruction().unwrap(), 4);
    assert_eq!(g.cpu.registers.b, 2);
    assert_eq!(g.cpu.registers.pc, 0x0102);
}

#[test]
fn host_messages_steer_the_core() {
    let cart = Cartridge::new(plain_rom()).unwrap();
    let mut g = DotMatrixGame::new(cart, vec![0u8; 256]);
    let (keep, replies) = g.handle_message(GuiMessage::StepMode(true));
    assert!(keep);
    assert!(replies.is_empty());
    assert!(g.step_mode);
    let (keep, _) = g.handle_message(GuiMessage::NextInstruction(5));
    assert!(keep);
    assert_eq!(g.step_count, 5);
    let (keep, replies) = g.handle_message(GuiMessage::RequestState);
    assert!(keep);
    assert_eq!(replies.len(), 2);
    match &replies[0] {
        DmgMessage::RegistersStatus(regs) => assert_eq!(*regs, g.registers()),
        _ => panic!("first reply must be the register snapshot"),
    }
    match &replies[1] {
        DmgMessage::MemoryState(mem) => assert_eq!(mem.len(), 0x10000),
        _ => panic!("second reply must be the memory snapshot"),
    }
    let (keep, _) = g.handle_message(GuiMessage::Close);
    assert!(!keep, "Close asks the caller to finish");
}

#[test]
fn decode_fault_surfaces_through_the_machine() {
    let mut rom = plain_rom();
    rom[0x100] = 0xDB;
    let cart = Cartridge::new(rom).unwrap();
    let mut g = DotMatrixGame::new(cart, vec![0u8; 256]);
    g.mmu.write_8(0xFF50, 1);
    g.cpu.registers.pc = 0x0100;
    assert!(g.run_ticks(100).is_err(), "the unused opcode halts the core");
}

#[test]
fn read_16_wraps_at_the_top_of_the_address_space() {
    let mut m = mmu();
    m.write_8(0xFFFF, 0x34);
    let low = m.read_8(0xFFFF) as u16;
    let high = m.read_8(0x0000) as u16;
    assert_eq!(m.read_16(0xFFFF), low | (high << 8));
}
