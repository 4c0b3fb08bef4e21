//! Exercises of the emulator core: register packing, the ALU's flag rules,
//! the bus dispatch, the timer and the cartridge loader.

use gameboy_core::cartridge_controller::{calc_checksum, CartridgeController, CartridgeError};
use gameboy_core::emulator::GameBoyMode;
use gameboy_core::ic::{Ic, Irq};
use gameboy_core::joypad::Joypad;
use gameboy_core::mmu::IoDevice;
use gameboy_core::ppu::status_register::PpuMode;
use gameboy_core::ppu::Ppu;
use gameboy_core::processor::registers::{Reg16, Registers};
use gameboy_core::processor::Processor;
use gameboy_core::ram::Ram;
use gameboy_core::timer::Timer;
use gameboy_core::utils::{build_u16, get_u16_high, get_u16_low};

#[test]
fn word_helpers_round_trip() {
    let w = build_u16(0x12, 0x34);
    assert_eq!(w, 0x1234);
    assert_eq!(get_u16_high(w), 0x12);
    assert_eq!(get_u16_low(w), 0x34);
}

#[test]
fn af_pair_masks_low_nibble() {
    let mut regs = Registers::new();
    regs.write16(Reg16::AF, 0xABCD);
    assert_eq!(regs.a, 0xAB);
    assert_eq!(regs.read16(Reg16::AF), 0xABC0);
    assert!(regs.zf_bit);
    assert!(regs.nf_bit);
    assert!(!regs.hf_bit);
    assert!(!regs.cf_bit);
}

#[test]
fn push_af_pop_af_restores_a_and_flags() {
    let mut regs = Registers::new();
    regs.a = 0x5A;
    regs.zf_bit = true;
    regs.cf_bit = true;
    let pushed = regs.read16(Reg16::AF);
    let mut other = Registers::new();
    other.write16(Reg16::AF, pushed);
    assert_eq!(other.a, 0x5A);
    assert!(other.zf_bit && other.cf_bit && !other.nf_bit && !other.hf_bit);
    assert_eq!(other.read16(Reg16::AF) % 16, 0);
}

#[test]
fn adc_carries_per_the_rule() {
    let mut cpu = Processor::new();
    cpu.registers.a = 0xFF;
    let res = cpu.alu_add(0x01, false);
    assert_eq!(res, 0x00);
    assert!(cpu.registers.zf_bit);
    assert!(!cpu.registers.nf_bit);
    assert!(cpu.registers.hf_bit);
    assert!(cpu.registers.cf_bit);
}

#[test]
fn sbc_borrows_per_the_rule() {
    let mut cpu = Processor::new();
    cpu.registers.a = 0x00;
    let res = cpu.alu_sub(0x01, false);
    assert_eq!(res, 0xFF);
    assert!(!cpu.registers.zf_bit);
    assert!(cpu.registers.nf_bit);
    assert!(cpu.registers.hf_bit);
    assert!(cpu.registers.cf_bit);
}

#[test]
fn daa_is_idempotent_on_bcd() {
    for value in 0..100u8 {
        let bcd = (value / 10) * 16 + value % 10;
        let mut cpu = Processor::new();
        cpu.registers.a = bcd;
        cpu.daa();
        assert_eq!(cpu.registers.a, bcd);
        cpu.daa();
        assert_eq!(cpu.registers.a, bcd);
    }
}

#[test]
fn daa_adjusts_after_addition() {
    // 0x15 + 0x27 in BCD is 0x42: the binary sum 0x3C needs a 0x06 fix.
    let mut cpu = Processor::new();
    cpu.registers.a = 0x15;
    cpu.alu_add(0x27, false);
    assert_eq!(cpu.registers.a, 0x3C);
    cpu.daa();
    assert_eq!(cpu.registers.a, 0x42);
}

#[test]
fn timer_divider_counts_every_256_cycles() {
    let mut timer = Timer::new();
    let mut irq = Irq::new();
    timer.cycle(&mut irq, 512 + 10);
    assert_eq!(timer.divider, 2);
    assert_eq!(timer.divider_clock, 10);
    assert!(!irq.lines.timer);
}

#[test]
fn timer_overflow_reloads_and_raises() {
    let mut timer = Timer::new();
    let mut irq = Irq::new();
    timer.write_byte(0xFF06, 0x20);
    timer.write_byte(0xFF05, 0xFF);
    timer.write_byte(0xFF07, 0x05); // enabled, 16 cycles per step
    timer.cycle(&mut irq, 16);
    assert_eq!(timer.timer, 0x20);
    assert!(irq.lines.timer);
}

#[test]
fn interrupt_priority_and_consume() {
    let mut ic = Ic::new();
    ic.write_byte(0xFFFF, 0x1F);
    ic.write_byte(0xFF0F, 0x05); // v-blank and timer requested
    assert_eq!(ic.peek(), Some(0x40));
    assert_eq!(ic.consume(), Some(0x40));
    assert_eq!(ic.consume(), Some(0x50));
    assert_eq!(ic.consume(), None);
}

#[test]
fn ram_echo_mirrors_work_ram() {
    let mut ram = Ram::new();
    ram.write_byte(0xC123, 0x77);
    match ram.read_byte(0xE123) {
        gameboy_core::mmu::MemRead::Read(v) => assert_eq!(v, 0x77),
        _ => panic!("echo RAM must answer"),
    }
}

#[test]
fn checksum_rejects_bad_header() {
    let mut rom = vec![0u8; 0x8000];
    rom[0x14D] = 0x12; // wrong on purpose: the computed sum over zeros differs
    let sum = calc_checksum(&rom);
    assert_ne!(sum, rom[0x14D]);
    let boot = vec![0u8; 0x100];
    let r = CartridgeController::new(rom, boot, GameBoyMode::Classic, false);
    assert!(matches!(r, Err(CartridgeError::BadChecksum)));
}

#[test]
fn unknown_cartridge_type_is_rejected() {
    let mut rom = vec![0u8; 0x8000];
    rom[0x147] = 0x13;
    let boot = vec![0u8; 0x100];
    let r = CartridgeController::new(rom, boot, GameBoyMode::Classic, true);
    assert!(matches!(r, Err(CartridgeError::UnsupportedCartridgeType)));
}

#[test]
fn boot_rom_hand_off() {
    let mut rom = vec![0u8; 0x8000];
    rom[0x00] = 0xAA;
    let mut boot = vec![0u8; 0x100];
    boot[0x00] = 0x55;
    let mut cart = CartridgeController::new(rom, boot, GameBoyMode::Classic, true).unwrap();
    match cart.read_byte(0x0000) {
        gameboy_core::mmu::MemRead::Read(v) => assert_eq!(v, 0x55),
        _ => panic!("boot ROM must answer"),
    }
    cart.write_byte(0xFF50, 0x01);
    match cart.read_byte(0x0000) {
        gameboy_core::mmu::MemRead::Read(v) => assert_eq!(v, 0xAA),
        _ => panic!("cartridge must answer"),
    }
}

#[test]
fn ppu_frame_returns_to_line_zero() {
    let mut ppu = Ppu::new(GameBoyMode::Classic);
    let mut irq = Irq::new();
    let mut drawn = 0usize;
    let mut t = 0u32;
    while t < 70224 {
        let lines = ppu.cycle(&mut irq, 4);
        drawn += lines.len();
        t += 4;
    }
    let (mode, clock) = ppu.get_status();
    assert_eq!(ppu.line, 0);
    assert!(matches!(mode, PpuMode::OAM));
    assert_eq!(clock, 0);
    assert_eq!(drawn, 144);
    assert!(irq.lines.v_blank);
}

#[test]
fn joypad_reads_selected_bank_active_low() {
    let mut pad = Joypad::new();
    let mut keys = gameboy_core::hardware::KeyState::new();
    keys.a = true;
    pad.write_byte(0xFF00, 0x10); // select the action bank (bit 5 low)
    let mut irq = Irq::new();
    pad.poll(keys, &mut irq);
    assert!(irq.lines.joypad);
    match pad.read_byte(0xFF00) {
        gameboy_core::mmu::MemRead::Read(v) => assert_eq!(v % 16, 0x0E),
        _ => panic!("joypad must answer"),
    }
}
