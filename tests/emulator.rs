use gamecrab::alu::{add_u16_i8, alu, daa, sp_offset, AluOp};
use gamecrab::bus::{cart_type_from_code, sram_size, Bus, CartType};
use gamecrab::clock::Clock;
use gamecrab::cpu::{Cpu, Flag, Interrupt, Reg, Reg16};
use gamecrab::emu::{Emu, RegHw};
use gamecrab::gamepad::GamepadRegion;
use gamecrab::ppu::Ppu;
use gamecrab::tables::{inst_base_cycles, inst_length};
use gamecrab::timer::Timer;

fn rom_with(cart: u8, sram_code: u8, banks: usize) -> Vec<u8> {
    let mut rom: Vec<u8> = (0..banks * 0x4000).map(|i| (i % 251) as u8).collect();
    rom[0x147] = cart;
    rom[0x149] = sram_code;
    rom
}

fn program_rom(code: &[u8]) -> Vec<u8> {
    let mut rom = vec![0u8; 0x8000];
    rom[0x100..0x100 + code.len()].copy_from_slice(code);
    rom
}

/// Runs the CPU alone until it has executed `n` instructions.
fn run_instructions(cpu: &mut Cpu, bus: &mut Bus, clock: &mut Clock, n: usize) {
    for _ in 0..n {
        clock.t_state = cpu.next_inst_t_state;
        cpu.tick(bus, clock);
    }
}

#[test]
fn reset_state_registers() {
    let emu = Emu::new(program_rom(&[]), None);
    let cpu = &emu.cpu;
    assert_eq!(cpu.get_reg(&emu.bus, Reg::A), 0x01);
    assert_eq!(cpu.get_reg(&emu.bus, Reg::F), 0b1000_0000);
    assert_eq!(cpu.get_reg_16(Reg16::BC), 0x0013);
    assert_eq!(cpu.get_reg_16(Reg16::DE), 0x00D8);
    assert_eq!(cpu.get_reg_16(Reg16::HL), 0x014D);
    assert_eq!(cpu.get_reg_16(Reg16::SP), 0xFFFE);
    assert_eq!(cpu.get_reg_16(Reg16::PC), 0x0100);
    assert!(!cpu.ime);
}

#[test]
fn load_add_halt_program() {
    let mut emu = Emu::new(program_rom(&[0x3E, 0x42, 0xC6, 0x08, 0x76]), None);
    for _ in 0..8 {
        emu.tick();
    }
    let cpu = &emu.cpu;
    assert_eq!(cpu.a, 0x4A);
    assert!(!cpu.get_flag(Flag::Z));
    assert!(!cpu.get_flag(Flag::N));
    assert!(!cpu.get_flag(Flag::H));
    assert!(!cpu.get_flag(Flag::C));
    assert!(cpu.halting);
    assert_eq!(cpu.pc, 0x0105);
}

#[test]
fn mbc1_bank_switching() {
    let rom = rom_with(0x03, 0x03, 8);
    let expected = rom[0x05 * 0x4000 + 0x1000];
    let mut bus = Bus::new(rom, Some(vec![0u8; 0x8000]));
    bus.set(0x2000, 0x05);
    bus.set(0x4000, 0x02);
    assert_eq!(bus.rom_bank, 5);
    assert_eq!(bus.sram_bank, 2);
    assert_eq!(bus.get(0x5000), expected);
    bus.set(0xA123, 0x77);
    assert_eq!(bus.sram.as_ref().unwrap()[0x2 * 0x2000 + 0x123], 0x77);
    assert_eq!(bus.get(0xA123), 0x77);
}

#[test]
fn mbc1_zero_bank_write_selects_bank_one() {
    let mut bus = Bus::new(rom_with(0x01, 0, 4), None);
    bus.set(0x2000, 0x00);
    assert_eq!(bus.rom_bank, 1);
    bus.set(0x3FFF, 0x20);
    assert_eq!(bus.rom_bank, 1);
}

#[test]
fn mbc3_zero_bank_write_selects_bank_one() {
    let mut bus = Bus::new(rom_with(0x13, 0, 4), None);
    bus.set(0x2000, 0x80);
    assert_eq!(bus.rom_bank, 1);
    bus.set(0x2000, 0x7F);
    assert_eq!(bus.rom_bank, 0x7F);
}

#[test]
fn mbc5_nine_bit_bank() {
    let mut bus = Bus::new(rom_with(0x19, 0, 4), None);
    bus.set(0x2000, 0xFF);
    bus.set(0x3000, 0x01);
    assert_eq!(bus.rom_bank, 0x1FF);
    bus.set(0x2FFF, 0x00);
    bus.set(0x3FFF, 0x00);
    assert_eq!(bus.rom_bank, 0);
}

#[test]
fn rom_only_cart_ignores_bank_writes() {
    let mut bus = Bus::new(rom_with(0x00, 0, 2), None);
    bus.set(0x2000, 0x03);
    bus.set(0x4000, 0x03);
    assert_eq!(bus.rom_bank, 1);
    assert_eq!(bus.sram_bank, 0);
}

#[test]
fn reads_past_rom_end_give_ff() {
    let mut bus = Bus::new(rom_with(0x01, 0, 2), None);
    bus.set(0x2000, 0x05);
    assert_eq!(bus.get(0x4000), 0xFF);
}

#[test]
fn timer_overflow_reloads_and_requests_once() {
    let mut emu = Emu::new(program_rom(&[]), None);
    emu.bus.set(0xFF07, 0b101);
    emu.bus.set(0xFF05, 0xFF);
    emu.bus.set(0xFF06, 0x33);
    for _ in 0..4 {
        emu.tick();
    }
    assert_eq!(emu.bus.get(0xFF05), 0x33);
    assert_eq!(emu.bus.get(RegHw::IF.addr()) & 0x04, 0x04);
    assert_eq!(emu.bus.get(RegHw::IF.addr()) & 0x1F, 0x04);
}

#[test]
fn timer_overflow_counted_exactly_once() {
    let mut t = Timer::new();
    t.set(3, 0b101);
    t.set(1, 0xFF);
    t.set(2, 0x33);
    let mut overflows = 0;
    for _ in 0..16 {
        t.tick();
        if t.overflow {
            t.overflow = false;
            overflows += 1;
        }
    }
    assert_eq!(overflows, 1);
    assert_eq!(t.get(1), 0x33);
}

#[test]
fn timer_div_write_clears_divider() {
    let mut t = Timer::new();
    for _ in 0..300 {
        t.tick();
    }
    assert_eq!(t.get(0), 1);
    assert_eq!(t.subdiv, 44);
    t.set(0, 0x99);
    assert_eq!(t.get(0), 0);
    assert_eq!(t.subdiv, 0);
}

#[test]
fn timer_4096_hz_counts_every_1024_t_states() {
    let mut t = Timer::new();
    t.set(3, 0b100);
    for _ in 0..1023 {
        t.tick();
    }
    assert_eq!(t.get(1), 0);
    t.tick();
    assert_eq!(t.get(1), 1);
}

#[test]
fn oam_dma_from_wram() {
    let mut bus = Bus::new(rom_with(0, 0, 2), None);
    for i in 0..0xA0u16 {
        bus.set(0xC100 + i, i as u8);
    }
    bus.set(0xFF46, 0xC1);
    for i in 0..0xA0u16 {
        assert_eq!(bus.get(0xFE00 + i), i as u8);
        assert_eq!(bus.oam.get(i as u8), i as u8);
    }
    assert_eq!(bus.get(0xFF46), 0xC1);
}

#[test]
fn background_identity_palette_clears_frame() {
    let mut bus = Bus::new(rom_with(0, 0, 2), None);
    let mut ppu = Ppu::new();
    for px in ppu.framebuffer.iter_mut() {
        *px = 3;
    }
    bus.set(0xFF40, 0x91);
    bus.set(0xFF47, 0xE4);
    let mut clock = Clock::new();
    for _ in 0..144 {
        ppu.tick(&mut bus, &clock);
        clock.t_state += 456;
    }
    assert!(ppu.framebuffer.iter().all(|&c| c == 0));
    assert_eq!(ppu.current_line, 144);
}

#[test]
fn background_tile_pixels() {
    let mut bus = Bus::new(rom_with(0, 0, 2), None);
    let mut ppu = Ppu::new();
    bus.set(0xFF40, 0x91);
    bus.set(0xFF47, 0xE4);
    bus.set(0x9800, 1);
    bus.set(0x8010, 0b1000_0001);
    bus.set(0x8011, 0b1100_0000);
    let clock = Clock::new();
    ppu.tick(&mut bus, &clock);
    assert_eq!(&ppu.framebuffer[0..9], &[3, 2, 0, 0, 0, 0, 0, 1, 0]);
}

#[test]
fn sprite_drawn_over_background() {
    let mut bus = Bus::new(rom_with(0, 0, 2), None);
    let mut ppu = Ppu::new();
    bus.set(0xFF40, 0x93);
    bus.set(0xFF47, 0xE4);
    bus.set(0xFF48, 0xE4);
    bus.set(0xFE00, 16);
    bus.set(0xFE01, 8);
    bus.set(0xFE02, 2);
    bus.set(0x8020, 0xFF);
    bus.set(0x8021, 0x0F);
    let clock = Clock::new();
    ppu.tick(&mut bus, &clock);
    assert_eq!(&ppu.framebuffer[0..9], &[1, 1, 1, 1, 3, 3, 3, 3, 0]);
}

#[test]
fn sprite_limit_of_ten_per_line() {
    let mut bus = Bus::new(rom_with(0, 0, 2), None);
    let mut ppu = Ppu::new();
    bus.set(0xFF40, 0x82);
    bus.set(0xFF48, 0xE4);
    for k in 0..12u16 {
        bus.set(0xFE00 + 4 * k, 16);
        bus.set(0xFE01 + 4 * k, 8 + 8 * k as u8);
        bus.set(0xFE02 + 4 * k, 1);
    }
    bus.set(0x8010, 0xFF);
    let clock = Clock::new();
    ppu.tick(&mut bus, &clock);
    assert!(ppu.framebuffer[0..80].iter().all(|&c| c == 1));
    assert!(ppu.framebuffer[80..96].iter().all(|&c| c == 0));
}

#[test]
fn vblank_raised_once_per_frame() {
    let mut bus = Bus::new(rom_with(0, 0, 2), None);
    let mut ppu = Ppu::new();
    let mut clock = Clock::new();
    let mut raised_on = Vec::new();
    for _ in 0..154 {
        let line = ppu.current_line;
        ppu.tick(&mut bus, &clock);
        if ppu.irq_vblank {
            ppu.irq_vblank = false;
            raised_on.push(line);
        }
        clock.t_state += 456;
    }
    assert_eq!(raised_on, vec![144]);
    assert_eq!(ppu.current_line, 0);
}

#[test]
fn ppu_waits_for_its_gate() {
    let mut bus = Bus::new(rom_with(0, 0, 2), None);
    let mut ppu = Ppu::new();
    let mut clock = Clock::new();
    ppu.tick(&mut bus, &clock);
    assert_eq!(ppu.current_line, 1);
    clock.t_state = 455;
    ppu.tick(&mut bus, &clock);
    assert_eq!(ppu.current_line, 1);
    clock.t_state = 456;
    ppu.tick(&mut bus, &clock);
    assert_eq!(ppu.current_line, 2);
    assert_eq!(bus.get(RegHw::LY.addr()), 1);
}

#[test]
fn emu_delivers_vblank_interrupt() {
    let mut emu = Emu::new(program_rom(&[0x18, 0xFE]), None);
    for _ in 0..(145 * 456 / 4) {
        emu.tick();
    }
    assert_eq!(emu.bus.get(0xFF0F) & 0x01, 0x01);
    assert!(!emu.ppu.irq_vblank);
}

#[test]
fn echo_ram_mirrors_wram() {
    let mut bus = Bus::new(rom_with(0, 0, 2), None);
    bus.set(0xC123, 0x5A);
    assert_eq!(bus.get(0xE123), 0x5A);
    bus.set(0xE200, 0xA5);
    assert_eq!(bus.get(0xC200), 0xA5);
    bus.set(0xDDFF, 0x11);
    assert_eq!(bus.get(0xFDFF), 0x11);
}

#[test]
fn interrupt_registers_keep_top_bits() {
    let mut bus = Bus::new(rom_with(0, 0, 2), None);
    bus.set(0xFF0F, 0x01);
    assert_eq!(bus.get(0xFF0F), 0xE1);
    bus.set(0xFFFF, 0x00);
    assert_eq!(bus.get(0xFFFF), 0xE0);
    bus.set(0xFF10, 0x00);
    assert_eq!(bus.get(0xFF10), 0x00);
}

#[test]
fn ram_write_read_back() {
    let mut bus = Bus::new(rom_with(0, 0, 2), None);
    for &addr in &[0x8000u16, 0x9FFF, 0xC000, 0xDFFF, 0xFF80, 0xFFFE] {
        bus.set(addr, 0x3C);
        assert_eq!(bus.get(addr), 0x3C);
    }
}

#[test]
fn locked_vram_and_oam_drop_writes() {
    let mut bus = Bus::new(rom_with(0, 0, 2), None);
    bus.lock_vram();
    bus.set(0x8000, 0x12);
    assert_eq!(bus.get(0x8000), 0);
    bus.unlock_vram();
    bus.set(0x8000, 0x12);
    assert_eq!(bus.get(0x8000), 0x12);
    bus.lock_oam();
    bus.set(0xFE00, 0x34);
    assert_eq!(bus.get(0xFE00), 0);
    bus.unlock_oam();
    bus.set(0xFE00, 0x34);
    assert_eq!(bus.get(0xFE00), 0x34);
}

#[test]
fn unusable_and_serial_reads() {
    let mut bus = Bus::new(rom_with(0, 0, 2), None);
    bus.set(0xFEA0, 0x12);
    assert_eq!(bus.get(0xFEA0), 0xFF);
    assert_eq!(bus.get(0xFEFF), 0xFF);
    bus.set(0xFF01, 0x12);
    assert_eq!(bus.get(0xFF01), 0);
    assert_eq!(bus.get(0xA000), 0);
}

#[test]
fn gamepad_column_selection() {
    let mut bus = Bus::new(rom_with(0, 0, 2), None);
    bus.gamepad.a = true;
    bus.gamepad.down = true;
    bus.set(0xFF00, 0x10);
    assert_eq!(bus.gamepad.region, GamepadRegion::Buttons);
    assert_eq!(bus.get(0xFF00), 0b1110);
    bus.set(0xFF00, 0x20);
    assert_eq!(bus.gamepad.region, GamepadRegion::DPad);
    assert_eq!(bus.get(0xFF00), 0b0111);
    bus.set(0xFF00, 0x30);
    assert_eq!(bus.gamepad.region, GamepadRegion::Unselected);
    assert_eq!(bus.get(0xFF00), 0);
}

/// Both select bits clear: hardware mixes the two columns, which this core
/// models as both selected at once.
#[test]
fn gamepad_both_columns_selected_is_flagged_ambiguity() {
    let mut bus = Bus::new(rom_with(0, 0, 2), None);
    bus.gamepad.a = true;
    bus.gamepad.down = true;
    bus.set(0xFF00, 0x00);
    assert_eq!(bus.gamepad.region, GamepadRegion::Both);
    assert_eq!(bus.get(0xFF00), 0b0110);
}

#[test]
fn gamepad_nibbles() {
    let mut bus = Bus::new(rom_with(0, 0, 2), None);
    assert_eq!(bus.gamepad.get_d_pad(), 0x0F);
    assert_eq!(bus.gamepad.get_buttons(), 0x0F);
    bus.gamepad.right = true;
    bus.gamepad.start = true;
    assert_eq!(bus.gamepad.get_d_pad(), 0x0E);
    assert_eq!(bus.gamepad.get_buttons(), 0x07);
    bus.gamepad.region = GamepadRegion::Unselected;
    assert_eq!(bus.gamepad.get(), 0);
}

#[test]
fn halted_cpu_wakes_on_enabled_request() {
    let mut bus = Bus::new(rom_with(0, 0, 2), None);
    let mut cpu = Cpu::new();
    cpu.halting = true;
    bus.set(0xFFFF, 0x04);
    cpu.int_req(&mut bus, Interrupt::VBlank);
    assert!(cpu.halting);
    assert_eq!(bus.get(0xFF0F) & 0x1F, 0x01);
    cpu.int_req(&mut bus, Interrupt::Timer);
    assert!(!cpu.halting);
    assert_eq!(bus.get(0xFF0F) & 0x1F, 0x05);
}

#[test]
fn interrupt_dispatch_picks_lowest_enabled() {
    let mut bus = Bus::new(program_rom(&[0xFB, 0x00, 0x00]), None);
    let mut cpu = Cpu::new();
    let mut clock = Clock::new();
    bus.set(0xFFFF, 0x06);
    bus.set(0xFF0F, 0x07);
    run_instructions(&mut cpu, &mut bus, &mut clock, 1);
    assert!(cpu.ime);
    clock.t_state = cpu.next_inst_t_state;
    cpu.tick(&mut bus, &clock);
    assert!(!cpu.ime);
    assert_eq!(bus.get(0xFF0F) & 0x1F, 0x05);
    assert_eq!(cpu.sp, 0xFFFC);
    assert_eq!(bus.get(0xFFFC), 0x01);
    assert_eq!(bus.get(0xFFFD), 0x01);
    assert_eq!(cpu.pc, 0x49);
}

#[test]
fn halted_cpu_waits_one_m_cycle() {
    let mut bus = Bus::new(program_rom(&[0x76]), None);
    let mut cpu = Cpu::new();
    let mut clock = Clock::new();
    run_instructions(&mut cpu, &mut bus, &mut clock, 1);
    assert!(cpu.halting);
    let gate = cpu.next_inst_t_state;
    clock.t_state = gate;
    cpu.tick(&mut bus, &clock);
    assert_eq!(cpu.next_inst_t_state, gate + 4);
    assert_eq!(cpu.pc, 0x0101);
}

#[test]
fn push_then_pop_round_trip() {
    let mut bus = Bus::new(program_rom(&[0x01, 0x34, 0x12, 0xC5, 0xD1]), None);
    let mut cpu = Cpu::new();
    let mut clock = Clock::new();
    run_instructions(&mut cpu, &mut bus, &mut clock, 3);
    assert_eq!(cpu.get_reg_16(Reg16::DE), 0x1234);
    assert_eq!(cpu.sp, 0xFFFE);
}

#[test]
fn pop_af_clears_flag_low_nibble() {
    let mut bus = Bus::new(program_rom(&[0x01, 0xFF, 0x12, 0xC5, 0xF1]), None);
    let mut cpu = Cpu::new();
    let mut clock = Clock::new();
    run_instructions(&mut cpu, &mut bus, &mut clock, 3);
    assert_eq!(cpu.a, 0x12);
    assert_eq!(cpu.f, 0xF0);
}

#[test]
fn call_and_return() {
    let mut code = vec![0xCD, 0x10, 0x01, 0x76];
    code.resize(0x10, 0);
    code.extend_from_slice(&[0x3C, 0xC9]);
    let mut bus = Bus::new(program_rom(&code), None);
    let mut cpu = Cpu::new();
    let mut clock = Clock::new();
    run_instructions(&mut cpu, &mut bus, &mut clock, 4);
    assert_eq!(cpu.a, 0x02);
    assert!(cpu.halting);
    assert_eq!(cpu.sp, 0xFFFE);
    assert_eq!(cpu.pc, 0x0104);
}

#[test]
fn relative_jump_backwards() {
    let mut bus = Bus::new(program_rom(&[0x00, 0x18, 0xFD]), None);
    let mut cpu = Cpu::new();
    let mut clock = Clock::new();
    run_instructions(&mut cpu, &mut bus, &mut clock, 2);
    assert_eq!(cpu.pc, 0x0100);
    assert_eq!(cpu.next_inst_t_state, 4 + 12);
}

#[test]
fn cb_bit_set_res_on_memory() {
    let code = [0x21, 0x00, 0xC0, 0xCB, 0xC6, 0xCB, 0x46, 0xCB, 0x86, 0xCB, 0x46];
    let mut bus = Bus::new(program_rom(&code), None);
    let mut cpu = Cpu::new();
    let mut clock = Clock::new();
    run_instructions(&mut cpu, &mut bus, &mut clock, 3);
    assert_eq!(bus.get(0xC000), 0x01);
    assert!(!cpu.get_flag(Flag::Z));
    assert!(cpu.get_flag(Flag::H));
    run_instructions(&mut cpu, &mut bus, &mut clock, 2);
    assert_eq!(bus.get(0xC000), 0x00);
    assert!(cpu.get_flag(Flag::Z));
}

#[test]
fn ld_hl_increment_and_decrement() {
    let code = [0x21, 0x00, 0xC0, 0x3E, 0x99, 0x22, 0x32, 0x2A];
    let mut bus = Bus::new(program_rom(&code), None);
    let mut cpu = Cpu::new();
    let mut clock = Clock::new();
    run_instructions(&mut cpu, &mut bus, &mut clock, 4);
    assert_eq!(bus.get(0xC000), 0x99);
    assert_eq!(bus.get(0xC001), 0x99);
    assert_eq!(cpu.get_reg_16(Reg16::HL), 0xC000);
    run_instructions(&mut cpu, &mut bus, &mut clock, 1);
    assert_eq!(cpu.get_reg_16(Reg16::HL), 0xC001);
}

#[test]
fn ld_nn_sp_stores_little_endian() {
    let mut bus = Bus::new(program_rom(&[0x08, 0x00, 0xC0]), None);
    let mut cpu = Cpu::new();
    let mut clock = Clock::new();
    run_instructions(&mut cpu, &mut bus, &mut clock, 1);
    assert_eq!(bus.get(0xC000), 0xFE);
    assert_eq!(bus.get(0xC001), 0xFF);
    assert_eq!(cpu.next_inst_t_state, 20);
}

#[test]
fn rotate_a_clears_zero_flag() {
    let mut bus = Bus::new(program_rom(&[0xAF, 0x07]), None);
    let mut cpu = Cpu::new();
    let mut clock = Clock::new();
    run_instructions(&mut cpu, &mut bus, &mut clock, 1);
    assert!(cpu.get_flag(Flag::Z));
    run_instructions(&mut cpu, &mut bus, &mut clock, 1);
    assert_eq!(cpu.a, 0);
    assert!(!cpu.get_flag(Flag::Z));
}

#[test]
fn inst_log_keeps_last_twenty() {
    let mut bus = Bus::new(program_rom(&[]), None);
    let mut cpu = Cpu::new();
    let mut clock = Clock::new();
    run_instructions(&mut cpu, &mut bus, &mut clock, 25);
    assert_eq!(cpu.inst_log.len(), 20);
    assert_eq!(cpu.inst_log.back().unwrap().0, 0x0118);
    assert_eq!(cpu.inst_log.front().unwrap().0, 0x0105);
}

#[test]
fn add_then_sub_round_trip() {
    for &(a, b) in &[(0x00u8, 0x00u8), (0x0F, 0x01), (0xF0, 0x20), (0x3A, 0xC6), (0xFF, 0xFF)] {
        let (s, fs) = alu(AluOp::Add, a, b, false);
        let (d, fd) = alu(AluOp::Sub, s, b, false);
        assert_eq!(d, a);
        assert_eq!(fd & 0x40, 0x40);
        assert_eq!(fd & 0x80 != 0, a == 0);
        assert_eq!(fd & 0x30, fs & 0x30);
    }
}

#[test]
fn alu_flag_values() {
    assert_eq!(alu(AluOp::Add, 0x3A, 0xC6, false), (0x00, 0xB0));
    assert_eq!(alu(AluOp::Adc, 0xE1, 0x0F, true), (0xF1, 0x20));
    assert_eq!(alu(AluOp::Sub, 0x3E, 0x3E, false), (0x00, 0xC0));
    assert_eq!(alu(AluOp::Sbc, 0x10, 0x0F, true), (0x00, 0xE0));
    assert_eq!(alu(AluOp::And, 0x5A, 0x3F, false), (0x1A, 0x20));
    assert_eq!(alu(AluOp::Xor, 0xFF, 0xFF, true), (0x00, 0x80));
    assert_eq!(alu(AluOp::Or, 0x5A, 0x00, false), (0x5A, 0x00));
    assert_eq!(alu(AluOp::Cp, 0x3C, 0x40, false), (0x3C, 0x50));
}

#[test]
fn daa_after_bcd_addition() {
    let (s, f) = alu(AluOp::Add, 0x15, 0x27, false);
    assert_eq!(daa(s, f), (0x42, 0x00));
    let (s, f) = alu(AluOp::Add, 0x99, 0x01, false);
    assert_eq!(daa(s, f), (0x00, 0x90));
    let (s, f) = alu(AluOp::Sub, 0x42, 0x15, false);
    assert_eq!(daa(s, f), (0x27, 0x40));
}

#[test]
fn stack_pointer_offset() {
    assert_eq!(add_u16_i8(0x1000, 0xFF), 0x0FFF);
    assert_eq!(add_u16_i8(0xFFFF, 0x01), 0x0000);
    assert_eq!(sp_offset(0x00FF, 0x01), (0x0100, 0x30));
    assert_eq!(sp_offset(0xFFF8, 0x02), (0xFFFA, 0x00));
}

#[test]
fn instruction_tables() {
    assert_eq!(inst_length(0x00), 1);
    assert_eq!(inst_length(0xCD), 3);
    assert_eq!(inst_length(0xCB), 2);
    assert_eq!(inst_length(0xD3), 0);
    assert_eq!(inst_base_cycles(0x08), 5);
    assert_eq!(inst_base_cycles(0xCD), 3);
    assert_eq!(inst_base_cycles(0x36), 3);
    assert_eq!(inst_base_cycles(0xFD), 0);
    let lengths: u32 = (0..=255u8).map(|op| inst_length(op) as u32).sum();
    let cycles: u32 = (0..=255u8).map(|op| inst_base_cycles(op) as u32).sum();
    assert_eq!(lengths, 306);
    assert_eq!(cycles, 418);
}

#[test]
fn cartridge_header_codes() {
    assert_eq!(cart_type_from_code(0x00), Some(CartType::Rom));
    assert_eq!(cart_type_from_code(0x02), Some(CartType::Mbc1));
    assert_eq!(cart_type_from_code(0x10), Some(CartType::Mbc3));
    assert_eq!(cart_type_from_code(0x1E), Some(CartType::Mbc5));
    assert_eq!(cart_type_from_code(0x05), None);
    assert_eq!(sram_size(1), Some(0));
    assert_eq!(sram_size(3), Some(0x8000));
    assert_eq!(sram_size(5), Some(0x10000));
    assert_eq!(sram_size(6), None);
}

#[test]
fn clock_counts_t_states() {
    let mut clock = Clock::new();
    clock.add_t_state(4);
    clock.add_t_state(250);
    assert_eq!(clock.get_t_state(), 254);
}
