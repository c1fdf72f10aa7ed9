//! Executor behaviour, driven through the step loop: ALU flag rules over
//! all operand pairs, stack and rotate round trips, the INC/DEC/ADD
//! boundary cases, OAM DMA, the delayed EI, and the serial debug sink.

use rusty_gb::cartridge::Cartridge;
use rusty_gb::context::CpuContext;

fn make_cpu(program: &[u8]) -> CpuContext {
    let mut rom = vec![0u8; 0x8000];
    for (i, b) in program.iter().enumerate() {
        rom[0x100 + i] = *b;
    }
    let cart = Cartridge::from_rom_bytes(rom).expect("ROM-only image");
    CpuContext::new(cart)
}

/// Writes a short program into WRAM and points PC at it.
fn load_wram_program(cpu: &mut CpuContext, program: &[u8]) {
    for (i, b) in program.iter().enumerate() {
        cpu.bus.bus_write8(0xC000 + i as u16, *b);
    }
    cpu.cpu_registers.pc = 0xC000;
}

#[test]
fn alu_add_flags_all_pairs() {
    // ADD: H from the low-nibble carry, C from the byte carry, Z from the
    // wrapped sum, N clear -- for every (a, b).
    let mut cpu = make_cpu(&[]);
    for a in 0..=255u16 {
        for b in 0..=255u16 {
            load_wram_program(&mut cpu, &[0x3E, a as u8, 0xC6, b as u8]);
            cpu.cpu_step();
            cpu.cpu_step();
            let sum = a + b;
            assert_eq!(cpu.cpu_registers.a, (sum & 0xFF) as u8);
            assert_eq!(cpu.cpu_registers.f.z, sum & 0xFF == 0, "a={} b={}", a, b);
            assert!(!cpu.cpu_registers.f.n);
            assert_eq!(cpu.cpu_registers.f.h, (a & 0x0F) + (b & 0x0F) > 0x0F);
            assert_eq!(cpu.cpu_registers.f.c, sum > 0xFF);
        }
    }
}

#[test]
fn alu_sub_flags_all_pairs() {
    // SUB: H when the low nibble borrows, C when the whole byte borrows,
    // N set -- for every (a, b).
    let mut cpu = make_cpu(&[]);
    for a in 0..=255u16 {
        for b in 0..=255u16 {
            load_wram_program(&mut cpu, &[0x3E, a as u8, 0xD6, b as u8]);
            cpu.cpu_step();
            cpu.cpu_step();
            let diff = (a as i32 - b as i32).rem_euclid(256) as u8;
            assert_eq!(cpu.cpu_registers.a, diff);
            assert_eq!(cpu.cpu_registers.f.z, diff == 0);
            assert!(cpu.cpu_registers.f.n);
            assert_eq!(cpu.cpu_registers.f.h, (a & 0x0F) < (b & 0x0F));
            assert_eq!(cpu.cpu_registers.f.c, a < b);
        }
    }
}

#[test]
fn alu_adc_flags_all_pairs() {
    // ADC folds the carry-in into both the half-carry and the carry rule.
    let mut cpu = make_cpu(&[]);
    for carry_in in 0..2u16 {
        for a in 0..=255u16 {
            for b in 0..=255u16 {
                load_wram_program(&mut cpu, &[0x3E, a as u8, 0xCE, b as u8]);
                cpu.cpu_registers.f.c = carry_in == 1;
                cpu.cpu_step();
                cpu.cpu_step();
                let sum = a + b + carry_in;
                assert_eq!(cpu.cpu_registers.a, (sum & 0xFF) as u8);
                assert_eq!(cpu.cpu_registers.f.z, sum & 0xFF == 0);
                assert!(!cpu.cpu_registers.f.n);
                assert_eq!(
                    cpu.cpu_registers.f.h,
                    (a & 0x0F) + (b & 0x0F) + carry_in > 0x0F
                );
                assert_eq!(cpu.cpu_registers.f.c, sum > 0xFF);
            }
        }
    }
}

#[test]
fn alu_sbc_flags_all_pairs() {
    // SBC folds the carry-in into both borrow rules.
    let mut cpu = make_cpu(&[]);
    for carry_in in 0..2u16 {
        for a in 0..=255u16 {
            for b in 0..=255u16 {
                load_wram_program(&mut cpu, &[0x3E, a as u8, 0xDE, b as u8]);
                cpu.cpu_registers.f.c = carry_in == 1;
                cpu.cpu_step();
                cpu.cpu_step();
                let diff = (a as i32 - b as i32 - carry_in as i32).rem_euclid(256) as u8;
                assert_eq!(cpu.cpu_registers.a, diff);
                assert_eq!(cpu.cpu_registers.f.z, diff == 0);
                assert!(cpu.cpu_registers.f.n);
                assert_eq!(cpu.cpu_registers.f.h, (a & 0x0F) < (b & 0x0F) + carry_in);
                assert_eq!(cpu.cpu_registers.f.c, a < b + carry_in);
            }
        }
    }
}

#[test]
fn push_pop_roundtrip_bc() {
    // PUSH BC; POP BC through WRAM-backed stack memory gives BC back.
    let mut cpu = make_cpu(&[0xC5, 0xC1]);
    cpu.cpu_registers.sp = 0xDFFE;
    cpu.cpu_registers.b = 0xAB;
    cpu.cpu_registers.c = 0xCD;
    cpu.cpu_step();
    cpu.cpu_registers.b = 0;
    cpu.cpu_registers.c = 0;
    cpu.cpu_step();
    assert_eq!(cpu.cpu_registers.b, 0xAB);
    assert_eq!(cpu.cpu_registers.c, 0xCD);
    assert_eq!(cpu.cpu_registers.sp, 0xDFFE);
}

#[test]
fn push_pop_roundtrip_af_masks_low_nibble() {
    // PUSH AF; POP AF gives A and the four flag bits back; F's low nibble
    // stays zero whatever was pushed.
    for flags in 0..16u8 {
        let mut cpu = make_cpu(&[0xF5, 0xF1]);
        cpu.cpu_registers.sp = 0xDFFE;
        cpu.cpu_registers.a = 0x5A;
        cpu.cpu_registers.f.z = flags & 8 != 0;
        cpu.cpu_registers.f.n = flags & 4 != 0;
        cpu.cpu_registers.f.h = flags & 2 != 0;
        cpu.cpu_registers.f.c = flags & 1 != 0;
        let before = cpu.cpu_registers.f;
        cpu.cpu_step();
        cpu.cpu_registers.a = 0;
        cpu.cpu_registers.f.z = false;
        cpu.cpu_registers.f.n = false;
        cpu.cpu_registers.f.h = false;
        cpu.cpu_registers.f.c = false;
        cpu.cpu_step();
        assert_eq!(cpu.cpu_registers.a, 0x5A);
        assert_eq!(cpu.cpu_registers.f, before);
    }
}

#[test]
fn swap_twice_is_identity() {
    // CB $37 is SWAP A; applying it twice restores every value.
    for a in 0..=255u8 {
        let mut cpu = make_cpu(&[0xCB, 0x37, 0xCB, 0x37]);
        cpu.cpu_registers.a = a;
        cpu.cpu_step();
        assert_eq!(cpu.cpu_registers.a, (a >> 4) | (a << 4));
        assert!(!cpu.cpu_registers.f.c, "SWAP clears carry");
        cpu.cpu_step();
        assert_eq!(cpu.cpu_registers.a, a);
        assert_eq!(cpu.cpu_registers.f.z, a == 0);
    }
}

#[test]
fn rlc_then_rrc_restores_value_and_flags() {
    // CB $07 is RLC A, CB $0F is RRC A: the pair restores A, the final
    // carry is A's bit 7 (rotated out and back), Z matches the value.
    for a in 0..=255u8 {
        let mut cpu = make_cpu(&[0xCB, 0x07, 0xCB, 0x0F]);
        cpu.cpu_registers.a = a;
        cpu.cpu_step();
        cpu.cpu_step();
        assert_eq!(cpu.cpu_registers.a, a);
        assert_eq!(cpu.cpu_registers.f.c, a & 0x80 == 0x80);
        assert_eq!(cpu.cpu_registers.f.z, a == 0);
        assert!(!cpu.cpu_registers.f.n);
        assert!(!cpu.cpu_registers.f.h);
    }
}

#[test]
fn inc_dec_boundaries() {
    // INC $FF -> $00 with Z=1, H=1; DEC $00 -> $FF with Z=0, H=1.
    let mut cpu = make_cpu(&[0x3C]);
    cpu.cpu_registers.a = 0xFF;
    cpu.cpu_step();
    assert_eq!(cpu.cpu_registers.a, 0x00);
    assert!(cpu.cpu_registers.f.z);
    assert!(cpu.cpu_registers.f.h);
    assert!(!cpu.cpu_registers.f.n);

    let mut cpu = make_cpu(&[0x3D]);
    cpu.cpu_registers.a = 0x00;
    cpu.cpu_step();
    assert_eq!(cpu.cpu_registers.a, 0xFF);
    assert!(!cpu.cpu_registers.f.z);
    assert!(cpu.cpu_registers.f.h);
    assert!(cpu.cpu_registers.f.n);
}

#[test]
fn add_boundary_ff_plus_one() {
    // ADD $FF+$01 -> $00 with Z=1, H=1, C=1.
    let mut cpu = make_cpu(&[0xC6, 0x01]);
    cpu.cpu_registers.a = 0xFF;
    cpu.cpu_step();
    assert_eq!(cpu.cpu_registers.a, 0x00);
    assert!(cpu.cpu_registers.f.z);
    assert!(cpu.cpu_registers.f.h);
    assert!(cpu.cpu_registers.f.c);
    assert!(!cpu.cpu_registers.f.n);
}

#[test]
fn timer_divider_scenario() {
    // TAC=$05 selects DIV bit 3: TIMA advances every 16 timer ticks (four
    // machine cycles). From TIMA=0, 16*255 ticks bring TIMA to $FF with no
    // interrupt; the next TIMA tick reloads TMA and raises IF.TIMER.
    let mut cpu = make_cpu(&[]);
    cpu.bus.bus_write8(0xFF07, 0x05);
    assert_eq!(cpu.bus.io.timer.tima, 0);
    cpu.emu_cycles(4 * 255);
    assert_eq!(cpu.bus.io.timer.tima, 0xFF);
    assert_eq!(cpu.bus.bus_read(0xFF0F) & 0x04, 0);
    cpu.emu_cycles(4);
    assert_eq!(cpu.bus.bus_read(0xFF0F) & 0x04, 0x04);
    assert_eq!(cpu.bus.io.timer.tima, cpu.bus.io.timer.tma);
}

#[test]
fn oam_dma_transfer() {
    // Page $C000..$C09F holds i+1; writing $C0 to $FF46 copies it to OAM
    // over the 2-cycle delay plus 160 transfer cycles, during which every
    // CPU read of $FE00..$FE9F returns $FF.
    let mut cpu = make_cpu(&[]);
    for i in 0..160u16 {
        cpu.bus.bus_write8(0xC000 + i, (i + 1) as u8);
    }
    cpu.bus.bus_write8(0xFF46, 0xC0);
    assert_eq!(cpu.bus.bus_read(0xFF46), 0xC0, "DMA register reads back");
    assert_eq!(cpu.bus.bus_read(0xFE00), 0xFF, "locked during start delay");
    cpu.emu_cycles(80);
    assert_eq!(cpu.bus.bus_read(0xFE40), 0xFF, "locked mid-transfer");
    assert_eq!(cpu.bus.bus_read(0xFE9F), 0xFF, "locked mid-transfer");
    cpu.emu_cycles(82);
    assert!(!cpu.bus.dma.active);
    for i in 0..160u16 {
        assert_eq!(cpu.bus.bus_read(0xFE00 + i), (i + 1) as u8, "OAM byte {}", i);
    }
}

#[test]
fn ei_takes_effect_after_next_instruction() {
    // DI; EI; NOP; JP self, with IF.VBLANK and IE.VBLANK set: the VBLANK
    // vector is taken after the NOP, not between EI and NOP.
    let mut cpu = make_cpu(&[0xF3, 0xFB, 0x00, 0xC3, 0x03, 0x01]);
    cpu.cpu_registers.sp = 0xDFFE;
    cpu.bus.bus_write8(0xFFFF, 0x01);
    cpu.bus.bus_write8(0xFF0F, 0x01);

    cpu.cpu_step();
    assert_eq!(cpu.cpu_registers.pc, 0x101, "DI executed");

    cpu.cpu_step();
    assert_eq!(cpu.cpu_registers.pc, 0x102, "no dispatch between EI and NOP");
    assert_eq!(cpu.bus.bus_read(0xFF0F) & 0x01, 0x01, "request still pending");

    cpu.cpu_step();
    assert_eq!(cpu.cpu_registers.pc, 0x40, "VBLANK vector after the NOP");
    assert_eq!(cpu.bus.bus_read(0xFF0F) & 0x01, 0, "IF bit cleared");
}

#[test]
fn halt_wakes_on_pending_interrupt() {
    // HALT parks the CPU; a pending enabled interrupt wakes it even with
    // IME clear, and no vector is taken.
    let mut cpu = make_cpu(&[0x76, 0x00]);
    cpu.bus.bus_write8(0xFFFF, 0x04);
    cpu.cpu_step();
    assert!(cpu.is_halted());
    cpu.cpu_step();
    assert!(cpu.is_halted(), "nothing pending, still halted");
    cpu.bus.bus_write8(0xFF0F, 0x04);
    cpu.cpu_step();
    assert!(!cpu.is_halted(), "IE and IF overlap wakes HALT");
    assert_ne!(cpu.cpu_registers.pc, 0x50, "IME clear: no vector taken");
}

#[test]
fn serial_sink_captures_bytes() {
    // Writing SB then $81 to SC hands the byte to the debug buffer and
    // clears SC; that is how test ROMs print.
    let mut cpu = make_cpu(&[0x00, 0x00]);
    cpu.bus.bus_write8(0xFF01, b'P');
    cpu.bus.bus_write8(0xFF02, 0x81);
    cpu.cpu_step();
    assert_eq!(cpu.bus.dbg_message().as_slice(), b"P");
    assert_eq!(cpu.bus.bus_read(0xFF02), 0);
    cpu.bus.bus_write8(0xFF01, b'!');
    cpu.bus.bus_write8(0xFF02, 0x81);
    cpu.cpu_step();
    assert_eq!(cpu.bus.dbg_message().as_slice(), b"P!");
}

#[test]
fn reset_state_matches_post_boot() {
    let cpu = make_cpu(&[]);
    assert_eq!(cpu.cpu_registers.a, 0x01);
    assert_eq!(cpu.cpu_registers.b, 0x00);
    assert_eq!(cpu.cpu_registers.c, 0x13);
    assert_eq!(cpu.cpu_registers.d, 0x00);
    assert_eq!(cpu.cpu_registers.e, 0xD8);
    assert_eq!(cpu.cpu_registers.h, 0x01);
    assert_eq!(cpu.cpu_registers.l, 0x4D);
    assert_eq!(cpu.cpu_registers.pc, 0x100);
    assert_eq!(cpu.cpu_registers.sp, 0xFFFE);
    assert!(cpu.cpu_registers.f.z);
    assert!(!cpu.cpu_registers.f.n);
    assert!(cpu.cpu_registers.f.h);
    assert!(cpu.cpu_registers.f.c);
}

#[test]
fn ld_daa_cpl_scf_ccf_smoke() {
    // LD A,$19; ADD A,$28 = $41 binary; DAA adjusts to $47 (19+28 in BCD).
    let mut cpu = make_cpu(&[0x3E, 0x19, 0xC6, 0x28, 0x27, 0x2F, 0x37, 0x3F]);
    cpu.cpu_step();
    cpu.cpu_step();
    assert_eq!(cpu.cpu_registers.a, 0x41);
    cpu.cpu_step();
    assert_eq!(cpu.cpu_registers.a, 0x47, "DAA");
    cpu.cpu_step();
    assert_eq!(cpu.cpu_registers.a, 0xB8, "CPL");
    assert!(cpu.cpu_registers.f.n && cpu.cpu_registers.f.h);
    cpu.cpu_step();
    assert!(cpu.cpu_registers.f.c, "SCF");
    assert!(!cpu.cpu_registers.f.n && !cpu.cpu_registers.f.h);
    cpu.cpu_step();
    assert!(!cpu.cpu_registers.f.c, "CCF");
}

#[test]
fn jp_call_ret_flow() {
    // CALL $0110, then RET back: PC and the stack agree.
    let mut program = [0u8; 0x20];
    program[0] = 0xCD; // CALL $0110
    program[1] = 0x10;
    program[2] = 0x01;
    program[0x10] = 0xC9; // RET
    let mut cpu = make_cpu(&program);
    cpu.cpu_registers.sp = 0xDFFE;
    cpu.cpu_step();
    assert_eq!(cpu.cpu_registers.pc, 0x110);
    assert_eq!(cpu.cpu_registers.sp, 0xDFFC);
    cpu.cpu_step();
    assert_eq!(cpu.cpu_registers.pc, 0x103, "RET returns past the CALL");
    assert_eq!(cpu.cpu_registers.sp, 0xDFFE);
}

#[test]
fn conditional_jr_both_ways() {
    // JR NZ,+2 skips two bytes when Z is clear and falls through when set.
    let mut cpu = make_cpu(&[0x20, 0x02]);
    cpu.cpu_registers.f.z = false;
    cpu.cpu_step();
    assert_eq!(cpu.cpu_registers.pc, 0x104, "taken");

    let mut cpu = make_cpu(&[0x20, 0x02]);
    cpu.cpu_registers.f.z = true;
    cpu.cpu_step();
    assert_eq!(cpu.cpu_registers.pc, 0x102, "not taken");
}

#[test]
fn ld_hl_post_increment_and_decrement() {
    // LD (HL+),A then LD (HL-),A move HL both ways and store A.
    let mut cpu = make_cpu(&[0x22, 0x32]);
    cpu.cpu_registers.a = 0x7E;
    cpu.cpu_registers.h = 0xC0;
    cpu.cpu_registers.l = 0x10;
    cpu.cpu_step();
    assert_eq!(cpu.bus.bus_read(0xC010), 0x7E);
    assert_eq!(cpu.cpu_registers.l, 0x11);
    cpu.cpu_step();
    assert_eq!(cpu.bus.bus_read(0xC011), 0x7E);
    assert_eq!(cpu.cpu_registers.l, 0x10);
}

#[test]
fn ldh_moves_through_io_page() {
    // LDH ($05),A writes TIMA; LDH A,($05) reads it back.
    let mut cpu = make_cpu(&[0xE0, 0x05, 0x3E, 0x00, 0xF0, 0x05]);
    cpu.cpu_registers.a = 0x99;
    cpu.cpu_step();
    assert_eq!(cpu.bus.io.timer.tima, 0x99);
    cpu.cpu_step();
    assert_eq!(cpu.cpu_registers.a, 0x00);
    cpu.cpu_step();
    assert_eq!(cpu.cpu_registers.a, 0x99);
}

#[test]
fn cb_bit_res_set() {
    // BIT 7,A with the bit clear sets Z; SET 7,A turns it on; RES 7,A
    // turns it off again; neither RES nor SET touches the flags.
    let mut cpu = make_cpu(&[0xCB, 0x7F, 0xCB, 0xFF, 0xCB, 0x7F, 0xCB, 0xBF]);
    cpu.cpu_registers.a = 0x00;
    cpu.cpu_step();
    assert!(cpu.cpu_registers.f.z, "BIT 7 of $00 reports zero");
    assert!(cpu.cpu_registers.f.h);
    cpu.cpu_step();
    assert_eq!(cpu.cpu_registers.a, 0x80, "SET 7");
    cpu.cpu_step();
    assert!(!cpu.cpu_registers.f.z, "BIT 7 of $80 reports one");
    cpu.cpu_step();
    assert_eq!(cpu.cpu_registers.a, 0x00, "RES 7");
}

#[test]
fn add_sp_r8_uses_low_byte_carries() {
    // ADD SP,r8 with SP=$00FF and r8=+1: H and C both come from the low
    // byte, Z and N clear.
    let mut cpu = make_cpu(&[0xE8, 0x01]);
    cpu.cpu_registers.sp = 0x00FF;
    cpu.cpu_step();
    assert_eq!(cpu.cpu_registers.sp, 0x0100);
    assert!(cpu.cpu_registers.f.h);
    assert!(cpu.cpu_registers.f.c);
    assert!(!cpu.cpu_registers.f.z);
    assert!(!cpu.cpu_registers.f.n);

    // A negative displacement wraps: SP=$0000, r8=-1 gives $FFFF.
    let mut cpu = make_cpu(&[0xE8, 0xFF]);
    cpu.cpu_registers.sp = 0x0000;
    cpu.cpu_step();
    assert_eq!(cpu.cpu_registers.sp, 0xFFFF);
}

#[test]
fn add_hl_pair_keeps_z() {
    // ADD HL,BC: Z untouched, H/C from the 12- and 16-bit carries.
    let mut cpu = make_cpu(&[0x09]);
    cpu.cpu_registers.h = 0x0F;
    cpu.cpu_registers.l = 0xFF;
    cpu.cpu_registers.b = 0x00;
    cpu.cpu_registers.c = 0x01;
    cpu.cpu_registers.f.z = true;
    cpu.cpu_step();
    assert_eq!(cpu.cpu_registers.h, 0x10);
    assert_eq!(cpu.cpu_registers.l, 0x00);
    assert!(cpu.cpu_registers.f.z, "Z preserved");
    assert!(cpu.cpu_registers.f.h, "carry out of bit 11");
    assert!(!cpu.cpu_registers.f.c);
}

#[test]
fn rst_pushes_and_jumps() {
    // RST 28H pushes the PC after the opcode and jumps to $28.
    let mut cpu = make_cpu(&[0xEF]);
    cpu.cpu_registers.sp = 0xDFFE;
    cpu.cpu_step();
    assert_eq!(cpu.cpu_registers.pc, 0x28);
    assert_eq!(cpu.cpu_registers.sp, 0xDFFC);
    assert_eq!(cpu.bus.bus_read(0xDFFD), 0x01, "high byte of $0101");
    assert_eq!(cpu.bus.bus_read(0xDFFC), 0x01, "low byte of $0101");
}

#[test]
fn unknown_opcode_is_reported_by_peek() {
    // $D3 is one of the opcode-map holes: the host sees it before stepping.
    let mut cpu = make_cpu(&[0x00, 0xD3]);
    assert!(cpu.peek_opcode_supported());
    cpu.cpu_step();
    assert!(!cpu.peek_opcode_supported());
}
