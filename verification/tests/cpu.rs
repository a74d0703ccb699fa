use nes_emulator::bus::{Bus, CpuBus};
use nes_emulator::cartridge::Cartridge;
use nes_emulator::cpu::{Cpu, Operand, CARRY, NEGATIVE, OVERFLOW, ZERO};
use nes_emulator::device::{
    image_extent, pick_device, pick_min_image_count, pick_presentation_mode, pick_surface_format,
    PRESENT_MODE_FIFO, PRESENT_MODE_MAILBOX,
};
use nes_emulator::opcodes::{lookup_opcode, AddressingMode, Instruction};
use nes_emulator::ppu::PpuRegisters;
use std::rc::Rc;

/// A CPU bus whose cartridge holds one 16 KiB PRG bank of zeros.
fn bus() -> CpuBus {
    let mut bytes = vec![0x4E, 0x45, 0x53, 0x1A, 1, 1, 0, 0];
    bytes.resize(16 + 0x4000 + 0x2000, 0);
    CpuBus::new(Rc::new(Cartridge::load_from_bytes(&bytes)), PpuRegisters::new())
}

fn cpu() -> Cpu {
    Cpu::new()
}

#[test]
fn new_cpu_is_zeroed() {
    let c = Cpu::new();
    assert_eq!((c.a, c.x, c.y, c.pc, c.sp, c.p), (0, 0, 0, 0, 0, 0));
    assert_eq!(c.status(), 0);
}

#[test]
fn opcode_table_entries() {
    let op = lookup_opcode(0xA9);
    assert_eq!(op.instruction, Instruction::LDA);
    assert_eq!(op.mode, AddressingMode::Immediate);
    assert_eq!(op.cycles, 2);
    let op = lookup_opcode(0x00);
    assert_eq!((op.instruction, op.mode, op.cycles), (Instruction::BRK, AddressingMode::Implicit, 7));
    let op = lookup_opcode(0x6C);
    assert_eq!((op.instruction, op.mode, op.cycles), (Instruction::JMP, AddressingMode::Indirect, 5));
    let op = lookup_opcode(0xC5);
    assert_eq!((op.instruction, op.mode, op.cycles), (Instruction::CMP, AddressingMode::ZeroPage, 3));
    let op = lookup_opcode(0xFF);
    assert_eq!((op.instruction, op.mode, op.cycles), (Instruction::ISC, AddressingMode::AbsoluteX, 7));
    let op = lookup_opcode(0x02);
    assert_eq!((op.instruction, op.cycles), (Instruction::KIL, 0));
}

#[test]
fn fetch_reads_opcode_and_advances() {
    let mut b = bus();
    b.write(0xA9, 0x0010);
    let mut c = cpu();
    c.pc = 0x0010;
    let op = c.fetch(&b);
    assert_eq!(op.instruction, Instruction::LDA);
    assert_eq!(c.pc, 0x0011);
}

#[test]
fn fetch_wraps_pc() {
    let b = bus();
    let mut c = cpu();
    c.pc = 0xFFFF;
    c.fetch(&b);
    assert_eq!(c.pc, 0x0000);
}

#[test]
fn decode_addressing_modes() {
    let mut b = bus();
    b.write(0x80, 0x0200);
    b.write(0x03, 0x0201);
    b.write(0x34, 0x0080);
    b.write(0x12, 0x0081);
    b.write(0x78, 0x0083);
    b.write(0x56, 0x0084);
    b.write(0x42, 0x0300);
    b.write(0x06, 0x0301);
    let mut c = cpu();
    c.x = 3;
    c.y = 0x10;

    c.pc = 0x0200;
    assert_eq!(c.immediate(), Operand::Address(0x0200));
    assert_eq!(c.pc, 0x0201);

    c.pc = 0x0200;
    assert_eq!(c.zero_page(&b), Operand::Address(0x80));
    assert_eq!(c.pc, 0x0201);

    c.pc = 0x0200;
    assert_eq!(c.zero_page_x(&b), Operand::Address(0x83));
    c.pc = 0x0200;
    assert_eq!(c.zero_page_y(&b), Operand::Address(0x90));

    c.pc = 0x0200;
    assert_eq!(c.relative(&b), Operand::Relative(-128));

    c.pc = 0x0200;
    assert_eq!(c.absolute(&b), Operand::Address(0x0380));
    assert_eq!(c.pc, 0x0202);
    c.pc = 0x0200;
    assert_eq!(c.absolute_x(&b), Operand::Address(0x0383));
    c.pc = 0x0200;
    assert_eq!(c.absolute_y(&b), Operand::Address(0x0390));

    // (0x0300) holds 0x0642
    c.pc = 0x0400;
    b.write(0x00, 0x0400);
    b.write(0x03, 0x0401);
    assert_eq!(c.indirect(&b), Operand::Address(0x0642));
    assert_eq!(c.pc, 0x0402);

    // (0x80 + x) = (0x83) holds 0x5678
    c.pc = 0x0200;
    assert_eq!(c.indirect_x(&b), Operand::Address(0x5678));
    assert_eq!(c.pc, 0x0201);

    // (0x80) holds 0x1234, plus y
    c.pc = 0x0200;
    assert_eq!(c.indirect_y(&b), Operand::Address(0x1244));

    assert_eq!(c.implicit(), Operand::Implied);
    assert_eq!(c.accumulator(), Operand::Accumulator);
}

#[test]
fn decode_dispatches_on_mode() {
    let mut b = bus();
    b.write(0x10, 0x0000);
    b.write(0x20, 0x0001);
    let mut c = cpu();
    let op = lookup_opcode(0xAD); // LDA absolute
    assert_eq!(c.decode(&b, &op), Operand::Address(0x2010));
    assert_eq!(c.pc, 2);
    let op = lookup_opcode(0xEA); // NOP implicit
    assert_eq!(c.decode(&b, &op), Operand::Implied);
    assert_eq!(c.pc, 2);
}

#[test]
fn indirect_x_wraps_in_zero_page() {
    let mut b = bus();
    b.write(0xFF, 0x0200);
    b.write(0x34, 0x00FF);
    b.write(0x12, 0x0000);
    b.write(0x99, 0x0100);
    let mut c = cpu();
    c.pc = 0x0200;
    assert_eq!(c.indirect_x(&b), Operand::Address(0x1234));
}

#[test]
fn loads_and_transfers_set_zn() {
    let mut c = cpu();
    c.lda(0);
    assert_eq!(c.a, 0);
    assert_eq!(c.p, ZERO);
    c.lda(0x80);
    assert_eq!(c.p, NEGATIVE);
    c.ldx(0x05);
    assert_eq!((c.x, c.p), (0x05, 0));
    c.ldy(0xF0);
    assert_eq!((c.y, c.p), (0xF0, NEGATIVE));
    c.tax();
    assert_eq!((c.x, c.p), (0x80, NEGATIVE));
    c.lda(1);
    c.tay();
    assert_eq!((c.y, c.p), (1, 0));
    c.x = 0;
    c.txa();
    assert_eq!((c.a, c.p), (0, ZERO));
    c.y = 7;
    c.tya();
    assert_eq!((c.a, c.p), (7, 0));
}

#[test]
fn stores_write_registers() {
    let mut b = bus();
    let mut c = cpu();
    c.a = 1;
    c.x = 2;
    c.y = 3;
    c.sta(&mut b, 0x10);
    c.stx(&mut b, 0x11);
    c.sty(&mut b, 0x12);
    assert_eq!((b.read(0x10), b.read(0x11), b.read(0x12)), (1, 2, 3));
}

#[test]
fn adc_adds_with_carry() {
    let mut c = cpu();
    c.a = 0x10;
    c.adc(0x20);
    assert_eq!(c.a, 0x30);
    assert_eq!(c.p, 0);
    c.a = 0xF0;
    c.adc(0x20);
    assert_eq!(c.a, 0x10);
    assert_eq!(c.p, CARRY);
    c.adc(0x01);
    assert_eq!(c.a, 0x12);
    assert_eq!(c.p, 0);
    c.a = 0xFF;
    c.p = CARRY;
    c.adc(0x00);
    assert_eq!(c.a, 0x00);
    assert_eq!(c.p, CARRY | ZERO);
    // the carry counts whatever the other flags are
    c.p = CARRY | ZERO | 0x24;
    c.a = 1;
    c.adc(1);
    assert_eq!(c.a, 3);
    assert_eq!(c.p, 0x24);
}

#[test]
fn adc_sets_overflow_on_signed_overflow() {
    let mut c = cpu();
    c.lda(0x50);
    c.adc(0x50);
    assert_eq!(c.a, 0xA0);
    assert_eq!(c.p, NEGATIVE | OVERFLOW);
    // two negatives giving a positive
    c.p = 0;
    c.a = 0x90;
    c.adc(0x90);
    assert_eq!(c.a, 0x20);
    assert_eq!(c.p, CARRY | OVERFLOW);
    // a positive and a negative never overflow
    c.p = OVERFLOW;
    c.a = 0x50;
    c.adc(0xD0);
    assert_eq!(c.a, 0x20);
    assert_eq!(c.p, CARRY);
}

#[test]
fn sbc_sets_overflow_on_signed_overflow() {
    let mut c = cpu();
    c.lda(0x50);
    c.set_carry(true);
    c.sbc(0xB0);
    assert_eq!(c.a, 0xA0);
    assert_eq!(c.p, NEGATIVE | OVERFLOW);
    c.p = CARRY;
    c.a = 0xD0;
    c.sbc(0x70);
    assert_eq!(c.a, 0x60);
    assert_eq!(c.p, CARRY | OVERFLOW);
}

#[test]
fn sbc_subtracts_with_borrow() {
    let mut c = cpu();
    c.a = 0x50;
    c.p = CARRY;
    c.sbc(0x10);
    assert_eq!(c.a, 0x40);
    assert_eq!(c.p, CARRY);
    // no carry: borrow one more
    c.p = 0;
    c.a = 0x50;
    c.sbc(0x10);
    assert_eq!(c.a, 0x3F);
    assert_eq!(c.p, CARRY);
    // going below zero clears the carry
    c.p = CARRY;
    c.a = 0x10;
    c.sbc(0x20);
    assert_eq!(c.a, 0xF0);
    assert_eq!(c.p, NEGATIVE);
    c.p = CARRY;
    c.a = 0x20;
    c.sbc(0x20);
    assert_eq!(c.a, 0);
    assert_eq!(c.p, CARRY | ZERO);
}

#[test]
fn inc_and_dec_memory() {
    let mut b = bus();
    let mut c = cpu();
    b.write(0xFF, 0x20);
    c.inc(&mut b, 0x20);
    assert_eq!(b.read(0x20), 0x00);
    assert_eq!(c.p, ZERO);
    c.dec(&mut b, 0x20);
    assert_eq!(b.read(0x20), 0xFF);
    assert_eq!(c.p, NEGATIVE);
}

#[test]
fn increments_wrap() {
    let mut c = cpu();
    c.x = 0xFF;
    c.inx();
    assert_eq!((c.x, c.p), (0, ZERO));
    c.dex();
    assert_eq!((c.x, c.p), (0xFF, NEGATIVE));
    c.y = 0x7F;
    c.iny();
    assert_eq!((c.y, c.p), (0x80, NEGATIVE));
    c.dey();
    assert_eq!((c.y, c.p), (0x7F, 0));
}

#[test]
fn shifts_on_the_accumulator() {
    let mut b = bus();
    let mut c = cpu();
    c.a = 0x81;
    c.asl(&mut b, Operand::Accumulator);
    assert_eq!(c.a, 0x02);
    assert_eq!(c.p, CARRY);
    c.a = 0x81;
    c.p = 0;
    c.lsr(&mut b, Operand::Accumulator);
    assert_eq!(c.a, 0x40);
    assert_eq!(c.p, CARRY);
    c.a = 0x40;
    c.p = CARRY;
    c.rol(&mut b, Operand::Accumulator);
    assert_eq!(c.a, 0x81);
    assert_eq!(c.p, NEGATIVE);
    c.a = 0x02;
    c.p = CARRY;
    c.ror(&mut b, Operand::Accumulator);
    assert_eq!(c.a, 0x81);
    assert_eq!(c.p, NEGATIVE);
    c.a = 0x01;
    c.p = 0;
    c.lsr(&mut b, Operand::Accumulator);
    assert_eq!(c.a, 0);
    assert_eq!(c.p, CARRY | ZERO);
}

#[test]
fn shifts_in_memory() {
    let mut b = bus();
    let mut c = cpu();
    b.write(0xC0, 0x30);
    c.asl(&mut b, Operand::Address(0x30));
    assert_eq!(b.read(0x30), 0x80);
    assert_eq!(c.p, CARRY | NEGATIVE);
    c.p = 0;
    c.lsr(&mut b, Operand::Address(0x30));
    assert_eq!(b.read(0x30), 0x40);
    assert_eq!(c.p, 0);
    c.p = CARRY;
    c.rol(&mut b, Operand::Address(0x30));
    assert_eq!(b.read(0x30), 0x81);
    c.p = CARRY;
    c.ror(&mut b, Operand::Address(0x30));
    assert_eq!(b.read(0x30), 0xC0);
    assert_eq!(c.p, CARRY | NEGATIVE);
    // an implied operand changes nothing
    c.asl(&mut b, Operand::Implied);
    assert_eq!(b.read(0x30), 0xC0);
    assert_eq!(c.p, CARRY | NEGATIVE);
}

#[test]
fn eor_twice_restores_the_accumulator() {
    let mut b = bus();
    let mut c = cpu();
    b.write(0x5A, 0x40);
    c.a = 0x91;
    c.p = CARRY | OVERFLOW | ZERO;
    c.eor(&b, 0x40);
    c.eor(&b, 0x40);
    assert_eq!(c.a, 0x91);
    assert_eq!(c.p, CARRY | OVERFLOW | NEGATIVE);
}

#[test]
fn logic_with_memory() {
    let mut b = bus();
    let mut c = cpu();
    b.write(0x0F, 0x40);
    c.a = 0xF3;
    c.and(&b, 0x40);
    assert_eq!((c.a, c.p), (0x03, 0));
    c.a = 0xF0;
    c.ora(&b, 0x40);
    assert_eq!((c.a, c.p), (0xFF, NEGATIVE));
    c.eor(&b, 0x40);
    assert_eq!((c.a, c.p), (0xF0, NEGATIVE));
    c.a = 0xF0;
    c.and(&b, 0x40);
    assert_eq!((c.a, c.p), (0x00, ZERO));
}

#[test]
fn bit_tests_memory() {
    let mut b = bus();
    let mut c = cpu();
    b.write(0xC0, 0x40);
    c.a = 0x01;
    c.bit(&b, 0x40);
    assert_eq!(c.a, 0x01);
    assert_eq!(c.p, ZERO | OVERFLOW | NEGATIVE);
    b.write(0x01, 0x41);
    c.bit(&b, 0x41);
    assert_eq!(c.p, 0);
}

#[test]
fn flag_setters_touch_one_bit() {
    let mut c = cpu();
    c.set_carry(true);
    assert!(c.carry());
    c.set_zero(true);
    assert_eq!(c.p, CARRY | ZERO);
    assert!(c.carry());
    assert!(c.zero());
    c.set_carry(false);
    assert!(!c.carry());
    assert!(c.zero());
    c.set_zero(false);
    c.set_interrupt(true);
    assert!(c.interrupt());
    c.set_interrupt(false);
    c.set_decimal(true);
    assert!(c.decimal());
    c.set_decimal(false);
    c.set_overflow(true);
    assert!(c.overflow());
    c.set_overflow(false);
    c.set_negative(true);
    assert!(c.negative());
    c.set_negative(false);
    assert_eq!(c.p, 0);
}

#[test]
fn getters_read_one_bit() {
    let mut c = cpu();
    c.p = 0x24;
    assert!(c.interrupt());
    assert!(!c.carry() && !c.zero() && !c.decimal() && !c.overflow() && !c.negative());
    c.p = 0xFF;
    assert!(c.carry() && c.zero() && c.interrupt() && c.decimal() && c.overflow() && c.negative());
}

#[test]
fn setter_order_does_not_matter() {
    let mut c = cpu();
    c.set_negative(true);
    c.set_decimal(true);
    c.set_carry(true);
    c.set_overflow(false);
    c.set_zero(true);
    c.set_interrupt(false);
    let mut d = cpu();
    d.set_carry(true);
    d.set_zero(true);
    d.set_interrupt(false);
    d.set_decimal(true);
    d.set_overflow(false);
    d.set_negative(true);
    assert_eq!(c.status(), d.status());
    assert_eq!(c.status(), 0x8B);
}

#[test]
fn rol_then_ror_restores_the_accumulator() {
    let mut b = bus();
    let mut c = cpu();
    c.lda(0x80);
    c.set_carry(true);
    c.rol(&mut b, Operand::Accumulator);
    assert_eq!(c.a, 0x01);
    assert_eq!(c.p, CARRY);
    c.ror(&mut b, Operand::Accumulator);
    assert_eq!(c.a, 0x80);
    assert_eq!(c.p & CARRY, CARRY);
    // from 0x80 with the carry clear, ROL sets Z and C; ROR still brings 0x80 back
    c.p = 0;
    c.rol(&mut b, Operand::Accumulator);
    assert_eq!(c.a, 0x00);
    assert_eq!(c.p, CARRY | ZERO);
    c.ror(&mut b, Operand::Accumulator);
    assert_eq!(c.a, 0x80);
    assert_eq!(c.p & CARRY, 0);
}

#[test]
fn indirect_pointer_wraps_within_its_page() {
    let mut b = bus();
    b.write(0xFF, 0x0000);
    b.write(0x02, 0x0001);
    b.write(0x00, 0x02FF);
    b.write(0xA9, 0x0200);
    b.write(0x55, 0x0300);
    let mut c = cpu();
    assert_eq!(c.indirect(&b), Operand::Address(0xA900));
    assert_eq!(c.pc, 2);
}

#[test]
fn accumulator_opcodes_decode_to_the_accumulator() {
    let b = bus();
    let mut c = cpu();
    for byte in [0x0Au8, 0x2A, 0x4A, 0x6A] {
        let op = lookup_opcode(byte);
        assert_eq!(op.mode, AddressingMode::Accumulator);
        assert_eq!(c.decode(&b, &op), Operand::Accumulator);
    }
    assert_eq!(c.pc, 0);
    let op = lookup_opcode(0xAA);
    assert_eq!((op.instruction, op.mode), (Instruction::TAX, AddressingMode::Implicit));
    assert_eq!(c.decode(&b, &op), Operand::Implied);
    assert_eq!(c.pc, 0);
}

#[test]
fn set_zn_from_result() {
    let mut c = cpu();
    c.p = 0xFF;
    c.set_zn(0x01);
    assert_eq!(c.p, 0xFF & !ZERO & !NEGATIVE);
    c.set_zn(0x00);
    assert_eq!(c.p, 0xFF & !NEGATIVE);
}

#[test]
fn set_czvn_adc_uses_current_accumulator() {
    let mut c = cpu();
    c.a = 0x10;
    // 0x7F + 0x01 from an accumulator of 0x10: sign of 0x80 differs from 0x10 and 0x01
    c.set_czvn_adc(0x80, 0x01);
    assert_eq!(c.p, NEGATIVE | OVERFLOW);
    c.set_czvn_adc(0x100, 0x01);
    assert_eq!(c.p, ZERO | CARRY);
}

#[test]
fn set_czvn_sbc_from_signed_result() {
    let mut c = cpu();
    c.a = 0x10;
    c.set_czvn_sbc(-1, 0x11);
    assert_eq!(c.p, NEGATIVE);
    c.set_czvn_sbc(0, 0x10);
    assert_eq!(c.p, ZERO | CARRY);
    c.a = 0x80;
    c.set_czvn_sbc(0x7F, 0x01);
    assert_eq!(c.p, CARRY | OVERFLOW);
}

#[test]
fn operand_address() {
    assert_eq!(Operand::Address(0x1234).address(), 0x1234);
}

#[test]
fn pick_device_prefers_the_last_discrete_suitable_one() {
    assert_eq!(pick_device(&vec![(true, false), (true, false)]), 1);
    assert_eq!(pick_device(&vec![(false, true), (true, false)]), 1);
    assert_eq!(pick_device(&vec![(true, true), (true, false), (false, true)]), 0);
    assert_eq!(pick_device(&vec![(true, true), (true, false), (true, true), (true, false)]), 2);
}

#[test]
fn presentation_mode_prefers_mailbox() {
    assert_eq!(pick_presentation_mode(&vec![0, 2, 1]), PRESENT_MODE_MAILBOX);
    assert_eq!(pick_presentation_mode(&vec![0, 2, 3]), PRESENT_MODE_FIFO);
    assert_eq!(pick_presentation_mode(&vec![]), PRESENT_MODE_FIFO);
}

#[test]
fn surface_format_prefers_the_wanted_one() {
    assert_eq!(pick_surface_format(&vec![(44, 0), (37, 0), (37, 0)], 37, 0), 1);
    assert_eq!(pick_surface_format(&vec![(44, 0), (37, 5)], 37, 0), 0);
}

#[test]
fn min_image_count_is_capped_by_a_set_maximum() {
    assert_eq!(pick_min_image_count(3, 0), 3);
    assert_eq!(pick_min_image_count(3, 8), 3);
    assert_eq!(pick_min_image_count(3, 2), 2);
}

#[test]
fn image_extent_uses_current_or_clamps_the_window() {
    assert_eq!(image_extent((640, 480), (800, 600), (1, 1), (4096, 4096)), (640, 480));
    assert_eq!(image_extent((u32::MAX, u32::MAX), (800, 600), (1, 1), (700, 4096)), (700, 600));
    assert_eq!(image_extent((u32::MAX, 0), (0, 10), (16, 20), (700, 4096)), (16, 20));
}
