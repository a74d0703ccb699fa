use vstd::prelude::*;

verus! {

/// The operations of the 6502, the undocumented ones included.
#[derive(Clone, Copy, Debug, PartialEq, Eq, Structural)]
pub enum Instruction {
    LDA,
    STA,
    LDX,
    STX,
    LDY,
    STY,
    TAX,
    TXA,
    TAY,
    TYA,
    ADC,
    SBC,
    INC,
    DEC,
    INX,
    DEX,
    INY,
    DEY,
    ASL,
    LSR,
    ROL,
    ROR,
    AND,
    ORA,
    EOR,
    BIT,
    CMP,
    CPX,
    CPY,
    BCC,
    BCS,
    BEQ,
    BNE,
    BPL,
    BMI,
    BVC,
    BVS,
    JMP,
    JSR,
    RTS,
    BRK,
    RTI,
    PHA,
    PLA,
    PHP,
    PLP,
    TXS,
    TSX,
    CLC,
    SEC,
    CLI,
    SEI,
    CLD,
    SED,
    CLV,
    NOP,
    KIL,
    SLO,
    ANC,
    RLA,
    SRE,
    ALR,
    RRA,
    ARR,
    SAX,
    XAA,
    AHX,
    TAS,
    SHY,
    SHX,
    LAX,
    LAS,
    DCP,
    AXS,
    ISC,
}

/// How an instruction finds its operand.
#[derive(Clone, Copy, Debug, PartialEq, Eq, Structural)]
pub enum AddressingMode {
    ZeroPageX,
    ZeroPageY,
    ZeroPage,
    AbsoluteX,
    AbsoluteY,
    Absolute,
    IndirectX,
    IndirectY,
    Indirect,
    Implicit,
    Accumulator,
    Immediate,
    Relative,
}

/// What an opcode byte stands for: the operation, how its operand is addressed and how
/// many cycles it takes.
#[derive(Clone, Copy, Debug, PartialEq, Eq, Structural)]
pub struct Opcode {
    pub instruction: Instruction,
    pub mode: AddressingMode,
    pub cycles: u8,
}

/// The opcode table of the 6502.
pub open spec fn opcode_table(byte: u8) -> Opcode {
    match byte {
        0x00 => Opcode { instruction: Instruction::BRK, mode: AddressingMode::Implicit, cycles: 7 },
        0x01 => Opcode { instruction: Instruction::ORA, mode: AddressingMode::IndirectX, cycles: 6 },
        0x02 => Opcode { instruction: Instruction::KIL, mode: AddressingMode::Implicit, cycles: 0 },
        0x03 => Opcode { instruction: Instruction::SLO, mode: AddressingMode::IndirectX, cycles: 8 },
        0x04 => Opcode { instruction: Instruction::NOP, mode: AddressingMode::ZeroPage, cycles: 3 },
        0x05 => Opcode { instruction: Instruction::ORA, mode: AddressingMode::ZeroPage, cycles: 3 },
        0x06 => Opcode { instruction: Instruction::ASL, mode: AddressingMode::ZeroPage, cycles: 5 },
        0x07 => Opcode { instruction: Instruction::SLO, mode: AddressingMode::ZeroPage, cycles: 5 },
        0x08 => Opcode { instruction: Instruction::PHP, mode: AddressingMode::Implicit, cycles: 3 },
        0x09 => Opcode { instruction: Instruction::ORA, mode: AddressingMode::Immediate, cycles: 2 },
        0x0A => Opcode { instruction: Instruction::ASL, mode: AddressingMode::Accumulator, cycles: 2 },
        0x0B => Opcode { instruction: Instruction::ANC, mode: AddressingMode::Immediate, cycles: 2 },
        0x0C => Opcode { instruction: Instruction::NOP, mode: AddressingMode::Absolute, cycles: 4 },
        0x0D => Opcode { instruction: Instruction::ORA, mode: AddressingMode::Absolute, cycles: 4 },
        0x0E => Opcode { instruction: Instruction::ASL, mode: AddressingMode::Absolute, cycles: 6 },
        0x0F => Opcode { instruction: Instruction::SLO, mode: AddressingMode::Absolute, cycles: 6 },
        0x10 => Opcode { instruction: Instruction::BPL, mode: AddressingMode::Relative, cycles: 2 },
        0x11 => Opcode { instruction: Instruction::ORA, mode: AddressingMode::IndirectY, cycles: 5 },
        0x12 => Opcode { instruction: Instruction::KIL, mode: AddressingMode::Implicit, cycles: 0 },
        0x13 => Opcode { instruction: Instruction::SLO, mode: AddressingMode::IndirectY, cycles: 8 },
        0x14 => Opcode { instruction: Instruction::NOP, mode: AddressingMode::ZeroPageX, cycles: 4 },
        0x15 => Opcode { instruction: Instruction::ORA, mode: AddressingMode::ZeroPageX, cycles: 4 },
        0x16 => Opcode { instruction: Instruction::ASL, mode: AddressingMode::ZeroPageX, cycles: 6 },
        0x17 => Opcode { instruction: Instruction::SLO, mode: AddressingMode::ZeroPageX, cycles: 6 },
        0x18 => Opcode { instruction: Instruction::CLC, mode: AddressingMode::Implicit, cycles: 2 },
        0x19 => Opcode { instruction: Instruction::ORA, mode: AddressingMode::AbsoluteY, cycles: 4 },
        0x1A => Opcode { instruction: Instruction::NOP, mode: AddressingMode::Implicit, cycles: 2 },
        0x1B => Opcode { instruction: Instruction::SLO, mode: AddressingMode::AbsoluteY, cycles: 7 },
        0x1C => Opcode { instruction: Instruction::NOP, mode: AddressingMode::AbsoluteX, cycles: 4 },
        0x1D => Opcode { instruction: Instruction::ORA, mode: AddressingMode::AbsoluteX, cycles: 4 },
        0x1E => Opcode { instruction: Instruction::ASL, mode: AddressingMode::AbsoluteX, cycles: 7 },
        0x1F => Opcode { instruction: Instruction::SLO, mode: AddressingMode::AbsoluteX, cycles: 7 },
        0x20 => Opcode { instruction: Instruction::JSR, mode: AddressingMode::Absolute, cycles: 6 },
        0x21 => Opcode { instruction: Instruction::AND, mode: AddressingMode::IndirectX, cycles: 6 },
        0x22 => Opcode { instruction: Instruction::KIL, mode: AddressingMode::Implicit, cycles: 0 },
        0x23 => Opcode { instruction: Instruction::RLA, mode: AddressingMode::IndirectX, cycles: 8 },
        0x24 => Opcode { instruction: Instruction::BIT, mode: AddressingMode::ZeroPage, cycles: 3 },
        0x25 => Opcode { instruction: Instruction::AND, mode: AddressingMode::ZeroPage, cycles: 3 },
        0x26 => Opcode { instruction: Instruction::ROL, mode: AddressingMode::ZeroPage, cycles: 5 },
        0x27 => Opcode { instruction: Instruction::RLA, mode: AddressingMode::ZeroPage, cycles: 5 },
        0x28 => Opcode { instruction: Instruction::PLP, mode: AddressingMode::Implicit, cycles: 4 },
        0x29 => Opcode { instruction: Instruction::AND, mode: AddressingMode::Immediate, cycles: 2 },
        0x2A => Opcode { instruction: Instruction::ROL, mode: AddressingMode::Accumulator, cycles: 2 },
        0x2B => Opcode { instruction: Instruction::ANC, mode: AddressingMode::Immediate, cycles: 2 },
        0x2C => Opcode { instruction: Instruction::BIT, mode: AddressingMode::Absolute, cycles: 4 },
        0x2D => Opcode { instruction: Instruction::AND, mode: AddressingMode::Absolute, cycles: 4 },
        0x2E => Opcode { instruction: Instruction::ROL, mode: AddressingMode::Absolute, cycles: 6 },
        0x2F => Opcode { instruction: Instruction::RLA, mode: AddressingMode::Absolute, cycles: 6 },
        0x30 => Opcode { instruction: Instruction::BMI, mode: AddressingMode::Relative, cycles: 2 },
        0x31 => Opcode { instruction: Instruction::AND, mode: AddressingMode::IndirectY, cycles: 5 },
        0x32 => Opcode { instruction: Instruction::KIL, mode: AddressingMode::Implicit, cycles: 0 },
        0x33 => Opcode { instruction: Instruction::RLA, mode: AddressingMode::IndirectY, cycles: 8 },
        0x34 => Opcode { instruction: Instruction::NOP, mode: AddressingMode::ZeroPageX, cycles: 4 },
        0x35 => Opcode { instruction: Instruction::AND, mode: AddressingMode::ZeroPageX, cycles: 4 },
        0x36 => Opcode { instruction: Instruction::ROL, mode: AddressingMode::ZeroPageX, cycles: 6 },
        0x37 => Opcode { instruction: Instruction::RLA, mode: AddressingMode::ZeroPageX, cycles: 6 },
        0x38 => Opcode { instruction: Instruction::SEC, mode: AddressingMode::Implicit, cycles: 2 },
        0x39 => Opcode { instruction: Instruction::AND, mode: AddressingMode::AbsoluteY, cycles: 4 },
        0x3A => Opcode { instruction: Instruction::NOP, mode: AddressingMode::Implicit, cycles: 2 },
        0x3B => Opcode { instruction: Instruction::RLA, mode: AddressingMode::AbsoluteY, cycles: 7 },
        0x3C => Opcode { instruction: Instruction::NOP, mode: AddressingMode::AbsoluteX, cycles: 4 },
        0x3D => Opcode { instruction: Instruction::AND, mode: AddressingMode::AbsoluteX, cycles: 4 },
        0x3E => Opcode { instruction: Instruction::ROL, mode: AddressingMode::AbsoluteX, cycles: 7 },
        0x3F => Opcode { instruction: Instruction::RLA, mode: AddressingMode::AbsoluteX, cycles: 7 },
        0x40 => Opcode { instruction: Instruction::RTI, mode: AddressingMode::Implicit, cycles: 6 },
        0x41 => Opcode { instruction: Instruction::EOR, mode: AddressingMode::IndirectX, cycles: 6 },
        0x42 => Opcode { instruction: Instruction::KIL, mode: AddressingMode::Implicit, cycles: 0 },
        0x43 => Opcode { instruction: Instruction::SRE, mode: AddressingMode::IndirectX, cycles: 8 },
        0x44 => Opcode { instruction: Instruction::NOP, mode: AddressingMode::ZeroPage, cycles: 3 },
        0x45 => Opcode { instruction: Instruction::EOR, mode: AddressingMode::ZeroPage, cycles: 3 },
        0x46 => Opcode { instruction: Instruction::LSR, mode: AddressingMode::ZeroPage, cycles: 5 },
        0x47 => Opcode { instruction: Instruction::SRE, mode: AddressingMode::ZeroPage, cycles: 5 },
        0x48 => Opcode { instruction: Instruction::PHA, mode: AddressingMode::Implicit, cycles: 3 },
        0x49 => Opcode { instruction: Instruction::EOR, mode: AddressingMode::Immediate, cycles: 2 },
        0x4A => Opcode { instruction: Instruction::LSR, mode: AddressingMode::Accumulator, cycles: 2 },
        0x4B => Opcode { instruction: Instruction::ALR, mode: AddressingMode::Immediate, cycles: 2 },
        0x4C => Opcode { instruction: Instruction::JMP, mode: AddressingMode::Absolute, cycles: 3 },
        0x4D => Opcode { instruction: Instruction::EOR, mode: AddressingMode::Absolute, cycles: 4 },
        0x4E => Opcode { instruction: Instruction::LSR, mode: AddressingMode::Absolute, cycles: 6 },
        0x4F => Opcode { instruction: Instruction::SRE, mode: AddressingMode::Absolute, cycles: 6 },
        0x50 => Opcode { instruction: Instruction::BVC, mode: AddressingMode::Relative, cycles: 2 },
        0x51 => Opcode { instruction: Instruction::EOR, mode: AddressingMode::IndirectY, cycles: 5 },
        0x52 => Opcode { instruction: Instruction::KIL, mode: AddressingMode::Implicit, cycles: 0 },
        0x53 => Opcode { instruction: Instruction::SRE, mode: AddressingMode::IndirectY, cycles: 8 },
        0x54 => Opcode { instruction: Instruction::NOP, mode: AddressingMode::ZeroPageX, cycles: 4 },
        0x55 => Opcode { instruction: Instruction::EOR, mode: AddressingMode::ZeroPageX, cycles: 4 },
        0x56 => Opcode { instruction: Instruction::LSR, mode: AddressingMode::ZeroPageX, cycles: 6 },
        0x57 => Opcode { instruction: Instruction::SRE, mode: AddressingMode::ZeroPageX, cycles: 6 },
        0x58 => Opcode { instruction: Instruction::CLI, mode: AddressingMode::Implicit, cycles: 2 },
        0x59 => Opcode { instruction: Instruction::EOR, mode: AddressingMode::AbsoluteY, cycles: 4 },
        0x5A => Opcode { instruction: Instruction::NOP, mode: AddressingMode::Implicit, cycles: 2 },
        0x5B => Opcode { instruction: Instruction::SRE, mode: AddressingMode::AbsoluteY, cycles: 7 },
        0x5C => Opcode { instruction: Instruction::NOP, mode: AddressingMode::AbsoluteX, cycles: 4 },
        0x5D => Opcode { instruction: Instruction::EOR, mode: AddressingMode::AbsoluteX, cycles: 4 },
        0x5E => Opcode { instruction: Instruction::LSR, mode: AddressingMode::AbsoluteX, cycles: 7 },
        0x5F => Opcode { instruction: Instruction::SRE, mode: AddressingMode::AbsoluteX, cycles: 7 },
        0x60 => Opcode { instruction: Instruction::RTS, mode: AddressingMode::Implicit, cycles: 6 },
        0x61 => Opcode { instruction: Instruction::ADC, mode: AddressingMode::IndirectX, cycles: 6 },
        0x62 => Opcode { instruction: Instruction::KIL, mode: AddressingMode::Implicit, cycles: 0 },
        0x63 => Opcode { instruction: Instruction::RRA, mode: AddressingMode::IndirectX, cycles: 8 },
        0x64 => Opcode { instruction: Instruction::NOP, mode: AddressingMode::ZeroPage, cycles: 3 },
        0x65 => Opcode { instruction: Instruction::ADC, mode: AddressingMode::ZeroPage, cycles: 3 },
        0x66 => Opcode { instruction: Instruction::ROR, mode: AddressingMode::ZeroPage, cycles: 5 },
        0x67 => Opcode { instruction: Instruction::RRA, mode: AddressingMode::ZeroPage, cycles: 5 },
        0x68 => Opcode { instruction: Instruction::PLA, mode: AddressingMode::Implicit, cycles: 4 },
        0x69 => Opcode { instruction: Instruction::ADC, mode: AddressingMode::Immediate, cycles: 2 },
        0x6A => Opcode { instruction: Instruction::ROR, mode: AddressingMode::Accumulator, cycles: 2 },
        0x6B => Opcode { instruction: Instruction::ARR, mode: AddressingMode::Immediate, cycles: 2 },
        0x6C => Opcode { instruction: Instruction::JMP, mode: AddressingMode::Indirect, cycles: 5 },
        0x6D => Opcode { instruction: Instruction::ADC, mode: AddressingMode::Absolute, cycles: 4 },
        0x6E => Opcode { instruction: Instruction::ROR, mode: AddressingMode::Absolute, cycles: 6 },
        0x6F => Opcode { instruction: Instruction::RRA, mode: AddressingMode::Absolute, cycles: 6 },
        0x70 => Opcode { instruction: Instruction::BVS, mode: AddressingMode::Relative, cycles: 2 },
        0x71 => Opcode { instruction: Instruction::ADC, mode: AddressingMode::IndirectY, cycles: 5 },
        0x72 => Opcode { instruction: Instruction::KIL, mode: AddressingMode::Implicit, cycles: 0 },
        0x73 => Opcode { instruction: Instruction::RRA, mode: AddressingMode::IndirectY, cycles: 8 },
        0x74 => Opcode { instruction: Instruction::NOP, mode: AddressingMode::ZeroPageX, cycles: 4 },
        0x75 => Opcode { instruction: Instruction::ADC, mode: AddressingMode::ZeroPageX, cycles: 4 },
        0x76 => Opcode { instruction: Instruction::ROR, mode: AddressingMode::ZeroPageX, cycles: 6 },
        0x77 => Opcode { instruction: Instruction::RRA, mode: AddressingMode::ZeroPageX, cycles: 6 },
        0x78 => Opcode { instruction: Instruction::SEI, mode: AddressingMode::Implicit, cycles: 2 },
        0x79 => Opcode { instruction: Instruction::ADC, mode: AddressingMode::AbsoluteY, cycles: 4 },
        0x7A => Opcode { instruction: Instruction::NOP, mode: AddressingMode::Implicit, cycles: 2 },
        0x7B => Opcode { instruction: Instruction::RRA, mode: AddressingMode::AbsoluteY, cycles: 7 },
        0x7C => Opcode { instruction: Instruction::NOP, mode: AddressingMode::AbsoluteX, cycles: 4 },
        0x7D => Opcode { instruction: Instruction::ADC, mode: AddressingMode::AbsoluteX, cycles: 4 },
        0x7E => Opcode { instruction: Instruction::ROR, mode: AddressingMode::AbsoluteX, cycles: 7 },
        0x7F => Opcode { instruction: Instruction::RRA, mode: AddressingMode::AbsoluteX, cycles: 7 },
        0x80 => Opcode { instruction: Instruction::NOP, mode: AddressingMode::Immediate, cycles: 2 },
        0x81 => Opcode { instruction: Instruction::STA, mode: AddressingMode::IndirectX, cycles: 6 },
        0x82 => Opcode { instruction: Instruction::NOP, mode: AddressingMode::Immediate, cycles: 2 },
        0x83 => Opcode { instruction: Instruction::SAX, mode: AddressingMode::IndirectX, cycles: 6 },
        0x84 => Opcode { instruction: Instruction::STY, mode: AddressingMode::ZeroPage, cycles: 3 },
        0x85 => Opcode { instruction: Instruction::STA, mode: AddressingMode::ZeroPage, cycles: 3 },
        0x86 => Opcode { instruction: Instruction::STX, mode: AddressingMode::ZeroPage, cycles: 3 },
        0x87 => Opcode { instruction: Instruction::SAX, mode: AddressingMode::ZeroPage, cycles: 3 },
        0x88 => Opcode { instruction: Instruction::DEY, mode: AddressingMode::Implicit, cycles: 2 },
        0x89 => Opcode { instruction: Instruction::NOP, mode: AddressingMode::Immediate, cycles: 2 },
        0x8A => Opcode { instruction: Instruction::TXA, mode: AddressingMode::Implicit, cycles: 2 },
        0x8B => Opcode { instruction: Instruction::XAA, mode: AddressingMode::Immediate, cycles: 2 },
        0x8C => Opcode { instruction: Instruction::STY, mode: AddressingMode::Absolute, cycles: 4 },
        0x8D => Opcode { instruction: Instruction::STA, mode: AddressingMode::Absolute, cycles: 4 },
        0x8E => Opcode { instruction: Instruction::STX, mode: AddressingMode::Absolute, cycles: 4 },
        0x8F => Opcode { instruction: Instruction::SAX, mode: AddressingMode::Absolute, cycles: 4 },
        0x90 => Opcode { instruction: Instruction::BCC, mode: AddressingMode::Relative, cycles: 2 },
        0x91 => Opcode { instruction: Instruction::STA, mode: AddressingMode::IndirectY, cycles: 6 },
        0x92 => Opcode { instruction: Instruction::KIL, mode: AddressingMode::Implicit, cycles: 0 },
        0x93 => Opcode { instruction: Instruction::AHX, mode: AddressingMode::IndirectY, cycles: 6 },
        0x94 => Opcode { instruction: Instruction::STY, mode: AddressingMode::ZeroPageX, cycles: 4 },
        0x95 => Opcode { instruction: Instruction::STA, mode: AddressingMode::ZeroPageX, cycles: 4 },
        0x96 => Opcode { instruction: Instruction::STX, mode: AddressingMode::ZeroPageY, cycles: 4 },
        0x97 => Opcode { instruction: Instruction::SAX, mode: AddressingMode::ZeroPageY, cycles: 4 },
        0x98 => Opcode { instruction: Instruction::TYA, mode: AddressingMode::Implicit, cycles: 2 },
        0x99 => Opcode { instruction: Instruction::STA, mode: AddressingMode::AbsoluteY, cycles: 5 },
        0x9A => Opcode { instruction: Instruction::TXS, mode: AddressingMode::Implicit, cycles: 2 },
        0x9B => Opcode { instruction: Instruction::TAS, mode: AddressingMode::AbsoluteY, cycles: 5 },
        0x9C => Opcode { instruction: Instruction::SHY, mode: AddressingMode::AbsoluteX, cycles: 5 },
        0x9D => Opcode { instruction: Instruction::STA, mode: AddressingMode::AbsoluteX, cycles: 5 },
        0x9E => Opcode { instruction: Instruction::SHX, mode: AddressingMode::AbsoluteY, cycles: 5 },
        0x9F => Opcode { instruction: Instruction::AHX, mode: AddressingMode::AbsoluteY, cycles: 5 },
        0xA0 => Opcode { instruction: Instruction::LDY, mode: AddressingMode::Immediate, cycles: 2 },
        0xA1 => Opcode { instruction: Instruction::LDA, mode: AddressingMode::IndirectX, cycles: 6 },
        0xA2 => Opcode { instruction: Instruction::LDX, mode: AddressingMode::Immediate, cycles: 2 },
        0xA3 => Opcode { instruction: Instruction::LAX, mode: AddressingMode::IndirectX, cycles: 6 },
        0xA4 => Opcode { instruction: Instruction::LDY, mode: AddressingMode::ZeroPage, cycles: 3 },
        0xA5 => Opcode { instruction: Instruction::LDA, mode: AddressingMode::ZeroPage, cycles: 3 },
        0xA6 => Opcode { instruction: Instruction::LDX, mode: AddressingMode::ZeroPage, cycles: 3 },
        0xA7 => Opcode { instruction: Instruction::LAX, mode: AddressingMode::ZeroPage, cycles: 3 },
        0xA8 => Opcode { instruction: Instruction::TAY, mode: AddressingMode::Implicit, cycles: 2 },
        0xA9 => Opcode { instruction: Instruction::LDA, mode: AddressingMode::Immediate, cycles: 2 },
        0xAA => Opcode { instruction: Instruction::TAX, mode: AddressingMode::Implicit, cycles: 2 },
        0xAB => Opcode { instruction: Instruction::LAX, mode: AddressingMode::Immediate, cycles: 2 },
        0xAC => Opcode { instruction: Instruction::LDY, mode: AddressingMode::Absolute, cycles: 4 },
        0xAD => Opcode { instruction: Instruction::LDA, mode: AddressingMode::Absolute, cycles: 4 },
        0xAE => Opcode { instruction: Instruction::LDX, mode: AddressingMode::Absolute, cycles: 4 },
        0xAF => Opcode { instruction: Instruction::LAX, mode: AddressingMode::Absolute, cycles: 4 },
        0xB0 => Opcode { instruction: Instruction::BCS, mode: AddressingMode::Relative, cycles: 2 },
        0xB1 => Opcode { instruction: Instruction::LDA, mode: AddressingMode::IndirectY, cycles: 5 },
        0xB2 => Opcode { instruction: Instruction::KIL, mode: AddressingMode::Implicit, cycles: 0 },
        0xB3 => Opcode { instruction: Instruction::LAX, mode: AddressingMode::IndirectY, cycles: 5 },
        0xB4 => Opcode { instruction: Instruction::LDY, mode: AddressingMode::ZeroPageX, cycles: 4 },
        0xB5 => Opcode { instruction: Instruction::LDA, mode: AddressingMode::ZeroPageX, cycles: 4 },
        0xB6 => Opcode { instruction: Instruction::LDX, mode: AddressingMode::ZeroPageY, cycles: 4 },
        0xB7 => Opcode { instruction: Instruction::LAX, mode: AddressingMode::ZeroPageY, cycles: 4 },
        0xB8 => Opcode { instruction: Instruction::CLV, mode: AddressingMode::Implicit, cycles: 2 },
        0xB9 => Opcode { instruction: Instruction::LDA, mode: AddressingMode::AbsoluteY, cycles: 4 },
        0xBA => Opcode { instruction: Instruction::TSX, mode: AddressingMode::Implicit, cycles: 2 },
        0xBB => Opcode { instruction: Instruction::LAS, mode: AddressingMode::AbsoluteY, cycles: 4 },
        0xBC => Opcode { instruction: Instruction::LDY, mode: AddressingMode::AbsoluteX, cycles: 4 },
        0xBD => Opcode { instruction: Instruction::LDA, mode: AddressingMode::AbsoluteX, cycles: 4 },
        0xBE => Opcode { instruction: Instruction::LDX, mode: AddressingMode::AbsoluteY, cycles: 4 },
        0xBF => Opcode { instruction: Instruction::LAX, mode: AddressingMode::AbsoluteY, cycles: 4 },
        0xC0 => Opcode { instruction: Instruction::CPY, mode: AddressingMode::Immediate, cycles: 2 },
        0xC1 => Opcode { instruction: Instruction::CMP, mode: AddressingMode::IndirectX, cycles: 6 },
        0xC2 => Opcode { instruction: Instruction::NOP, mode: AddressingMode::Immediate, cycles: 2 },
        0xC3 => Opcode { instruction: Instruction::DCP, mode: AddressingMode::IndirectX, cycles: 8 },
        0xC4 => Opcode { instruction: Instruction::CPY, mode: AddressingMode::ZeroPage, cycles: 3 },
        0xC5 => Opcode { instruction: Instruction::CMP, mode: AddressingMode::ZeroPage, cycles: 3 },
        0xC6 => Opcode { instruction: Instruction::DEC, mode: AddressingMode::ZeroPage, cycles: 5 },
        0xC7 => Opcode { instruction: Instruction::DCP, mode: AddressingMode::ZeroPage, cycles: 5 },
        0xC8 => Opcode { instruction: Instruction::INY, mode: AddressingMode::Implicit, cycles: 2 },
        0xC9 => Opcode { instruction: Instruction::CMP, mode: AddressingMode::Immediate, cycles: 2 },
        0xCA => Opcode { instruction: Instruction::DEX, mode: AddressingMode::Implicit, cycles: 2 },
        0xCB => Opcode { instruction: Instruction::AXS, mode: AddressingMode::Immediate, cycles: 2 },
        0xCC => Opcode { instruction: Instruction::CPY, mode: AddressingMode::Absolute, cycles: 4 },
        0xCD => Opcode { instruction: Instruction::CMP, mode: AddressingMode::Absolute, cycles: 4 },
        0xCE => Opcode { instruction: Instruction::DEC, mode: AddressingMode::Absolute, cycles: 6 },
        0xCF => Opcode { instruction: Instruction::DCP, mode: AddressingMode::Absolute, cycles: 6 },
        0xD0 => Opcode { instruction: Instruction::BNE, mode: AddressingMode::Relative, cycles: 2 },
        0xD1 => Opcode { instruction: Instruction::CMP, mode: AddressingMode::IndirectY, cycles: 5 },
        0xD2 => Opcode { instruction: Instruction::KIL, mode: AddressingMode::Implicit, cycles: 0 },
        0xD3 => Opcode { instruction: Instruction::DCP, mode: AddressingMode::IndirectY, cycles: 8 },
        0xD4 => Opcode { instruction: Instruction::NOP, mode: AddressingMode::ZeroPageX, cycles: 4 },
        0xD5 => Opcode { instruction: Instruction::CMP, mode: AddressingMode::ZeroPageX, cycles: 4 },
        0xD6 => Opcode { instruction: Instruction::DEC, mode: AddressingMode::ZeroPageX, cycles: 6 },
        0xD7 => Opcode { instruction: Instruction::DCP, mode: AddressingMode::ZeroPageX, cycles: 6 },
        0xD8 => Opcode { instruction: Instruction::CLD, mode: AddressingMode::Implicit, cycles: 2 },
        0xD9 => Opcode { instruction: Instruction::CMP, mode: AddressingMode::AbsoluteY, cycles: 4 },
        0xDA => Opcode { instruction: Instruction::NOP, mode: AddressingMode::Implicit, cycles: 2 },
        0xDB => Opcode { instruction: Instruction::DCP, mode: AddressingMode::AbsoluteY, cycles: 7 },
        0xDC => Opcode { instruction: Instruction::NOP, mode: AddressingMode::AbsoluteX, cycles: 4 },
        0xDD => Opcode { instruction: Instruction::CMP, mode: AddressingMode::AbsoluteX, cycles: 4 },
        0xDE => Opcode { instruction: Instruction::DEC, mode: AddressingMode::AbsoluteX, cycles: 7 },
        0xDF => Opcode { instruction: Instruction::DCP, mode: AddressingMode::AbsoluteX, cycles: 7 },
        0xE0 => Opcode { instruction: Instruction::CPX, mode: AddressingMode::Immediate, cycles: 2 },
        0xE1 => Opcode { instruction: Instruction::SBC, mode: AddressingMode::IndirectX, cycles: 6 },
        0xE2 => Opcode { instruction: Instruction::NOP, mode: AddressingMode::Immediate, cycles: 2 },
        0xE3 => Opcode { instruction: Instruction::ISC, mode: AddressingMode::IndirectX, cycles: 8 },
        0xE4 => Opcode { instruction: Instruction::CPX, mode: AddressingMode::ZeroPage, cycles: 3 },
        0xE5 => Opcode { instruction: Instruction::SBC, mode: AddressingMode::ZeroPage, cycles: 3 },
        0xE6 => Opcode { instruction: Instruction::INC, mode: AddressingMode::ZeroPage, cycles: 5 },
        0xE7 => Opcode { instruction: Instruction::ISC, mode: AddressingMode::ZeroPage, cycles: 5 },
        0xE8 => Opcode { instruction: Instruction::INX, mode: AddressingMode::Implicit, cycles: 2 },
        0xE9 => Opcode { instruction: Instruction::SBC, mode: AddressingMode::Immediate, cycles: 2 },
        0xEA => Opcode { instruction: Instruction::NOP, mode: AddressingMode::Implicit, cycles: 2 },
        0xEB => Opcode { instruction: Instruction::SBC, mode: AddressingMode::Immediate, cycles: 2 },
        0xEC => Opcode { instruction: Instruction::CPX, mode: AddressingMode::Absolute, cycles: 4 },
        0xED => Opcode { instruction: Instruction::SBC, mode: AddressingMode::Absolute, cycles: 4 },
        0xEE => Opcode { instruction: Instruction::INC, mode: AddressingMode::Absolute, cycles: 6 },
        0xEF => Opcode { instruction: Instruction::ISC, mode: AddressingMode::Absolute, cycles: 6 },
        0xF0 => Opcode { instruction: Instruction::BEQ, mode: AddressingMode::Relative, cycles: 2 },
        0xF1 => Opcode { instruction: Instruction::SBC, mode: AddressingMode::IndirectY, cycles: 5 },
        0xF2 => Opcode { instruction: Instruction::KIL, mode: AddressingMode::Implicit, cycles: 0 },
        0xF3 => Opcode { instruction: Instruction::ISC, mode: AddressingMode::IndirectY, cycles: 8 },
        0xF4 => Opcode { instruction: Instruction::NOP, mode: AddressingMode::ZeroPageX, cycles: 4 },
        0xF5 => Opcode { instruction: Instruction::SBC, mode: AddressingMode::ZeroPageX, cycles: 4 },
        0xF6 => Opcode { instruction: Instruction::INC, mode: AddressingMode::ZeroPageX, cycles: 6 },
        0xF7 => Opcode { instruction: Instruction::ISC, mode: AddressingMode::ZeroPageX, cycles: 6 },
        0xF8 => Opcode { instruction: Instruction::SED, mode: AddressingMode::Implicit, cycles: 2 },
        0xF9 => Opcode { instruction: Instruction::SBC, mode: AddressingMode::AbsoluteY, cycles: 4 },
        0xFA => Opcode { instruction: Instruction::NOP, mode: AddressingMode::Implicit, cycles: 2 },
        0xFB => Opcode { instruction: Instruction::ISC, mode: AddressingMode::AbsoluteY, cycles: 7 },
        0xFC => Opcode { instruction: Instruction::NOP, mode: AddressingMode::AbsoluteX, cycles: 4 },
        0xFD => Opcode { instruction: Instruction::SBC, mode: AddressingMode::AbsoluteX, cycles: 4 },
        0xFE => Opcode { instruction: Instruction::INC, mode: AddressingMode::AbsoluteX, cycles: 7 },
        0xFF => Opcode { instruction: Instruction::ISC, mode: AddressingMode::AbsoluteX, cycles: 7 },
    }
}

/// Looks up the opcode that `byte` stands for.
pub fn lookup_opcode(byte: u8) -> (op: Opcode)
    ensures
        op == opcode_table(byte),
{
    match byte {
        0x00 => Opcode { instruction: Instruction::BRK, mode: AddressingMode::Implicit, cycles: 7 },
        0x01 => Opcode { instruction: Instruction::ORA, mode: AddressingMode::IndirectX, cycles: 6 },
        0x02 => Opcode { instruction: Instruction::KIL, mode: AddressingMode::Implicit, cycles: 0 },
        0x03 => Opcode { instruction: Instruction::SLO, mode: AddressingMode::IndirectX, cycles: 8 },
        0x04 => Opcode { instruction: Instruction::NOP, mode: AddressingMode::ZeroPage, cycles: 3 },
        0x05 => Opcode { instruction: Instruction::ORA, mode: AddressingMode::ZeroPage, cycles: 3 },
        0x06 => Opcode { instruction: Instruction::ASL, mode: AddressingMode::ZeroPage, cycles: 5 },
        0x07 => Opcode { instruction: Instruction::SLO, mode: AddressingMode::ZeroPage, cycles: 5 },
        0x08 => Opcode { instruction: Instruction::PHP, mode: AddressingMode::Implicit, cycles: 3 },
        0x09 => Opcode { instruction: Instruction::ORA, mode: AddressingMode::Immediate, cycles: 2 },
        0x0A => Opcode { instruction: Instruction::ASL, mode: AddressingMode::Accumulator, cycles: 2 },
        0x0B => Opcode { instruction: Instruction::ANC, mode: AddressingMode::Immediate, cycles: 2 },
        0x0C => Opcode { instruction: Instruction::NOP, mode: AddressingMode::Absolute, cycles: 4 },
        0x0D => Opcode { instruction: Instruction::ORA, mode: AddressingMode::Absolute, cycles: 4 },
        0x0E => Opcode { instruction: Instruction::ASL, mode: AddressingMode::Absolute, cycles: 6 },
        0x0F => Opcode { instruction: Instruction::SLO, mode: AddressingMode::Absolute, cycles: 6 },
        0x10 => Opcode { instruction: Instruction::BPL, mode: AddressingMode::Relative, cycles: 2 },
        0x11 => Opcode { instruction: Instruction::ORA, mode: AddressingMode::IndirectY, cycles: 5 },
        0x12 => Opcode { instruction: Instruction::KIL, mode: AddressingMode::Implicit, cycles: 0 },
        0x13 => Opcode { instruction: Instruction::SLO, mode: AddressingMode::IndirectY, cycles: 8 },
        0x14 => Opcode { instruction: Instruction::NOP, mode: AddressingMode::ZeroPageX, cycles: 4 },
        0x15 => Opcode { instruction: Instruction::ORA, mode: AddressingMode::ZeroPageX, cycles: 4 },
        0x16 => Opcode { instruction: Instruction::ASL, mode: AddressingMode::ZeroPageX, cycles: 6 },
        0x17 => Opcode { instruction: Instruction::SLO, mode: AddressingMode::ZeroPageX, cycles: 6 },
        0x18 => Opcode { instruction: Instruction::CLC, mode: AddressingMode::Implicit, cycles: 2 },
        0x19 => Opcode { instruction: Instruction::ORA, mode: AddressingMode::AbsoluteY, cycles: 4 },
        0x1A => Opcode { instruction: Instruction::NOP, mode: AddressingMode::Implicit, cycles: 2 },
        0x1B => Opcode { instruction: Instruction::SLO, mode: AddressingMode::AbsoluteY, cycles: 7 },
        0x1C => Opcode { instruction: Instruction::NOP, mode: AddressingMode::AbsoluteX, cycles: 4 },
        0x1D => Opcode { instruction: Instruction::ORA, mode: AddressingMode::AbsoluteX, cycles: 4 },
        0x1E => Opcode { instruction: Instruction::ASL, mode: AddressingMode::AbsoluteX, cycles: 7 },
        0x1F => Opcode { instruction: Instruction::SLO, mode: AddressingMode::AbsoluteX, cycles: 7 },
        0x20 => Opcode { instruction: Instruction::JSR, mode: AddressingMode::Absolute, cycles: 6 },
        0x21 => Opcode { instruction: Instruction::AND, mode: AddressingMode::IndirectX, cycles: 6 },
        0x22 => Opcode { instruction: Instruction::KIL, mode: AddressingMode::Implicit, cycles: 0 },
        0x23 => Opcode { instruction: Instruction::RLA, mode: AddressingMode::IndirectX, cycles: 8 },
        0x24 => Opcode { instruction: Instruction::BIT, mode: AddressingMode::ZeroPage, cycles: 3 },
        0x25 => Opcode { instruction: Instruction::AND, mode: AddressingMode::ZeroPage, cycles: 3 },
        0x26 => Opcode { instruction: Instruction::ROL, mode: AddressingMode::ZeroPage, cycles: 5 },
        0x27 => Opcode { instruction: Instruction::RLA, mode: AddressingMode::ZeroPage, cycles: 5 },
        0x28 => Opcode { instruction: Instruction::PLP, mode: AddressingMode::Implicit, cycles: 4 },
        0x29 => Opcode { instruction: Instruction::AND, mode: AddressingMode::Immediate, cycles: 2 },
        0x2A => Opcode { instruction: Instruction::ROL, mode: AddressingMode::Accumulator, cycles: 2 },
        0x2B => Opcode { instruction: Instruction::ANC, mode: AddressingMode::Immediate, cycles: 2 },
        0x2C => Opcode { instruction: Instruction::BIT, mode: AddressingMode::Absolute, cycles: 4 },
        0x2D => Opcode { instruction: Instruction::AND, mode: AddressingMode::Absolute, cycles: 4 },
        0x2E => Opcode { instruction: Instruction::ROL, mode: AddressingMode::Absolute, cycles: 6 },
        0x2F => Opcode { instruction: Instruction::RLA, mode: AddressingMode::Absolute, cycles: 6 },
        0x30 => Opcode { instruction: Instruction::BMI, mode: AddressingMode::Relative, cycles: 2 },
        0x31 => Opcode { instruction: Instruction::AND, mode: AddressingMode::IndirectY, cycles: 5 },
        0x32 => Opcode { instruction: Instruction::KIL, mode: AddressingMode::Implicit, cycles: 0 },
        0x33 => Opcode { instruction: Instruction::RLA, mode: AddressingMode::IndirectY, cycles: 8 },
        0x34 => Opcode { instruction: Instruction::NOP, mode: AddressingMode::ZeroPageX, cycles: 4 },
        0x35 => Opcode { instruction: Instruction::AND, mode: AddressingMode::ZeroPageX, cycles: 4 },
        0x36 => Opcode { instruction: Instruction::ROL, mode: AddressingMode::ZeroPageX, cycles: 6 },
        0x37 => Opcode { instruction: Instruction::RLA, mode: AddressingMode::ZeroPageX, cycles: 6 },
        0x38 => Opcode { instruction: Instruction::SEC, mode: AddressingMode::Implicit, cycles: 2 },
        0x39 => Opcode { instruction: Instruction::AND, mode: AddressingMode::AbsoluteY, cycles: 4 },
        0x3A => Opcode { instruction: Instruction::NOP, mode: AddressingMode::Implicit, cycles: 2 },
        0x3B => Opcode { instruction: Instruction::RLA, mode: AddressingMode::AbsoluteY, cycles: 7 },
        0x3C => Opcode { instruction: Instruction::NOP, mode: AddressingMode::AbsoluteX, cycles: 4 },
        0x3D => Opcode { instruction: Instruction::AND, mode: AddressingMode::AbsoluteX, cycles: 4 },
        0x3E => Opcode { instruction: Instruction::ROL, mode: AddressingMode::AbsoluteX, cycles: 7 },
        0x3F => Opcode { instruction: Instruction::RLA, mode: AddressingMode::AbsoluteX, cycles: 7 },
        0x40 => Opcode { instruction: Instruction::RTI, mode: AddressingMode::Implicit, cycles: 6 },
        0x41 => Opcode { instruction: Instruction::EOR, mode: AddressingMode::IndirectX, cycles: 6 },
        0x42 => Opcode { instruction: Instruction::KIL, mode: AddressingMode::Implicit, cycles: 0 },
        0x43 => Opcode { instruction: Instruction::SRE, mode: AddressingMode::IndirectX, cycles: 8 },
        0x44 => Opcode { instruction: Instruction::NOP, mode: AddressingMode::ZeroPage, cycles: 3 },
        0x45 => Opcode { instruction: Instruction::EOR, mode: AddressingMode::ZeroPage, cycles: 3 },
        0x46 => Opcode { instruction: Instruction::LSR, mode: AddressingMode::ZeroPage, cycles: 5 },
        0x47 => Opcode { instruction: Instruction::SRE, mode: AddressingMode::ZeroPage, cycles: 5 },
        0x48 => Opcode { instruction: Instruction::PHA, mode: AddressingMode::Implicit, cycles: 3 },
        0x49 => Opcode { instruction: Instruction::EOR, mode: AddressingMode::Immediate, cycles: 2 },
        0x4A => Opcode { instruction: Instruction::LSR, mode: AddressingMode::Accumulator, cycles: 2 },
        0x4B => Opcode { instruction: Instruction::ALR, mode: AddressingMode::Immediate, cycles: 2 },
        0x4C => Opcode { instruction: Instruction::JMP, mode: AddressingMode::Absolute, cycles: 3 },
        0x4D => Opcode { instruction: Instruction::EOR, mode: AddressingMode::Absolute, cycles: 4 },
        0x4E => Opcode { instruction: Instruction::LSR, mode: AddressingMode::Absolute, cycles: 6 },
        0x4F => Opcode { instruction: Instruction::SRE, mode: AddressingMode::Absolute, cycles: 6 },
        0x50 => Opcode { instruction: Instruction::BVC, mode: AddressingMode::Relative, cycles: 2 },
        0x51 => Opcode { instruction: Instruction::EOR, mode: AddressingMode::IndirectY, cycles: 5 },
        0x52 => Opcode { instruction: Instruction::KIL, mode: AddressingMode::Implicit, cycles: 0 },
        0x53 => Opcode { instruction: Instruction::SRE, mode: AddressingMode::IndirectY, cycles: 8 },
        0x54 => Opcode { instruction: Instruction::NOP, mode: AddressingMode::ZeroPageX, cycles: 4 },
        0x55 => Opcode { instruction: Instruction::EOR, mode: AddressingMode::ZeroPageX, cycles: 4 },
        0x56 => Opcode { instruction: Instruction::LSR, mode: AddressingMode::ZeroPageX, cycles: 6 },
        0x57 => Opcode { instruction: Instruction::SRE, mode: AddressingMode::ZeroPageX, cycles: 6 },
        0x58 => Opcode { instruction: Instruction::CLI, mode: AddressingMode::Implicit, cycles: 2 },
        0x59 => Opcode { instruction: Instruction::EOR, mode: AddressingMode::AbsoluteY, cycles: 4 },
        0x5A => Opcode { instruction: Instruction::NOP, mode: AddressingMode::Implicit, cycles: 2 },
        0x5B => Opcode { instruction: Instruction::SRE, mode: AddressingMode::AbsoluteY, cycles: 7 },
        0x5C => Opcode { instruction: Instruction::NOP, mode: AddressingMode::AbsoluteX, cycles: 4 },
        0x5D => Opcode { instruction: Instruction::EOR, mode: AddressingMode::AbsoluteX, cycles: 4 },
        0x5E => Opcode { instruction: Instruction::LSR, mode: AddressingMode::AbsoluteX, cycles: 7 },
        0x5F => Opcode { instruction: Instruction::SRE, mode: AddressingMode::AbsoluteX, cycles: 7 },
        0x60 => Opcode { instruction: Instruction::RTS, mode: AddressingMode::Implicit, cycles: 6 },
        0x61 => Opcode { instruction: Instruction::ADC, mode: AddressingMode::IndirectX, cycles: 6 },
        0x62 => Opcode { instruction: Instruction::KIL, mode: AddressingMode::Implicit, cycles: 0 },
        0x63 => Opcode { instruction: Instruction::RRA, mode: AddressingMode::IndirectX, cycles: 8 },
        0x64 => Opcode { instruction: Instruction::NOP, mode: AddressingMode::ZeroPage, cycles: 3 },
        0x65 => Opcode { instruction: Instruction::ADC, mode: AddressingMode::ZeroPage, cycles: 3 },
        0x66 => Opcode { instruction: Instruction::ROR, mode: AddressingMode::ZeroPage, cycles: 5 },
        0x67 => Opcode { instruction: Instruction::RRA, mode: AddressingMode::ZeroPage, cycles: 5 },
        0x68 => Opcode { instruction: Instruction::PLA, mode: AddressingMode::Implicit, cycles: 4 },
        0x69 => Opcode { instruction: Instruction::ADC, mode: AddressingMode::Immediate, cycles: 2 },
        0x6A => Opcode { instruction: Instruction::ROR, mode: AddressingMode::Accumulator, cycles: 2 },
        0x6B => Opcode { instruction: Instruction::ARR, mode: AddressingMode::Immediate, cycles: 2 },
        0x6C => Opcode { instruction: Instruction::JMP, mode: AddressingMode::Indirect, cycles: 5 },
        0x6D => Opcode { instruction: Instruction::ADC, mode: AddressingMode::Absolute, cycles: 4 },
        0x6E => Opcode { instruction: Instruction::ROR, mode: AddressingMode::Absolute, cycles: 6 },
        0x6F => Opcode { instruction: Instruction::RRA, mode: AddressingMode::Absolute, cycles: 6 },
        0x70 => Opcode { instruction: Instruction::BVS, mode: AddressingMode::Relative, cycles: 2 },
        0x71 => Opcode { instruction: Instruction::ADC, mode: AddressingMode::IndirectY, cycles: 5 },
        0x72 => Opcode { instruction: Instruction::KIL, mode: AddressingMode::Implicit, cycles: 0 },
        0x73 => Opcode { instruction: Instruction::RRA, mode: AddressingMode::IndirectY, cycles: 8 },
        0x74 => Opcode { instruction: Instruction::NOP, mode: AddressingMode::ZeroPageX, cycles: 4 },
        0x75 => Opcode { instruction: Instruction::ADC, mode: AddressingMode::ZeroPageX, cycles: 4 },
        0x76 => Opcode { instruction: Instruction::ROR, mode: AddressingMode::ZeroPageX, cycles: 6 },
        0x77 => Opcode { instruction: Instruction::RRA, mode: AddressingMode::ZeroPageX, cycles: 6 },
        0x78 => Opcode { instruction: Instruction::SEI, mode: AddressingMode::Implicit, cycles: 2 },
        0x79 => Opcode { instruction: Instruction::ADC, mode: AddressingMode::AbsoluteY, cycles: 4 },
        0x7A => Opcode { instruction: Instruction::NOP, mode: AddressingMode::Implicit, cycles: 2 },
        0x7B => Opcode { instruction: Instruction::RRA, mode: AddressingMode::AbsoluteY, cycles: 7 },
        0x7C => Opcode { instruction: Instruction::NOP, mode: AddressingMode::AbsoluteX, cycles: 4 },
        0x7D => Opcode { instruction: Instruction::ADC, mode: AddressingMode::AbsoluteX, cycles: 4 },
        0x7E => Opcode { instruction: Instruction::ROR, mode: AddressingMode::AbsoluteX, cycles: 7 },
        0x7F => Opcode { instruction: Instruction::RRA, mode: AddressingMode::AbsoluteX, cycles: 7 },
        0x80 => Opcode { instruction: Instruction::NOP, mode: AddressingMode::Immediate, cycles: 2 },
        0x81 => Opcode { instruction: Instruction::STA, mode: AddressingMode::IndirectX, cycles: 6 },
        0x82 => Opcode { instruction: Instruction::NOP, mode: AddressingMode::Immediate, cycles: 2 },
        0x83 => Opcode { instruction: Instruction::SAX, mode: AddressingMode::IndirectX, cycles: 6 },
        0x84 => Opcode { instruction: Instruction::STY, mode: AddressingMode::ZeroPage, cycles: 3 },
        0x85 => Opcode { instruction: Instruction::STA, mode: AddressingMode::ZeroPage, cycles: 3 },
        0x86 => Opcode { instruction: Instruction::STX, mode: AddressingMode::ZeroPage, cycles: 3 },
        0x87 => Opcode { instruction: Instruction::SAX, mode: AddressingMode::ZeroPage, cycles: 3 },
        0x88 => Opcode { instruction: Instruction::DEY, mode: AddressingMode::Implicit, cycles: 2 },
        0x89 => Opcode { instruction: Instruction::NOP, mode: AddressingMode::Immediate, cycles: 2 },
        0x8A => Opcode { instruction: Instruction::TXA, mode: AddressingMode::Implicit, cycles: 2 },
        0x8B => Opcode { instruction: Instruction::XAA, mode: AddressingMode::Immediate, cycles: 2 },
        0x8C => Opcode { instruction: Instruction::STY, mode: AddressingMode::Absolute, cycles: 4 },
        0x8D => Opcode { instruction: Instruction::STA, mode: AddressingMode::Absolute, cycles: 4 },
        0x8E => Opcode { instruction: Instruction::STX, mode: AddressingMode::Absolute, cycles: 4 },
        0x8F => Opcode { instruction: Instruction::SAX, mode: AddressingMode::Absolute, cycles: 4 },
        0x90 => Opcode { instruction: Instruction::BCC, mode: AddressingMode::Relative, cycles: 2 },
        0x91 => Opcode { instruction: Instruction::STA, mode: AddressingMode::IndirectY, cycles: 6 },
        0x92 => Opcode { instruction: Instruction::KIL, mode: AddressingMode::Implicit, cycles: 0 },
        0x93 => Opcode { instruction: Instruction::AHX, mode: AddressingMode::IndirectY, cycles: 6 },
        0x94 => Opcode { instruction: Instruction::STY, mode: AddressingMode::ZeroPageX, cycles: 4 },
        0x95 => Opcode { instruction: Instruction::STA, mode: AddressingMode::ZeroPageX, cycles: 4 },
        0x96 => Opcode { instruction: Instruction::STX, mode: AddressingMode::ZeroPageY, cycles: 4 },
        0x97 => Opcode { instruction: Instruction::SAX, mode: AddressingMode::ZeroPageY, cycles: 4 },
        0x98 => Opcode { instruction: Instruction::TYA, mode: AddressingMode::Implicit, cycles: 2 },
        0x99 => Opcode { instruction: Instruction::STA, mode: AddressingMode::AbsoluteY, cycles: 5 },
        0x9A => Opcode { instruction: Instruction::TXS, mode: AddressingMode::Implicit, cycles: 2 },
        0x9B => Opcode { instruction: Instruction::TAS, mode: AddressingMode::AbsoluteY, cycles: 5 },
        0x9C => Opcode { instruction: Instruction::SHY, mode: AddressingMode::AbsoluteX, cycles: 5 },
        0x9D => Opcode { instruction: Instruction::STA, mode: AddressingMode::AbsoluteX, cycles: 5 },
        0x9E => Opcode { instruction: Instruction::SHX, mode: AddressingMode::AbsoluteY, cycles: 5 },
        0x9F => Opcode { instruction: Instruction::AHX, mode: AddressingMode::AbsoluteY, cycles: 5 },
        0xA0 => Opcode { instruction: Instruction::LDY, mode: AddressingMode::Immediate, cycles: 2 },
        0xA1 => Opcode { instruction: Instruction::LDA, mode: AddressingMode::IndirectX, cycles: 6 },
        0xA2 => Opcode { instruction: Instruction::LDX, mode: AddressingMode::Immediate, cycles: 2 },
        0xA3 => Opcode { instruction: Instruction::LAX, mode: AddressingMode::IndirectX, cycles: 6 },
        0xA4 => Opcode { instruction: Instruction::LDY, mode: AddressingMode::ZeroPage, cycles: 3 },
        0xA5 => Opcode { instruction: Instruction::LDA, mode: AddressingMode::ZeroPage, cycles: 3 },
        0xA6 => Opcode { instruction: Instruction::LDX, mode: AddressingMode::ZeroPage, cycles: 3 },
        0xA7 => Opcode { instruction: Instruction::LAX, mode: AddressingMode::ZeroPage, cycles: 3 },
        0xA8 => Opcode { instruction: Instruction::TAY, mode: AddressingMode::Implicit, cycles: 2 },
        0xA9 => Opcode { instruction: Instruction::LDA, mode: AddressingMode::Immediate, cycles: 2 },
        0xAA => Opcode { instruction: Instruction::TAX, mode: AddressingMode::Implicit, cycles: 2 },
        0xAB => Opcode { instruction: Instruction::LAX, mode: AddressingMode::Immediate, cycles: 2 },
        0xAC => Opcode { instruction: Instruction::LDY, mode: AddressingMode::Absolute, cycles: 4 },
        0xAD => Opcode { instruction: Instruction::LDA, mode: AddressingMode::Absolute, cycles: 4 },
        0xAE => Opcode { instruction: Instruction::LDX, mode: AddressingMode::Absolute, cycles: 4 },
        0xAF => Opcode { instruction: Instruction::LAX, mode: AddressingMode::Absolute, cycles: 4 },
        0xB0 => Opcode { instruction: Instruction::BCS, mode: AddressingMode::Relative, cycles: 2 },
        0xB1 => Opcode { instruction: Instruction::LDA, mode: AddressingMode::IndirectY, cycles: 5 },
        0xB2 => Opcode { instruction: Instruction::KIL, mode: AddressingMode::Implicit, cycles: 0 },
        0xB3 => Opcode { instruction: Instruction::LAX, mode: AddressingMode::IndirectY, cycles: 5 },
        0xB4 => Opcode { instruction: Instruction::LDY, mode: AddressingMode::ZeroPageX, cycles: 4 },
        0xB5 => Opcode { instruction: Instruction::LDA, mode: AddressingMode::ZeroPageX, cycles: 4 },
        0xB6 => Opcode { instruction: Instruction::LDX, mode: AddressingMode::ZeroPageY, cycles: 4 },
        0xB7 => Opcode { instruction: Instruction::LAX, mode: AddressingMode::ZeroPageY, cycles: 4 },
        0xB8 => Opcode { instruction: Instruction::CLV, mode: AddressingMode::Implicit, cycles: 2 },
        0xB9 => Opcode { instruction: Instruction::LDA, mode: AddressingMode::AbsoluteY, cycles: 4 },
        0xBA => Opcode { instruction: Instruction::TSX, mode: AddressingMode::Implicit, cycles: 2 },
        0xBB => Opcode { instruction: Instruction::LAS, mode: AddressingMode::AbsoluteY, cycles: 4 },
        0xBC => Opcode { instruction: Instruction::LDY, mode: AddressingMode::AbsoluteX, cycles: 4 },
        0xBD => Opcode { instruction: Instruction::LDA, mode: AddressingMode::AbsoluteX, cycles: 4 },
        0xBE => Opcode { instruction: Instruction::LDX, mode: AddressingMode::AbsoluteY, cycles: 4 },
        0xBF => Opcode { instruction: Instruction::LAX, mode: AddressingMode::AbsoluteY, cycles: 4 },
        0xC0 => Opcode { instruction: Instruction::CPY, mode: AddressingMode::Immediate, cycles: 2 },
        0xC1 => Opcode { instruction: Instruction::CMP, mode: AddressingMode::IndirectX, cycles: 6 },
        0xC2 => Opcode { instruction: Instruction::NOP, mode: AddressingMode::Immediate, cycles: 2 },
        0xC3 => Opcode { instruction: Instruction::DCP, mode: AddressingMode::IndirectX, cycles: 8 },
        0xC4 => Opcode { instruction: Instruction::CPY, mode: AddressingMode::ZeroPage, cycles: 3 },
        0xC5 => Opcode { instruction: Instruction::CMP, mode: AddressingMode::ZeroPage, cycles: 3 },
        0xC6 => Opcode { instruction: Instruction::DEC, mode: AddressingMode::ZeroPage, cycles: 5 },
        0xC7 => Opcode { instruction: Instruction::DCP, mode: AddressingMode::ZeroPage, cycles: 5 },
        0xC8 => Opcode { instruction: Instruction::INY, mode: AddressingMode::Implicit, cycles: 2 },
        0xC9 => Opcode { instruction: Instruction::CMP, mode: AddressingMode::Immediate, cycles: 2 },
        0xCA => Opcode { instruction: Instruction::DEX, mode: AddressingMode::Implicit, cycles: 2 },
        0xCB => Opcode { instruction: Instruction::AXS, mode: AddressingMode::Immediate, cycles: 2 },
        0xCC => Opcode { instruction: Instruction::CPY, mode: AddressingMode::Absolute, cycles: 4 },
        0xCD => Opcode { instruction: Instruction::CMP, mode: AddressingMode::Absolute, cycles: 4 },
        0xCE => Opcode { instruction: Instruction::DEC, mode: AddressingMode::Absolute, cycles: 6 },
        0xCF => Opcode { instruction: Instruction::DCP, mode: AddressingMode::Absolute, cycles: 6 },
        0xD0 => Opcode { instruction: Instruction::BNE, mode: AddressingMode::Relative, cycles: 2 },
        0xD1 => Opcode { instruction: Instruction::CMP, mode: AddressingMode::IndirectY, cycles: 5 },
        0xD2 => Opcode { instruction: Instruction::KIL, mode: AddressingMode::Implicit, cycles: 0 },
        0xD3 => Opcode { instruction: Instruction::DCP, mode: AddressingMode::IndirectY, cycles: 8 },
        0xD4 => Opcode { instruction: Instruction::NOP, mode: AddressingMode::ZeroPageX, cycles: 4 },
        0xD5 => Opcode { instruction: Instruction::CMP, mode: AddressingMode::ZeroPageX, cycles: 4 },
        0xD6 => Opcode { instruction: Instruction::DEC, mode: AddressingMode::ZeroPageX, cycles: 6 },
        0xD7 => Opcode { instruction: Instruction::DCP, mode: AddressingMode::ZeroPageX, cycles: 6 },
        0xD8 => Opcode { instruction: Instruction::CLD, mode: AddressingMode::Implicit, cycles: 2 },
        0xD9 => Opcode { instruction: Instruction::CMP, mode: AddressingMode::AbsoluteY, cycles: 4 },
        0xDA => Opcode { instruction: Instruction::NOP, mode: AddressingMode::Implicit, cycles: 2 },
        0xDB => Opcode { instruction: Instruction::DCP, mode: AddressingMode::AbsoluteY, cycles: 7 },
        0xDC => Opcode { instruction: Instruction::NOP, mode: AddressingMode::AbsoluteX, cycles: 4 },
        0xDD => Opcode { instruction: Instruction::CMP, mode: AddressingMode::AbsoluteX, cycles: 4 },
        0xDE => Opcode { instruction: Instruction::DEC, mode: AddressingMode::AbsoluteX, cycles: 7 },
        0xDF => Opcode { instruction: Instruction::DCP, mode: AddressingMode::AbsoluteX, cycles: 7 },
        0xE0 => Opcode { instruction: Instruction::CPX, mode: AddressingMode::Immediate, cycles: 2 },
        0xE1 => Opcode { instruction: Instruction::SBC, mode: AddressingMode::IndirectX, cycles: 6 },
        0xE2 => Opcode { instruction: Instruction::NOP, mode: AddressingMode::Immediate, cycles: 2 },
        0xE3 => Opcode { instruction: Instruction::ISC, mode: AddressingMode::IndirectX, cycles: 8 },
        0xE4 => Opcode { instruction: Instruction::CPX, mode: AddressingMode::ZeroPage, cycles: 3 },
        0xE5 => Opcode { instruction: Instruction::SBC, mode: AddressingMode::ZeroPage, cycles: 3 },
        0xE6 => Opcode { instruction: Instruction::INC, mode: AddressingMode::ZeroPage, cycles: 5 },
        0xE7 => Opcode { instruction: Instruction::ISC, mode: AddressingMode::ZeroPage, cycles: 5 },
        0xE8 => Opcode { instruction: Instruction::INX, mode: AddressingMode::Implicit, cycles: 2 },
        0xE9 => Opcode { instruction: Instruction::SBC, mode: AddressingMode::Immediate, cycles: 2 },
        0xEA => Opcode { instruction: Instruction::NOP, mode: AddressingMode::Implicit, cycles: 2 },
        0xEB => Opcode { instruction: Instruction::SBC, mode: AddressingMode::Immediate, cycles: 2 },
        0xEC => Opcode { instruction: Instruction::CPX, mode: AddressingMode::Absolute, cycles: 4 },
        0xED => Opcode { instruction: Instruction::SBC, mode: AddressingMode::Absolute, cycles: 4 },
        0xEE => Opcode { instruction: Instruction::INC, mode: AddressingMode::Absolute, cycles: 6 },
        0xEF => Opcode { instruction: Instruction::ISC, mode: AddressingMode::Absolute, cycles: 6 },
        0xF0 => Opcode { instruction: Instruction::BEQ, mode: AddressingMode::Relative, cycles: 2 },
        0xF1 => Opcode { instruction: Instruction::SBC, mode: AddressingMode::IndirectY, cycles: 5 },
        0xF2 => Opcode { instruction: Instruction::KIL, mode: AddressingMode::Implicit, cycles: 0 },
        0xF3 => Opcode { instruction: Instruction::ISC, mode: AddressingMode::IndirectY, cycles: 8 },
        0xF4 => Opcode { instruction: Instruction::NOP, mode: AddressingMode::ZeroPageX, cycles: 4 },
        0xF5 => Opcode { instruction: Instruction::SBC, mode: AddressingMode::ZeroPageX, cycles: 4 },
        0xF6 => Opcode { instruction: Instruction::INC, mode: AddressingMode::ZeroPageX, cycles: 6 },
        0xF7 => Opcode { instruction: Instruction::ISC, mode: AddressingMode::ZeroPageX, cycles: 6 },
        0xF8 => Opcode { instruction: Instruction::SED, mode: AddressingMode::Implicit, cycles: 2 },
        0xF9 => Opcode { instruction: Instruction::SBC, mode: AddressingMode::AbsoluteY, cycles: 4 },
        0xFA => Opcode { instruction: Instruction::NOP, mode: AddressingMode::Implicit, cycles: 2 },
        0xFB => Opcode { instruction: Instruction::ISC, mode: AddressingMode::AbsoluteY, cycles: 7 },
        0xFC => Opcode { instruction: Instruction::NOP, mode: AddressingMode::AbsoluteX, cycles: 4 },
        0xFD => Opcode { instruction: Instruction::SBC, mode: AddressingMode::AbsoluteX, cycles: 4 },
        0xFE => Opcode { instruction: Instruction::INC, mode: AddressingMode::AbsoluteX, cycles: 7 },
        0xFF => Opcode { instruction: Instruction::ISC, mode: AddressingMode::AbsoluteX, cycles: 7 },
    }
}

/// The addressing mode that bits 2-4 of an opcode `aaabbb01` of the ALU group select:
/// (zp,X), zp, #imm, abs, (zp),Y, zp,X, abs,Y, abs,X.
pub open spec fn alu_mode(byte: u8) -> AddressingMode {
    let bbb = byte / 4 % 8;
    if bbb == 0 {
        AddressingMode::IndirectX
    } else if bbb == 1 {
        AddressingMode::ZeroPage
    } else if bbb == 2 {
        AddressingMode::Immediate
    } else if bbb == 3 {
        AddressingMode::Absolute
    } else if bbb == 4 {
        AddressingMode::IndirectY
    } else if bbb == 5 {
        AddressingMode::ZeroPageX
    } else if bbb == 6 {
        AddressingMode::AbsoluteY
    } else {
        AddressingMode::AbsoluteX
    }
}

/// The operation that bits 5-7 of an opcode `aaabbb01` of the ALU group select.
pub open spec fn alu_instruction(byte: u8) -> Instruction {
    let aaa = byte / 32;
    if aaa == 0 {
        Instruction::ORA
    } else if aaa == 1 {
        Instruction::AND
    } else if aaa == 2 {
        Instruction::EOR
    } else if aaa == 3 {
        Instruction::ADC
    } else if aaa == 4 {
        Instruction::STA
    } else if aaa == 5 {
        Instruction::LDA
    } else if aaa == 6 {
        Instruction::CMP
    } else {
        Instruction::SBC
    }
}

/// Cycles of an ALU-group opcode: set by its addressing mode, a store taking the extra
/// cycle that indexed reads take only across a page.
pub open spec fn alu_cycles(byte: u8) -> u8 {
    let store = byte / 32 == 4;
    match alu_mode(byte) {
        AddressingMode::IndirectX => 6,
        AddressingMode::ZeroPage => 3,
        AddressingMode::Immediate => 2,
        AddressingMode::Absolute => 4,
        AddressingMode::IndirectY => if store { 6 } else { 5 },
        AddressingMode::ZeroPageX => 4,
        _ => if store { 5 } else { 4 },
    }
}

/// The ALU group of the 6502 (opcodes whose low two bits are 01) decodes by bit fields:
/// bits 5-7 give the operation, bits 2-4 the addressing mode, and the mode sets the cycles.
/// The one exception is 0x89, which would be STA #imm and is a two-byte NOP.
pub proof fn lemma_alu_group(byte: u8)
    requires
        byte % 4 == 1,
    ensures
        opcode_table(byte).mode == alu_mode(byte),
        byte != 0x89 ==> opcode_table(byte).instruction == alu_instruction(byte),
        byte != 0x89 ==> opcode_table(byte).cycles == alu_cycles(byte),
        opcode_table(0x89) == (Opcode { instruction: Instruction::NOP, mode: AddressingMode::Immediate, cycles: 2 }),
{
}

/// Every conditional branch (opcodes `xxy10000`) takes a relative operand and two cycles.
pub proof fn lemma_branches(byte: u8)
    requires
        byte % 32 == 0x10,
    ensures
        opcode_table(byte).mode == AddressingMode::Relative,
        opcode_table(byte).cycles == 2,
{
}

/// The addressing mode that the 6502 encoding gives an opcode: set by its low five bits
/// (the column of the opcode matrix), with the exceptions of the first column (BRK, JSR,
/// RTI, RTS), JMP indirect, KIL, the accumulator shifts, and the X-register loads and stores
/// (and their undocumented neighbours), which index by Y where the column indexes by X.
pub open spec fn encoded_mode(byte: u8) -> AddressingMode {
    let column = byte % 32;
    let row = byte / 32;
    if column == 0x00 {
        if row == 1 {
            AddressingMode::Absolute
        } else if row < 4 {
            AddressingMode::Implicit
        } else {
            AddressingMode::Immediate
        }
    } else if column == 0x02 {
        if row < 4 {
            AddressingMode::Implicit
        } else {
            AddressingMode::Immediate
        }
    } else if column == 0x0A {
        if row < 4 {
            AddressingMode::Accumulator
        } else {
            AddressingMode::Implicit
        }
    } else if column == 0x0C && row == 3 {
        AddressingMode::Indirect
    } else if (column == 0x16 || column == 0x17) && (row == 4 || row == 5) {
        AddressingMode::ZeroPageY
    } else if (column == 0x1E || column == 0x1F) && (row == 4 || row == 5) {
        AddressingMode::AbsoluteY
    } else if column == 0x01 || column == 0x03 {
        AddressingMode::IndirectX
    } else if 0x04 <= column <= 0x07 {
        AddressingMode::ZeroPage
    } else if column == 0x08 || column == 0x12 || column == 0x18 || column == 0x1A {
        AddressingMode::Implicit
    } else if column == 0x09 || column == 0x0B {
        AddressingMode::Immediate
    } else if 0x0C <= column <= 0x0F {
        AddressingMode::Absolute
    } else if column == 0x10 {
        AddressingMode::Relative
    } else if column == 0x11 || column == 0x13 {
        AddressingMode::IndirectY
    } else if 0x14 <= column <= 0x17 {
        AddressingMode::ZeroPageX
    } else if column == 0x19 || column == 0x1B {
        AddressingMode::AbsoluteY
    } else {
        AddressingMode::AbsoluteX
    }
}

/// Every opcode's addressing mode follows the 6502 encoding.
pub proof fn lemma_addressing_modes(byte: u8)
    ensures
        opcode_table(byte).mode == encoded_mode(byte),
{
}

/// The operation that bits 5-7 select in the shift-and-increment columns (opcodes
/// `aaabbb10` with bbb odd).
pub open spec fn shift_instruction(byte: u8) -> Instruction {
    let aaa = byte / 32;
    if aaa == 0 {
        Instruction::ASL
    } else if aaa == 1 {
        Instruction::ROL
    } else if aaa == 2 {
        Instruction::LSR
    } else if aaa == 3 {
        Instruction::ROR
    } else if aaa == 4 {
        Instruction::STX
    } else if aaa == 5 {
        Instruction::LDX
    } else if aaa == 6 {
        Instruction::DEC
    } else {
        Instruction::INC
    }
}

/// The undocumented operation that bits 5-7 select in the columns `aaabbb11`: each combines
/// the shift of column `aaabbb10` with the ALU operation of column `aaabbb01`.
pub open spec fn combined_instruction(byte: u8) -> Instruction {
    let aaa = byte / 32;
    if aaa == 0 {
        Instruction::SLO
    } else if aaa == 1 {
        Instruction::RLA
    } else if aaa == 2 {
        Instruction::SRE
    } else if aaa == 3 {
        Instruction::RRA
    } else if aaa == 4 {
        Instruction::SAX
    } else if aaa == 5 {
        Instruction::LAX
    } else if aaa == 6 {
        Instruction::DCP
    } else {
        Instruction::ISC
    }
}

/// Cycles of a read-modify-write on memory: 5 on the zero page, 6 indexed there or absolute,
/// 7 absolute indexed, 8 through a pointer.
pub open spec fn read_modify_write_cycles(mode: AddressingMode) -> u8 {
    match mode {
        AddressingMode::ZeroPage => 5,
        AddressingMode::ZeroPageX | AddressingMode::Absolute => 6,
        AddressingMode::AbsoluteX | AddressingMode::AbsoluteY => 7,
        _ => 8,
    }
}

/// The shift, decrement and increment columns (zp, abs, zp,X, abs,X of `aaabbb10`) decode
/// by bits 5-7, SHX (0x9E) aside; the shifts, DEC and INC take read-modify-write cycles.
pub proof fn lemma_shift_group(byte: u8)
    requires
        byte % 4 == 2,
        byte / 4 % 2 == 1,
        byte != 0x9E,
    ensures
        opcode_table(byte).instruction == shift_instruction(byte),
        byte / 32 != 4 && byte / 32 != 5 ==> opcode_table(byte).cycles
            == read_modify_write_cycles(opcode_table(byte).mode),
{
}

/// The undocumented columns `aaabbb11` other than #imm decode by bits 5-7 (AHX at 0x93
/// and 0x9F, TAS at 0x9B and LAS at 0xBB aside); those that read, modify and write memory (all but SAX
/// and LAX) take read-modify-write cycles.
pub proof fn lemma_combined_group(byte: u8)
    requires
        byte % 4 == 3,
        byte / 4 % 8 != 2,
        byte != 0x93 && byte != 0x9F && byte != 0x9B && byte != 0xBB,
    ensures
        opcode_table(byte).instruction == combined_instruction(byte),
        byte / 32 != 4 && byte / 32 != 5 ==> opcode_table(byte).cycles
            == read_modify_write_cycles(opcode_table(byte).mode),
{
}

/// The operations, row by row (bits 5-7), of the columns (bits 0-4) of the opcode matrix
/// that hold the control, register and flag instructions.
pub open spec fn column_instructions(column: u8) -> Seq<Instruction> {
    if column == 0x00 {
        seq![Instruction::BRK, Instruction::JSR, Instruction::RTI, Instruction::RTS, Instruction::NOP, Instruction::LDY, Instruction::CPY, Instruction::CPX]
    } else if column == 0x02 {
        seq![Instruction::KIL, Instruction::KIL, Instruction::KIL, Instruction::KIL, Instruction::NOP, Instruction::LDX, Instruction::NOP, Instruction::NOP]
    } else if column == 0x04 {
        seq![Instruction::NOP, Instruction::BIT, Instruction::NOP, Instruction::NOP, Instruction::STY, Instruction::LDY, Instruction::CPY, Instruction::CPX]
    } else if column == 0x08 {
        seq![Instruction::PHP, Instruction::PLP, Instruction::PHA, Instruction::PLA, Instruction::DEY, Instruction::TAY, Instruction::INY, Instruction::INX]
    } else if column == 0x0A {
        seq![Instruction::ASL, Instruction::ROL, Instruction::LSR, Instruction::ROR, Instruction::TXA, Instruction::TAX, Instruction::DEX, Instruction::NOP]
    } else if column == 0x0B {
        seq![Instruction::ANC, Instruction::ANC, Instruction::ALR, Instruction::ARR, Instruction::XAA, Instruction::LAX, Instruction::AXS, Instruction::SBC]
    } else if column == 0x0C {
        seq![Instruction::NOP, Instruction::BIT, Instruction::JMP, Instruction::JMP, Instruction::STY, Instruction::LDY, Instruction::CPY, Instruction::CPX]
    } else if column == 0x10 {
        seq![Instruction::BPL, Instruction::BMI, Instruction::BVC, Instruction::BVS, Instruction::BCC, Instruction::BCS, Instruction::BNE, Instruction::BEQ]
    } else if column == 0x12 {
        seq![Instruction::KIL, Instruction::KIL, Instruction::KIL, Instruction::KIL, Instruction::KIL, Instruction::KIL, Instruction::KIL, Instruction::KIL]
    } else if column == 0x14 {
        seq![Instruction::NOP, Instruction::NOP, Instruction::NOP, Instruction::NOP, Instruction::STY, Instruction::LDY, Instruction::NOP, Instruction::NOP]
    } else if column == 0x18 {
        seq![Instruction::CLC, Instruction::SEC, Instruction::CLI, Instruction::SEI, Instruction::TYA, Instruction::CLV, Instruction::CLD, Instruction::SED]
    } else if column == 0x1A {
        seq![Instruction::NOP, Instruction::NOP, Instruction::NOP, Instruction::NOP, Instruction::TXS, Instruction::TSX, Instruction::NOP, Instruction::NOP]
    } else if column == 0x1C {
        seq![Instruction::NOP, Instruction::NOP, Instruction::NOP, Instruction::NOP, Instruction::SHY, Instruction::LDY, Instruction::NOP, Instruction::NOP]
    } else {
        seq![]
    }
}

/// The operation that the 6502 encoding gives an opcode: the ALU, shift and undocumented
/// combined groups decode by bits 5-7; the other columns list their operations by row.
pub open spec fn encoded_instruction(byte: u8) -> Instruction {
    let column = byte % 32;
    let row = byte / 32;
    if byte == 0x89 {
        Instruction::NOP
    } else if byte == 0x9E {
        Instruction::SHX
    } else if byte == 0x93 || byte == 0x9F {
        Instruction::AHX
    } else if byte == 0x9B {
        Instruction::TAS
    } else if byte == 0xBB {
        Instruction::LAS
    } else if byte % 4 == 1 {
        alu_instruction(byte)
    } else if byte % 4 == 2 && byte / 4 % 2 == 1 {
        shift_instruction(byte)
    } else if byte % 4 == 3 && byte / 4 % 8 != 2 {
        combined_instruction(byte)
    } else {
        column_instructions(column)[row as int]
    }
}

/// Every opcode's operation follows the 6502 encoding.
pub proof fn lemma_instructions(byte: u8)
    ensures
        opcode_table(byte).instruction == encoded_instruction(byte),
{
}

/// Whether `i` writes memory without reading it.
pub open spec fn is_store(i: Instruction) -> bool {
    i == Instruction::STA || i == Instruction::STX || i == Instruction::STY || i == Instruction::SAX
        || i == Instruction::AHX || i == Instruction::SHX || i == Instruction::SHY || i
        == Instruction::TAS
}

/// Whether `i` reads, modifies and writes back its operand.
pub open spec fn is_read_modify_write(i: Instruction) -> bool {
    i == Instruction::ASL || i == Instruction::ROL || i == Instruction::LSR || i == Instruction::ROR
        || i == Instruction::DEC || i == Instruction::INC || i == Instruction::SLO || i
        == Instruction::RLA || i == Instruction::SRE || i == Instruction::RRA || i
        == Instruction::DCP || i == Instruction::ISC
}

/// Cycles of an operation that reads its operand from memory in mode `mode`.
pub open spec fn read_cycles(mode: AddressingMode) -> u8 {
    match mode {
        AddressingMode::ZeroPage => 3,
        AddressingMode::ZeroPageX | AddressingMode::ZeroPageY | AddressingMode::Absolute
        | AddressingMode::AbsoluteX | AddressingMode::AbsoluteY => 4,
        AddressingMode::IndirectY => 5,
        _ => 6,
    }
}

/// Cycles of an operation that stores to memory in mode `mode`: as a read, but indexed
/// absolute and (zp),Y stores always take the extra cycle.
pub open spec fn store_cycles(mode: AddressingMode) -> u8 {
    match mode {
        AddressingMode::ZeroPage => 3,
        AddressingMode::ZeroPageX | AddressingMode::ZeroPageY | AddressingMode::Absolute => 4,
        AddressingMode::AbsoluteX | AddressingMode::AbsoluteY => 5,
        _ => 6,
    }
}

/// The cycles that an operation in a mode takes on the 6502: KIL halts (0); BRK 7; JSR,
/// RTI and RTS 6; JMP 3, or 5 through a pointer; pushes 3 and pulls 4; branches and
/// operations on registers or an immediate 2; memory operations by whether they read, store,
/// or read, modify and write.
pub open spec fn encoded_cycles(i: Instruction, mode: AddressingMode) -> u8 {
    if i == Instruction::KIL {
        0
    } else if i == Instruction::BRK {
        7
    } else if i == Instruction::JSR || i == Instruction::RTI || i == Instruction::RTS {
        6
    } else if i == Instruction::JMP {
        if mode == AddressingMode::Absolute {
            3
        } else {
            5
        }
    } else if i == Instruction::PHP || i == Instruction::PHA {
        3
    } else if i == Instruction::PLP || i == Instruction::PLA {
        4
    } else if mode == AddressingMode::Relative || mode == AddressingMode::Implicit || mode
        == AddressingMode::Accumulator || mode == AddressingMode::Immediate {
        2
    } else if is_store(i) {
        store_cycles(mode)
    } else if is_read_modify_write(i) {
        read_modify_write_cycles(mode)
    } else {
        read_cycles(mode)
    }
}

/// Every opcode's cycle count is the one its operation and addressing mode take.
pub proof fn lemma_cycles(byte: u8)
    ensures
        opcode_table(byte).cycles == encoded_cycles(opcode_table(byte).instruction, opcode_table(byte).mode),
{
}

} // verus!
