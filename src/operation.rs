use vstd::prelude::*;

verus! {

/// Instruction mnemonics of the processor.
#[derive(Debug, Clone, Copy, PartialEq, Eq, Structural)]
pub enum OpName {
    ADC, AND, ASL,
    BCC, BCS, BEQ, BIT, BMI, BNE, BPL, BRK, BVC, BVS,
    CLC, CLD, CLI, CLV, CMP, CPX, CPY,
    DEC, DEX, DEY,
    EOR,
    INC, INX, INY,
    JMP, JSR,
    LDA, LDX, LDY, LSR,
    NOP,
    ORA,
    PHA, PHP, PLA, PLP,
    ROL, ROR, RTI, RTS,
    SBC, SEC, SED, SEI, STA, STX, STY,
    TAX, TAY, TSX, TXA, TXS, TYA,
}

impl OpName {
    /// Whether the engine has semantics for this mnemonic.
    pub open spec fn spec_is_implemented(self) -> bool {
        !(self is RTS || self is SBC || self is SEC || self is SED || self is SEI || self is STA
            || self is STX || self is STY || self is TSX || self is TXA || self is TXS
            || self is TYA)
    }

    #[verifier::when_used_as_spec(spec_is_implemented)]
    pub fn is_implemented(self) -> (r: bool)
        ensures
            r == self.spec_is_implemented(),
    {
        match self {
            OpName::RTS | OpName::SBC | OpName::SEC | OpName::SED | OpName::SEI | OpName::STA
            | OpName::STX | OpName::STY | OpName::TSX | OpName::TXA | OpName::TXS
            | OpName::TYA => false,
            _ => true,
        }
    }

    /// Whether the mnemonic always reads or writes at an effective address.
    pub open spec fn needs_address(self) -> bool {
        self is ADC || self is AND || self is BIT || self is CMP || self is CPX || self is CPY
            || self is DEC || self is EOR || self is INC || self is JMP || self is LDA
            || self is LDX || self is LDY || self is ORA
    }
}

/// Rules by which an instruction finds its operand.
#[derive(Debug, Clone, Copy, PartialEq, Eq, Structural)]
pub enum AddressingMode {
    Immediate,
    Relative,
    ZeroPage,
    ZeroPageX,
    ZeroPageY,
    Absolute,
    AbsoluteX,
    AbsoluteY,
    Indirect,
    IndirectX,
    IndirectY,
    Implied,
}

/// A decoded instruction: mnemonic, addressing mode and length in bytes.
#[derive(Debug, Clone, Copy, PartialEq, Eq, Structural)]
pub struct Operation {
    pub mnemonic_name: OpName,
    pub addressing_mode: AddressingMode,
    pub bytes: u8,
}

pub open spec fn entry(mnemonic_name: OpName, addressing_mode: AddressingMode, bytes: u8) -> Operation {
    Operation { mnemonic_name, addressing_mode, bytes }
}

impl Operation {
    /// A descriptor the engine can execute: one to three bytes long, and with
    /// an addressing mode wherever the mnemonic needs an effective address.
    pub open spec fn wf(self) -> bool {
        &&& 1 <= self.bytes <= 3
        &&& self.mnemonic_name.needs_address() ==> !(self.addressing_mode is Implied)
    }

    pub fn new(mnemonic_name: OpName, addressing_mode: AddressingMode, bytes: u8) -> (r: Self)
        ensures
            r == entry(mnemonic_name, addressing_mode, bytes),
    {
        Operation { mnemonic_name, addressing_mode, bytes }
    }
}

/// The opcode table: the descriptor of each opcode, or `None` for an opcode
/// that the processor does not define.
pub open spec fn operation_for(opcode: u8) -> Option<Operation> {
    match opcode {
        0x00 => Some(entry(OpName::BRK, AddressingMode::Implied, 1)),
        0x01 => Some(entry(OpName::ORA, AddressingMode::IndirectX, 2)),
        0x05 => Some(entry(OpName::ORA, AddressingMode::ZeroPage, 2)),
        0x06 => Some(entry(OpName::ASL, AddressingMode::ZeroPage, 2)),
        0x08 => Some(entry(OpName::PHP, AddressingMode::Implied, 1)),
        0x09 => Some(entry(OpName::ORA, AddressingMode::Immediate, 2)),
        0x0A => Some(entry(OpName::ASL, AddressingMode::Implied, 1)),
        0x0D => Some(entry(OpName::ORA, AddressingMode::Absolute, 3)),
        0x0E => Some(entry(OpName::ASL, AddressingMode::Absolute, 3)),
        0x10 => Some(entry(OpName::BPL, AddressingMode::Relative, 2)),
        0x11 => Some(entry(OpName::ORA, AddressingMode::IndirectY, 2)),
        0x15 => Some(entry(OpName::ORA, AddressingMode::ZeroPageX, 2)),
        0x16 => Some(entry(OpName::ASL, AddressingMode::ZeroPageX, 2)),
        0x18 => Some(entry(OpName::CLC, AddressingMode::Implied, 1)),
        0x19 => Some(entry(OpName::ORA, AddressingMode::AbsoluteY, 3)),
        0x1D => Some(entry(OpName::ORA, AddressingMode::AbsoluteX, 3)),
        0x1E => Some(entry(OpName::ASL, AddressingMode::AbsoluteX, 3)),
        0x20 => Some(entry(OpName::JSR, AddressingMode::Absolute, 3)),
        0x21 => Some(entry(OpName::AND, AddressingMode::IndirectX, 2)),
        0x24 => Some(entry(OpName::BIT, AddressingMode::ZeroPage, 2)),
        0x25 => Some(entry(OpName::AND, AddressingMode::ZeroPage, 2)),
        0x26 => Some(entry(OpName::ROL, AddressingMode::ZeroPage, 2)),
        0x28 => Some(entry(OpName::PLP, AddressingMode::Implied, 1)),
        0x29 => Some(entry(OpName::AND, AddressingMode::Immediate, 2)),
        0x2A => Some(entry(OpName::ROL, AddressingMode::Implied, 1)),
        0x2C => Some(entry(OpName::BIT, AddressingMode::Absolute, 3)),
        0x2D => Some(entry(OpName::AND, AddressingMode::Absolute, 3)),
        0x2E => Some(entry(OpName::ROL, AddressingMode::Absolute, 3)),
        0x30 => Some(entry(OpName::BMI, AddressingMode::Relative, 2)),
        0x31 => Some(entry(OpName::AND, AddressingMode::IndirectY, 2)),
        0x35 => Some(entry(OpName::AND, AddressingMode::ZeroPageX, 2)),
        0x36 => Some(entry(OpName::ROL, AddressingMode::ZeroPageX, 2)),
        0x38 => Some(entry(OpName::SEC, AddressingMode::Implied, 1)),
        0x39 => Some(entry(OpName::AND, AddressingMode::AbsoluteY, 3)),
        0x3D => Some(entry(OpName::AND, AddressingMode::AbsoluteX, 3)),
        0x3E => Some(entry(OpName::ROL, AddressingMode::AbsoluteX, 3)),
        0x40 => Some(entry(OpName::RTI, AddressingMode::Implied, 1)),
        0x41 => Some(entry(OpName::EOR, AddressingMode::IndirectX, 2)),
        0x45 => Some(entry(OpName::EOR, AddressingMode::ZeroPage, 2)),
        0x46 => Some(entry(OpName::LSR, AddressingMode::ZeroPage, 2)),
        0x48 => Some(entry(OpName::PHA, AddressingMode::Implied, 1)),
        0x49 => Some(entry(OpName::EOR, AddressingMode::Immediate, 2)),
        0x4A => Some(entry(OpName::LSR, AddressingMode::Implied, 1)),
        0x4C => Some(entry(OpName::JMP, AddressingMode::Absolute, 3)),
        0x4D => Some(entry(OpName::EOR, AddressingMode::Absolute, 3)),
        0x4E => Some(entry(OpName::LSR, AddressingMode::Absolute, 3)),
        0x50 => Some(entry(OpName::BVC, AddressingMode::Relative, 2)),
        0x51 => Some(entry(OpName::EOR, AddressingMode::IndirectY, 2)),
        0x55 => Some(entry(OpName::EOR, AddressingMode::ZeroPageX, 2)),
        0x56 => Some(entry(OpName::LSR, AddressingMode::ZeroPageX, 2)),
        0x58 => Some(entry(OpName::CLI, AddressingMode::Implied, 1)),
        0x59 => Some(entry(OpName::EOR, AddressingMode::AbsoluteY, 3)),
        0x5D => Some(entry(OpName::EOR, AddressingMode::AbsoluteX, 3)),
        0x5E => Some(entry(OpName::LSR, AddressingMode::AbsoluteX, 3)),
        0x60 => Some(entry(OpName::RTI, AddressingMode::Implied, 1)),
        0x61 => Some(entry(OpName::ADC, AddressingMode::IndirectX, 2)),
        0x65 => Some(entry(OpName::ADC, AddressingMode::ZeroPage, 2)),
        0x66 => Some(entry(OpName::ROR, AddressingMode::ZeroPage, 2)),
        0x68 => Some(entry(OpName::PLA, AddressingMode::Implied, 1)),
        0x69 => Some(entry(OpName::ADC, AddressingMode::Immediate, 2)),
        0x6A => Some(entry(OpName::ROR, AddressingMode::Implied, 1)),
        0x6C => Some(entry(OpName::JMP, AddressingMode::Indirect, 3)),
        0x6D => Some(entry(OpName::ADC, AddressingMode::Absolute, 3)),
        0x6E => Some(entry(OpName::ROR, AddressingMode::Absolute, 3)),
        0x70 => Some(entry(OpName::BVS, AddressingMode::Relative, 2)),
        0x71 => Some(entry(OpName::ADC, AddressingMode::IndirectY, 2)),
        0x75 => Some(entry(OpName::ADC, AddressingMode::ZeroPageX, 2)),
        0x76 => Some(entry(OpName::ROR, AddressingMode::ZeroPageX, 2)),
        0x78 => Some(entry(OpName::SEI, AddressingMode::Implied, 1)),
        0x79 => Some(entry(OpName::ADC, AddressingMode::AbsoluteY, 3)),
        0x7D => Some(entry(OpName::ADC, AddressingMode::AbsoluteX, 3)),
        0x7E => Some(entry(OpName::ROR, AddressingMode::AbsoluteX, 3)),
        0x81 => Some(entry(OpName::STA, AddressingMode::IndirectX, 2)),
        0x84 => Some(entry(OpName::STY, AddressingMode::ZeroPage, 2)),
        0x85 => Some(entry(OpName::STA, AddressingMode::ZeroPage, 2)),
        0x86 => Some(entry(OpName::STX, AddressingMode::ZeroPage, 2)),
        0x88 => Some(entry(OpName::DEY, AddressingMode::Implied, 1)),
        0x8A => Some(entry(OpName::TXA, AddressingMode::Implied, 1)),
        0x8C => Some(entry(OpName::STY, AddressingMode::Absolute, 3)),
        0x8D => Some(entry(OpName::STA, AddressingMode::Absolute, 3)),
        0x8E => Some(entry(OpName::STX, AddressingMode::Absolute, 3)),
        0x90 => Some(entry(OpName::BCC, AddressingMode::Relative, 2)),
        0x91 => Some(entry(OpName::STA, AddressingMode::IndirectY, 2)),
        0x94 => Some(entry(OpName::STY, AddressingMode::ZeroPageX, 2)),
        0x95 => Some(entry(OpName::STA, AddressingMode::ZeroPageX, 2)),
        0x96 => Some(entry(OpName::STX, AddressingMode::ZeroPageY, 2)),
        0x98 => Some(entry(OpName::TYA, AddressingMode::Implied, 1)),
        0x99 => Some(entry(OpName::STA, AddressingMode::AbsoluteY, 3)),
        0x9A => Some(entry(OpName::TXS, AddressingMode::Implied, 1)),
        0x9D => Some(entry(OpName::STA, AddressingMode::AbsoluteX, 3)),
        0xA0 => Some(entry(OpName::LDY, AddressingMode::Immediate, 2)),
        0xA1 => Some(entry(OpName::LDA, AddressingMode::IndirectX, 2)),
        0xA2 => Some(entry(OpName::LDX, AddressingMode::Immediate, 2)),
        0xA4 => Some(entry(OpName::LDY, AddressingMode::ZeroPage, 2)),
        0xA5 => Some(entry(OpName::LDA, AddressingMode::ZeroPage, 2)),
        0xA6 => Some(entry(OpName::LDX, AddressingMode::ZeroPage, 2)),
        0xA8 => Some(entry(OpName::TAY, AddressingMode::Implied, 1)),
        0xA9 => Some(entry(OpName::LDA, AddressingMode::Immediate, 2)),
        0xAA => Some(entry(OpName::TAX, AddressingMode::Implied, 1)),
        0xAC => Some(entry(OpName::LDY, AddressingMode::Absolute, 3)),
        0xAD => Some(entry(OpName::LDA, AddressingMode::Absolute, 3)),
        0xAE => Some(entry(OpName::LDX, AddressingMode::Absolute, 3)),
        0xB0 => Some(entry(OpName::BCS, AddressingMode::Relative, 2)),
        0xB1 => Some(entry(OpName::LDA, AddressingMode::IndirectY, 2)),
        0xB4 => Some(entry(OpName::LDY, AddressingMode::ZeroPageX, 2)),
        0xB5 => Some(entry(OpName::LDA, AddressingMode::ZeroPageX, 2)),
        0xB6 => Some(entry(OpName::LDX, AddressingMode::ZeroPageY, 2)),
        0xB8 => Some(entry(OpName::CLV, AddressingMode::Implied, 1)),
        0xB9 => Some(entry(OpName::LDA, AddressingMode::AbsoluteY, 3)),
        0xBA => Some(entry(OpName::TSX, AddressingMode::Implied, 1)),
        0xBC => Some(entry(OpName::LDY, AddressingMode::AbsoluteX, 3)),
        0xBD => Some(entry(OpName::LDA, AddressingMode::AbsoluteX, 3)),
        0xBE => Some(entry(OpName::LDX, AddressingMode::AbsoluteY, 3)),
        0xC0 => Some(entry(OpName::CPY, AddressingMode::Immediate, 2)),
        0xC1 => Some(entry(OpName::CMP, AddressingMode::IndirectX, 2)),
        0xC4 => Some(entry(OpName::CPY, AddressingMode::ZeroPage, 2)),
        0xC5 => Some(entry(OpName::CMP, AddressingMode::ZeroPage, 2)),
        0xC6 => Some(entry(OpName::DEC, AddressingMode::ZeroPage, 2)),
        0xC8 => Some(entry(OpName::INY, AddressingMode::Implied, 1)),
        0xC9 => Some(entry(OpName::CMP, AddressingMode::Immediate, 2)),
        0xCA => Some(entry(OpName::DEX, AddressingMode::Implied, 1)),
        0xCC => Some(entry(OpName::CPY, AddressingMode::Absolute, 3)),
        0xCD => Some(entry(OpName::CMP, AddressingMode::Absolute, 3)),
        0xCE => Some(entry(OpName::DEC, AddressingMode::Absolute, 3)),
        0xD0 => Some(entry(OpName::BNE, AddressingMode::Relative, 2)),
        0xD1 => Some(entry(OpName::CMP, AddressingMode::IndirectY, 2)),
        0xD5 => Some(entry(OpName::CMP, AddressingMode::ZeroPageX, 2)),
        0xD6 => Some(entry(OpName::DEC, AddressingMode::ZeroPageX, 2)),
        0xD8 => Some(entry(OpName::CLD, AddressingMode::Implied, 1)),
        0xD9 => Some(entry(OpName::CMP, AddressingMode::AbsoluteY, 3)),
        0xDD => Some(entry(OpName::CMP, AddressingMode::AbsoluteX, 3)),
        0xDE => Some(entry(OpName::DEC, AddressingMode::AbsoluteX, 3)),
        0xE0 => Some(entry(OpName::CPX, AddressingMode::Immediate, 2)),
        0xE1 => Some(entry(OpName::SBC, AddressingMode::IndirectX, 2)),
        0xE4 => Some(entry(OpName::CPX, AddressingMode::ZeroPage, 2)),
        0xE5 => Some(entry(OpName::SBC, AddressingMode::ZeroPage, 2)),
        0xE6 => Some(entry(OpName::INC, AddressingMode::ZeroPage, 2)),
        0xE8 => Some(entry(OpName::INX, AddressingMode::Implied, 1)),
        0xE9 => Some(entry(OpName::SBC, AddressingMode::Immediate, 2)),
        0xEA => Some(entry(OpName::NOP, AddressingMode::Implied, 1)),
        0xEC => Some(entry(OpName::CPX, AddressingMode::Absolute, 3)),
        0xED => Some(entry(OpName::SBC, AddressingMode::Absolute, 3)),
        0xEE => Some(entry(OpName::INC, AddressingMode::Absolute, 3)),
        0xF0 => Some(entry(OpName::BEQ, AddressingMode::Relative, 2)),
        0xF1 => Some(entry(OpName::SBC, AddressingMode::IndirectY, 2)),
        0xF5 => Some(entry(OpName::SBC, AddressingMode::ZeroPageX, 2)),
        0xF6 => Some(entry(OpName::INC, AddressingMode::ZeroPageX, 2)),
        0xF8 => Some(entry(OpName::SED, AddressingMode::Implied, 1)),
        0xF9 => Some(entry(OpName::SBC, AddressingMode::AbsoluteY, 3)),
        0xFD => Some(entry(OpName::SBC, AddressingMode::AbsoluteX, 3)),
        0xFE => Some(entry(OpName::INC, AddressingMode::AbsoluteX, 3)),
        _ => None,
    }
}

/// Looks `opcode` up in the opcode table.
pub fn decode(opcode: u8) -> (r: Option<Operation>)
    ensures
        r == operation_for(opcode),
        r is Some ==> r->0.wf(),
{
    match opcode {
        0x00 => Some(Operation::new(OpName::BRK, AddressingMode::Implied, 1)),
        0x01 => Some(Operation::new(OpName::ORA, AddressingMode::IndirectX, 2)),
        0x05 => Some(Operation::new(OpName::ORA, AddressingMode::ZeroPage, 2)),
        0x06 => Some(Operation::new(OpName::ASL, AddressingMode::ZeroPage, 2)),
        0x08 => Some(Operation::new(OpName::PHP, AddressingMode::Implied, 1)),
        0x09 => Some(Operation::new(OpName::ORA, AddressingMode::Immediate, 2)),
        0x0A => Some(Operation::new(OpName::ASL, AddressingMode::Implied, 1)),
        0x0D => Some(Operation::new(OpName::ORA, AddressingMode::Absolute, 3)),
        0x0E => Some(Operation::new(OpName::ASL, AddressingMode::Absolute, 3)),
        0x10 => Some(Operation::new(OpName::BPL, AddressingMode::Relative, 2)),
        0x11 => Some(Operation::new(OpName::ORA, AddressingMode::IndirectY, 2)),
        0x15 => Some(Operation::new(OpName::ORA, AddressingMode::ZeroPageX, 2)),
        0x16 => Some(Operation::new(OpName::ASL, AddressingMode::ZeroPageX, 2)),
        0x18 => Some(Operation::new(OpName::CLC, AddressingMode::Implied, 1)),
        0x19 => Some(Operation::new(OpName::ORA, AddressingMode::AbsoluteY, 3)),
        0x1D => Some(Operation::new(OpName::ORA, AddressingMode::AbsoluteX, 3)),
        0x1E => Some(Operation::new(OpName::ASL, AddressingMode::AbsoluteX, 3)),
        0x20 => Some(Operation::new(OpName::JSR, AddressingMode::Absolute, 3)),
        0x21 => Some(Operation::new(OpName::AND, AddressingMode::IndirectX, 2)),
        0x24 => Some(Operation::new(OpName::BIT, AddressingMode::ZeroPage, 2)),
        0x25 => Some(Operation::new(OpName::AND, AddressingMode::ZeroPage, 2)),
        0x26 => Some(Operation::new(OpName::ROL, AddressingMode::ZeroPage, 2)),
        0x28 => Some(Operation::new(OpName::PLP, AddressingMode::Implied, 1)),
        0x29 => Some(Operation::new(OpName::AND, AddressingMode::Immediate, 2)),
        0x2A => Some(Operation::new(OpName::ROL, AddressingMode::Implied, 1)),
        0x2C => Some(Operation::new(OpName::BIT, AddressingMode::Absolute, 3)),
        0x2D => Some(Operation::new(OpName::AND, AddressingMode::Absolute, 3)),
        0x2E => Some(Operation::new(OpName::ROL, AddressingMode::Absolute, 3)),
        0x30 => Some(Operation::new(OpName::BMI, AddressingMode::Relative, 2)),
        0x31 => Some(Operation::new(OpName::AND, AddressingMode::IndirectY, 2)),
        0x35 => Some(Operation::new(OpName::AND, AddressingMode::ZeroPageX, 2)),
        0x36 => Some(Operation::new(OpName::ROL, AddressingMode::ZeroPageX, 2)),
        0x38 => Some(Operation::new(OpName::SEC, AddressingMode::Implied, 1)),
        0x39 => Some(Operation::new(OpName::AND, AddressingMode::AbsoluteY, 3)),
        0x3D => Some(Operation::new(OpName::AND, AddressingMode::AbsoluteX, 3)),
        0x3E => Some(Operation::new(OpName::ROL, AddressingMode::AbsoluteX, 3)),
        0x40 => Some(Operation::new(OpName::RTI, AddressingMode::Implied, 1)),
        0x41 => Some(Operation::new(OpName::EOR, AddressingMode::IndirectX, 2)),
        0x45 => Some(Operation::new(OpName::EOR, AddressingMode::ZeroPage, 2)),
        0x46 => Some(Operation::new(OpName::LSR, AddressingMode::ZeroPage, 2)),
        0x48 => Some(Operation::new(OpName::PHA, AddressingMode::Implied, 1)),
        0x49 => Some(Operation::new(OpName::EOR, AddressingMode::Immediate, 2)),
        0x4A => Some(Operation::new(OpName::LSR, AddressingMode::Implied, 1)),
        0x4C => Some(Operation::new(OpName::JMP, AddressingMode::Absolute, 3)),
        0x4D => Some(Operation::new(OpName::EOR, AddressingMode::Absolute, 3)),
        0x4E => Some(Operation::new(OpName::LSR, AddressingMode::Absolute, 3)),
        0x50 => Some(Operation::new(OpName::BVC, AddressingMode::Relative, 2)),
        0x51 => Some(Operation::new(OpName::EOR, AddressingMode::IndirectY, 2)),
        0x55 => Some(Operation::new(OpName::EOR, AddressingMode::ZeroPageX, 2)),
        0x56 => Some(Operation::new(OpName::LSR, AddressingMode::ZeroPageX, 2)),
        0x58 => Some(Operation::new(OpName::CLI, AddressingMode::Implied, 1)),
        0x59 => Some(Operation::new(OpName::EOR, AddressingMode::AbsoluteY, 3)),
        0x5D => Some(Operation::new(OpName::EOR, AddressingMode::AbsoluteX, 3)),
        0x5E => Some(Operation::new(OpName::LSR, AddressingMode::AbsoluteX, 3)),
        0x60 => Some(Operation::new(OpName::RTI, AddressingMode::Implied, 1)),
        0x61 => Some(Operation::new(OpName::ADC, AddressingMode::IndirectX, 2)),
        0x65 => Some(Operation::new(OpName::ADC, AddressingMode::ZeroPage, 2)),
        0x66 => Some(Operation::new(OpName::ROR, AddressingMode::ZeroPage, 2)),
        0x68 => Some(Operation::new(OpName::PLA, AddressingMode::Implied, 1)),
        0x69 => Some(Operation::new(OpName::ADC, AddressingMode::Immediate, 2)),
        0x6A => Some(Operation::new(OpName::ROR, AddressingMode::Implied, 1)),
        0x6C => Some(Operation::new(OpName::JMP, AddressingMode::Indirect, 3)),
        0x6D => Some(Operation::new(OpName::ADC, AddressingMode::Absolute, 3)),
        0x6E => Some(Operation::new(OpName::ROR, AddressingMode::Absolute, 3)),
        0x70 => Some(Operation::new(OpName::BVS, AddressingMode::Relative, 2)),
        0x71 => Some(Operation::new(OpName::ADC, AddressingMode::IndirectY, 2)),
        0x75 => Some(Operation::new(OpName::ADC, AddressingMode::ZeroPageX, 2)),
        0x76 => Some(Operation::new(OpName::ROR, AddressingMode::ZeroPageX, 2)),
        0x78 => Some(Operation::new(OpName::SEI, AddressingMode::Implied, 1)),
        0x79 => Some(Operation::new(OpName::ADC, AddressingMode::AbsoluteY, 3)),
        0x7D => Some(Operation::new(OpName::ADC, AddressingMode::AbsoluteX, 3)),
        0x7E => Some(Operation::new(OpName::ROR, AddressingMode::AbsoluteX, 3)),
        0x81 => Some(Operation::new(OpName::STA, AddressingMode::IndirectX, 2)),
        0x84 => Some(Operation::new(OpName::STY, AddressingMode::ZeroPage, 2)),
        0x85 => Some(Operation::new(OpName::STA, AddressingMode::ZeroPage, 2)),
        0x86 => Some(Operation::new(OpName::STX, AddressingMode::ZeroPage, 2)),
        0x88 => Some(Operation::new(OpName::DEY, AddressingMode::Implied, 1)),
        0x8A => Some(Operation::new(OpName::TXA, AddressingMode::Implied, 1)),
        0x8C => Some(Operation::new(OpName::STY, AddressingMode::Absolute, 3)),
        0x8D => Some(Operation::new(OpName::STA, AddressingMode::Absolute, 3)),
        0x8E => Some(Operation::new(OpName::STX, AddressingMode::Absolute, 3)),
        0x90 => Some(Operation::new(OpName::BCC, AddressingMode::Relative, 2)),
        0x91 => Some(Operation::new(OpName::STA, AddressingMode::IndirectY, 2)),
        0x94 => Some(Operation::new(OpName::STY, AddressingMode::ZeroPageX, 2)),
        0x95 => Some(Operation::new(OpName::STA, AddressingMode::ZeroPageX, 2)),
        0x96 => Some(Operation::new(OpName::STX, AddressingMode::ZeroPageY, 2)),
        0x98 => Some(Operation::new(OpName::TYA, AddressingMode::Implied, 1)),
        0x99 => Some(Operation::new(OpName::STA, AddressingMode::AbsoluteY, 3)),
        0x9A => Some(Operation::new(OpName::TXS, AddressingMode::Implied, 1)),
        0x9D => Some(Operation::new(OpName::STA, AddressingMode::AbsoluteX, 3)),
        0xA0 => Some(Operation::new(OpName::LDY, AddressingMode::Immediate, 2)),
        0xA1 => Some(Operation::new(OpName::LDA, AddressingMode::IndirectX, 2)),
        0xA2 => Some(Operation::new(OpName::LDX, AddressingMode::Immediate, 2)),
        0xA4 => Some(Operation::new(OpName::LDY, AddressingMode::ZeroPage, 2)),
        0xA5 => Some(Operation::new(OpName::LDA, AddressingMode::ZeroPage, 2)),
        0xA6 => Some(Operation::new(OpName::LDX, AddressingMode::ZeroPage, 2)),
        0xA8 => Some(Operation::new(OpName::TAY, AddressingMode::Implied, 1)),
        0xA9 => Some(Operation::new(OpName::LDA, AddressingMode::Immediate, 2)),
        0xAA => Some(Operation::new(OpName::TAX, AddressingMode::Implied, 1)),
        0xAC => Some(Operation::new(OpName::LDY, AddressingMode::Absolute, 3)),
        0xAD => Some(Operation::new(OpName::LDA, AddressingMode::Absolute, 3)),
        0xAE => Some(Operation::new(OpName::LDX, AddressingMode::Absolute, 3)),
        0xB0 => Some(Operation::new(OpName::BCS, AddressingMode::Relative, 2)),
        0xB1 => Some(Operation::new(OpName::LDA, AddressingMode::IndirectY, 2)),
        0xB4 => Some(Operation::new(OpName::LDY, AddressingMode::ZeroPageX, 2)),
        0xB5 => Some(Operation::new(OpName::LDA, AddressingMode::ZeroPageX, 2)),
        0xB6 => Some(Operation::new(OpName::LDX, AddressingMode::ZeroPageY, 2)),
        0xB8 => Some(Operation::new(OpName::CLV, AddressingMode::Implied, 1)),
        0xB9 => Some(Operation::new(OpName::LDA, AddressingMode::AbsoluteY, 3)),
        0xBA => Some(Operation::new(OpName::TSX, AddressingMode::Implied, 1)),
        0xBC => Some(Operation::new(OpName::LDY, AddressingMode::AbsoluteX, 3)),
        0xBD => Some(Operation::new(OpName::LDA, AddressingMode::AbsoluteX, 3)),
        0xBE => Some(Operation::new(OpName::LDX, AddressingMode::AbsoluteY, 3)),
        0xC0 => Some(Operation::new(OpName::CPY, AddressingMode::Immediate, 2)),
        0xC1 => Some(Operation::new(OpName::CMP, AddressingMode::IndirectX, 2)),
        0xC4 => Some(Operation::new(OpName::CPY, AddressingMode::ZeroPage, 2)),
        0xC5 => Some(Operation::new(OpName::CMP, AddressingMode::ZeroPage, 2)),
        0xC6 => Some(Operation::new(OpName::DEC, AddressingMode::ZeroPage, 2)),
        0xC8 => Some(Operation::new(OpName::INY, AddressingMode::Implied, 1)),
        0xC9 => Some(Operation::new(OpName::CMP, AddressingMode::Immediate, 2)),
        0xCA => Some(Operation::new(OpName::DEX, AddressingMode::Implied, 1)),
        0xCC => Some(Operation::new(OpName::CPY, AddressingMode::Absolute, 3)),
        0xCD => Some(Operation::new(OpName::CMP, AddressingMode::Absolute, 3)),
        0xCE => Some(Operation::new(OpName::DEC, AddressingMode::Absolute, 3)),
        0xD0 => Some(Operation::new(OpName::BNE, AddressingMode::Relative, 2)),
        0xD1 => Some(Operation::new(OpName::CMP, AddressingMode::IndirectY, 2)),
        0xD5 => Some(Operation::new(OpName::CMP, AddressingMode::ZeroPageX, 2)),
        0xD6 => Some(Operation::new(OpName::DEC, AddressingMode::ZeroPageX, 2)),
        0xD8 => Some(Operation::new(OpName::CLD, AddressingMode::Implied, 1)),
        0xD9 => Some(Operation::new(OpName::CMP, AddressingMode::AbsoluteY, 3)),
        0xDD => Some(Operation::new(OpName::CMP, AddressingMode::AbsoluteX, 3)),
        0xDE => Some(Operation::new(OpName::DEC, AddressingMode::AbsoluteX, 3)),
        0xE0 => Some(Operation::new(OpName::CPX, AddressingMode::Immediate, 2)),
        0xE1 => Some(Operation::new(OpName::SBC, AddressingMode::IndirectX, 2)),
        0xE4 => Some(Operation::new(OpName::CPX, AddressingMode::ZeroPage, 2)),
        0xE5 => Some(Operation::new(OpName::SBC, AddressingMode::ZeroPage, 2)),
        0xE6 => Some(Operation::new(OpName::INC, AddressingMode::ZeroPage, 2)),
        0xE8 => Some(Operation::new(OpName::INX, AddressingMode::Implied, 1)),
        0xE9 => Some(Operation::new(OpName::SBC, AddressingMode::Immediate, 2)),
        0xEA => Some(Operation::new(OpName::NOP, AddressingMode::Implied, 1)),
        0xEC => Some(Operation::new(OpName::CPX, AddressingMode::Absolute, 3)),
        0xED => Some(Operation::new(OpName::SBC, AddressingMode::Absolute, 3)),
        0xEE => Some(Operation::new(OpName::INC, AddressingMode::Absolute, 3)),
        0xF0 => Some(Operation::new(OpName::BEQ, AddressingMode::Relative, 2)),
        0xF1 => Some(Operation::new(OpName::SBC, AddressingMode::IndirectY, 2)),
        0xF5 => Some(Operation::new(OpName::SBC, AddressingMode::ZeroPageX, 2)),
        0xF6 => Some(Operation::new(OpName::INC, AddressingMode::ZeroPageX, 2)),
        0xF8 => Some(Operation::new(OpName::SED, AddressingMode::Implied, 1)),
        0xF9 => Some(Operation::new(OpName::SBC, AddressingMode::AbsoluteY, 3)),
        0xFD => Some(Operation::new(OpName::SBC, AddressingMode::AbsoluteX, 3)),
        0xFE => Some(Operation::new(OpName::INC, AddressingMode::AbsoluteX, 3)),
        _ => None,
    }
}

} // verus!
