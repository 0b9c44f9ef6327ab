use vstd::prelude::*;

use crate::flags::{
    has_bits, with_bits, Flag, Flags, CARRY, DECIMAL, INTERRUPT_DISABLE, NEGATIVE, OVERFLOW,
    POWER_ON, ZERO,
};
use crate::memory::{
    high_byte, low_byte, word, Memory, MemoryState, MAX_PROGRAM_LEN, MEMORY_SIZE, PROGRAM_START,
};
use crate::operation::{decode, operation_for, AddressingMode, OpName, Operation};

verus! {

/// Address of the little-endian word from which a reset loads the program counter.
pub const RESET_VECTOR: u16 = 0xFFFC;

/// Whether the processor can go on after an instruction.
#[derive(Debug, Clone, Copy, PartialEq, Eq, Structural)]
pub enum ExecState {
    /// More instructions may follow.
    Running,
    /// A BRK opcode was fetched.
    Halted,
}

/// A fatal condition. The instruction that raised it has no effect beyond the
/// fetch of its opcode.
#[derive(Debug, Clone, Copy, PartialEq, Eq, Structural)]
pub enum CpuError {
    /// The opcode at `address` is not in the opcode table.
    UnknownOpcode { opcode: u8, address: u16 },
    /// The opcode at `address` names a mnemonic that has no semantics here.
    NotImplemented { opcode: u8, address: u16 },
    /// A program image of `length` bytes does not fit above the load address.
    OutOfRange { length: usize },
}

/// Abstract state of the processor and its memory.
pub struct CpuState {
    pub a: u8,
    pub x: u8,
    pub y: u8,
    pub status: u8,
    pub pc: u16,
    pub sp: u8,
    pub mem: MemoryState,
}

/// Address of stack slot `sp`, in page one.
pub open spec fn stack_addr(sp: u8) -> u16 {
    (0x100 + sp) as u16
}

/// Sum of an add-with-carry, modulo 256.
pub open spec fn adc_sum(a: u8, m: u8, carry: bool) -> u8 {
    a.wrapping_add(m).wrapping_add(if carry { 1u8 } else { 0u8 })
}

/// Carry out of an add-with-carry: the unsigned sum exceeds 255.
pub open spec fn adc_carry(a: u8, m: u8, carry: bool) -> bool {
    a + m + (if carry { 1int } else { 0int }) > 255
}

/// Overflow of an add-with-carry: both operands differ in sign from the sum.
pub open spec fn adc_overflow(a: u8, m: u8, carry: bool) -> bool {
    let sum = adc_sum(a, m, carry);
    (a ^ sum) & (m ^ sum) & 0x80 != 0
}

/// `v` shifted left by one, with `carry` entering bit 0.
pub open spec fn rotate_left(v: u8, carry: bool) -> u8 {
    if carry {
        (v << 1u8) | 1
    } else {
        v << 1u8
    }
}

/// `v` shifted right by one, with `carry` entering bit 7.
pub open spec fn rotate_right(v: u8, carry: bool) -> u8 {
    if carry {
        (v >> 1u8) | 0x80
    } else {
        v >> 1u8
    }
}

impl CpuState {
    pub open spec fn wf(self) -> bool {
        self.mem.wf()
    }

    pub open spec fn flag(self, mask: u8) -> bool {
        has_bits(self.status, mask)
    }

    pub open spec fn with_flag(self, mask: u8, on: bool) -> CpuState {
        CpuState { status: with_bits(self.status, mask, on), ..self }
    }

    /// Zero and Negative recomputed from `v`.
    pub open spec fn with_nz(self, v: u8) -> CpuState {
        self.with_flag(ZERO, v == 0).with_flag(NEGATIVE, v & 0x80 != 0)
    }

    pub open spec fn with_a(self, v: u8) -> CpuState {
        CpuState { a: v, ..self }.with_nz(v)
    }

    pub open spec fn with_x(self, v: u8) -> CpuState {
        CpuState { x: v, ..self }.with_nz(v)
    }

    pub open spec fn with_y(self, v: u8) -> CpuState {
        CpuState { y: v, ..self }.with_nz(v)
    }

    pub open spec fn with_pc(self, pc: u16) -> CpuState {
        CpuState { pc, ..self }
    }

    pub open spec fn with_status(self, status: u8) -> CpuState {
        CpuState { status, ..self }
    }

    pub open spec fn with_mem(self, mem: MemoryState) -> CpuState {
        CpuState { mem, ..self }
    }

    /// The byte at `addr` read, as a read shows in the log.
    pub open spec fn read_at(self, addr: u16) -> CpuState {
        self.with_mem(self.mem.after_read(addr))
    }

    /// `v` stored at `addr`, with Zero and Negative recomputed from it.
    pub open spec fn stored(self, addr: u16, v: u8) -> CpuState {
        self.with_mem(self.mem.store(addr, v)).with_nz(v)
    }

    /// Effective address of the operand, with the program counter on the
    /// byte after the opcode.
    pub open spec fn operand_addr(self, mode: AddressingMode) -> u16 {
        let pc = self.pc;
        match mode {
            AddressingMode::ZeroPage => self.mem.byte(pc) as u16,
            AddressingMode::ZeroPageX => self.mem.byte(pc).wrapping_add(self.x) as u16,
            AddressingMode::ZeroPageY => self.mem.byte(pc).wrapping_add(self.y) as u16,
            AddressingMode::Absolute => self.mem.word_at(pc),
            AddressingMode::AbsoluteX => self.mem.word_at(pc).wrapping_add(self.x as u16),
            AddressingMode::AbsoluteY => self.mem.word_at(pc).wrapping_add(self.y as u16),
            AddressingMode::Indirect => self.mem.word_at(pc),
            AddressingMode::IndirectX => self.mem.word_at(
                self.mem.byte(pc).wrapping_add(self.x) as u16,
            ),
            AddressingMode::IndirectY => self.mem.word_at(self.mem.byte(pc) as u16).wrapping_add(
                self.y as u16,
            ),
            _ => pc,
        }
    }

    /// The state once the effective address is found: only the log of
    /// reads changes.
    pub open spec fn resolved(self, mode: AddressingMode) -> CpuState {
        let pc = self.pc;
        match mode {
            AddressingMode::ZeroPage | AddressingMode::ZeroPageX | AddressingMode::ZeroPageY => {
                self.read_at(pc)
            },
            AddressingMode::Absolute
            | AddressingMode::AbsoluteX
            | AddressingMode::AbsoluteY
            | AddressingMode::Indirect => self.with_mem(self.mem.after_read_word(pc)),
            AddressingMode::IndirectX => self.with_mem(
                self.mem.after_read(pc).after_read_word(
                    self.mem.byte(pc).wrapping_add(self.x) as u16,
                ),
            ),
            AddressingMode::IndirectY => self.with_mem(
                self.mem.after_read(pc).after_read_word(self.mem.byte(pc) as u16),
            ),
            _ => self,
        }
    }

    /// The operand byte.
    pub open spec fn operand(self, mode: AddressingMode) -> u8 {
        self.mem.byte(self.operand_addr(mode))
    }

    /// The state once the operand byte is read.
    pub open spec fn fetched(self, mode: AddressingMode) -> CpuState {
        self.resolved(mode).read_at(self.operand_addr(mode))
    }

    pub open spec fn pushed(self, v: u8) -> CpuState {
        CpuState {
            mem: self.mem.store(stack_addr(self.sp), v),
            sp: self.sp.wrapping_sub(1),
            ..self
        }
    }

    /// High byte pushed first, then low byte.
    pub open spec fn pushed_word(self, v: u16) -> CpuState {
        self.pushed(high_byte(v)).pushed(low_byte(v))
    }

    /// The byte a pop returns.
    pub open spec fn top(self) -> u8 {
        self.mem.byte(stack_addr(self.sp.wrapping_add(1)))
    }

    /// The state after a pop: the slot is read, then cleared.
    pub open spec fn popped(self) -> CpuState {
        let sp = self.sp.wrapping_add(1);
        let addr = stack_addr(sp);
        CpuState { mem: self.mem.after_read(addr).store(addr, 0), sp, ..self }
    }

    /// The word two pops return, low byte first.
    pub open spec fn top_word(self) -> u16 {
        word(self.top(), self.popped().top())
    }

    pub open spec fn popped_word(self) -> CpuState {
        self.popped().popped()
    }

    pub open spec fn adc(self, mode: AddressingMode) -> CpuState {
        let m = self.operand(mode);
        let c = self.flag(CARRY);
        self.fetched(mode).with_flag(CARRY, adc_carry(self.a, m, c)).with_flag(
            OVERFLOW,
            adc_overflow(self.a, m, c),
        ).with_a(adc_sum(self.a, m, c))
    }

    /// Shift left of the accumulator (implied mode) or of memory.
    pub open spec fn asl(self, mode: AddressingMode) -> CpuState {
        if mode is Implied {
            self.with_flag(CARRY, self.a & 0x80 != 0).with_a(self.a << 1u8)
        } else {
            let m = self.operand(mode);
            self.fetched(mode).with_flag(CARRY, m & 0x80 != 0).stored(
                self.operand_addr(mode),
                m << 1u8,
            )
        }
    }

    pub open spec fn lsr(self, mode: AddressingMode) -> CpuState {
        if mode is Implied {
            self.with_flag(CARRY, self.a & 1 != 0).with_a(self.a >> 1u8)
        } else {
            let m = self.operand(mode);
            self.fetched(mode).with_flag(CARRY, m & 1 != 0).stored(
                self.operand_addr(mode),
                m >> 1u8,
            )
        }
    }

    pub open spec fn rol(self, mode: AddressingMode) -> CpuState {
        let c = self.flag(CARRY);
        if mode is Implied {
            self.with_a(rotate_left(self.a, c)).with_flag(CARRY, self.a & 0x80 != 0)
        } else {
            let m = self.operand(mode);
            self.fetched(mode).stored(self.operand_addr(mode), rotate_left(m, c)).with_flag(
                CARRY,
                m & 0x80 != 0,
            )
        }
    }

    pub open spec fn ror(self, mode: AddressingMode) -> CpuState {
        let c = self.flag(CARRY);
        if mode is Implied {
            self.with_a(rotate_right(self.a, c)).with_flag(CARRY, self.a & 1 != 0)
        } else {
            let m = self.operand(mode);
            self.fetched(mode).stored(self.operand_addr(mode), rotate_right(m, c)).with_flag(
                CARRY,
                m & 1 != 0,
            )
        }
    }

    /// A relative branch taken when `cond` holds. Bit 7 of the displacement
    /// gives the direction and the low seven bits the distance; a zero
    /// displacement does not branch.
    pub open spec fn branch(self, cond: bool) -> CpuState {
        if !cond {
            self
        } else {
            let offset = self.mem.byte(self.pc);
            let s = self.read_at(self.pc);
            let distance = (offset & 0x7F) as u16;
            if offset == 0 {
                s
            } else if offset & 0x80 != 0 {
                s.with_pc(self.pc.wrapping_sub(distance))
            } else {
                s.with_pc(self.pc.wrapping_add(distance))
            }
        }
    }

    pub open spec fn bit(self, mode: AddressingMode) -> CpuState {
        let m = self.operand(mode);
        self.fetched(mode).with_flag(ZERO, self.a & m == 0).with_flag(
            NEGATIVE,
            m & 0x80 != 0,
        ).with_flag(OVERFLOW, m & 0x40 != 0)
    }

    /// `register` compared with the operand.
    pub open spec fn compare(self, mode: AddressingMode, register: u8) -> CpuState {
        let m = self.operand(mode);
        self.fetched(mode).with_flag(CARRY, register >= m).with_nz(register.wrapping_sub(m))
    }

    pub open spec fn jmp(self, mode: AddressingMode) -> CpuState {
        let addr = self.operand_addr(mode);
        if mode is Indirect {
            self.resolved(mode).with_mem(self.resolved(mode).mem.after_read_word(addr)).with_pc(
                self.mem.word_at(addr),
            )
        } else {
            self.resolved(mode).with_pc(addr)
        }
    }

    /// The return address minus one is pushed, then control moves to the target.
    pub open spec fn jsr(self) -> CpuState {
        let target = self.operand_addr(AddressingMode::Absolute);
        self.resolved(AddressingMode::Absolute).pushed_word(self.pc.wrapping_add(1)).with_pc(
            target,
        )
    }

    pub open spec fn rti(self) -> CpuState {
        let s = self.popped().with_status(self.top());
        s.popped_word().with_pc(s.top_word())
    }

    /// Semantics of `op`, with the program counter on the byte after the opcode.
    pub open spec fn execute(self, op: Operation) -> CpuState {
        let mode = op.addressing_mode;
        match op.mnemonic_name {
            OpName::ADC => self.adc(mode),
            OpName::AND => self.fetched(mode).with_a(self.a & self.operand(mode)),
            OpName::ASL => self.asl(mode),
            OpName::BCC => self.branch(!self.flag(CARRY)),
            OpName::BCS => self.branch(self.flag(CARRY)),
            OpName::BEQ => self.branch(self.flag(ZERO)),
            OpName::BMI => self.branch(self.flag(NEGATIVE)),
            OpName::BNE => self.branch(!self.flag(ZERO)),
            OpName::BPL => self.branch(!self.flag(NEGATIVE)),
            OpName::BVC => self.branch(!self.flag(OVERFLOW)),
            OpName::BVS => self.branch(self.flag(OVERFLOW)),
            OpName::BIT => self.bit(mode),
            OpName::CLC => self.with_flag(CARRY, false),
            OpName::CLD => self.with_flag(DECIMAL, false),
            OpName::CLI => self.with_flag(INTERRUPT_DISABLE, false),
            OpName::CLV => self.with_flag(OVERFLOW, false),
            OpName::CMP => self.compare(mode, self.a),
            OpName::CPX => self.compare(mode, self.x),
            OpName::CPY => self.compare(mode, self.y),
            OpName::DEC => self.fetched(mode).stored(
                self.operand_addr(mode),
                self.operand(mode).wrapping_sub(1),
            ),
            OpName::DEX => self.with_x(self.x.wrapping_sub(1)),
            OpName::DEY => self.with_y(self.y.wrapping_sub(1)),
            OpName::EOR => self.fetched(mode).with_a(self.a ^ self.operand(mode)),
            OpName::INC => self.fetched(mode).stored(
                self.operand_addr(mode),
                self.operand(mode).wrapping_add(1),
            ),
            OpName::INX => self.with_x(self.x.wrapping_add(1)),
            OpName::INY => self.with_y(self.y.wrapping_add(1)),
            OpName::JMP => self.jmp(mode),
            OpName::JSR => self.jsr(),
            OpName::LDA => self.fetched(mode).with_a(self.operand(mode)),
            OpName::LDX => self.fetched(mode).with_x(self.operand(mode)),
            OpName::LDY => self.fetched(mode).with_y(self.operand(mode)),
            OpName::LSR => self.lsr(mode),
            OpName::ORA => self.fetched(mode).with_a(self.a | self.operand(mode)),
            OpName::PHA => self.pushed(self.a),
            OpName::PHP => self.pushed(self.status),
            OpName::PLA => self.popped().with_a(self.top()),
            OpName::PLP => self.popped().with_status(self.top()),
            OpName::ROL => self.rol(mode),
            OpName::ROR => self.ror(mode),
            OpName::RTI => self.rti(),
            OpName::TAX => self.with_x(self.a),
            OpName::TAY => self.with_y(self.a),
            _ => self,
        }
    }

    /// The program counter moved past the operand bytes, except after a jump
    /// or a subroutine call, which set it themselves.
    pub open spec fn advance(self, op: Operation) -> CpuState {
        if op.mnemonic_name is JMP || op.mnemonic_name is JSR {
            self
        } else {
            self.with_pc(self.pc.wrapping_add((op.bytes - 1) as u16))
        }
    }

    /// One fetch-decode-execute cycle: the next state and how it ended.
    pub open spec fn step(self) -> (CpuState, Result<ExecState, CpuError>) {
        let opcode = self.mem.byte(self.pc);
        let fetched = self.read_at(self.pc);
        match operation_for(opcode) {
            None => (fetched, Err(CpuError::UnknownOpcode { opcode, address: self.pc })),
            Some(op) => if op.mnemonic_name is BRK {
                (fetched.with_pc(self.pc.wrapping_add(1)), Ok(ExecState::Halted))
            } else if !op.mnemonic_name.spec_is_implemented() {
                (fetched, Err(CpuError::NotImplemented { opcode, address: self.pc }))
            } else {
                (
                    fetched.with_pc(self.pc.wrapping_add(1)).execute(op).advance(op),
                    Ok(ExecState::Running),
                )
            },
        }
    }

    /// Up to `fuel` cycles, stopping at the first halt or fault.
    pub open spec fn run(self, fuel: nat) -> (CpuState, Result<ExecState, CpuError>)
        decreases fuel,
    {
        if fuel == 0 {
            (self, Ok(ExecState::Running))
        } else {
            let (next, outcome) = self.step();
            match outcome {
                Ok(ExecState::Running) => next.run((fuel - 1) as nat),
                _ => (next, outcome),
            }
        }
    }

    /// `program` copied to the load address, and the reset vector pointed at it.
    pub open spec fn loaded(self, program: Seq<u8>) -> CpuState {
        self.with_mem(self.mem.with_program(program).store_word(RESET_VECTOR, PROGRAM_START))
    }

    /// Registers and status cleared when asked, then the program counter
    /// loaded from the reset vector.
    pub open spec fn reset(self, clear: bool) -> CpuState {
        let s = if clear {
            CpuState { a: 0, x: 0, y: 0, status: POWER_ON, ..self }
        } else {
            self
        };
        s.with_mem(s.mem.after_read_word(RESET_VECTOR)).with_pc(s.mem.word_at(RESET_VECTOR))
    }

    pub open spec fn tracing_on(self) -> CpuState {
        self.with_mem(MemoryState { tracing: true, ..self.mem })
    }
}

/// The processor: registers, status, program counter, stack pointer and the
/// memory it owns.
pub struct CPU {
    pub register_a: u8,
    pub register_x: u8,
    pub register_y: u8,
    pub status: Flags,
    pub program_counter: u16,
    pub stack_pointer: u8,
    pub memory: Memory,
}

impl View for CPU {
    type V = CpuState;

    open spec fn view(&self) -> CpuState {
        CpuState {
            a: self.register_a,
            x: self.register_x,
            y: self.register_y,
            status: self.status@,
            pc: self.program_counter,
            sp: self.stack_pointer,
            mem: self.memory@,
        }
    }
}

impl CPU {
    /// Zeroed registers, power-on status, stack pointer 0xFF, program counter 0
    /// and zeroed memory with the read log off.
    pub fn new() -> (r: Self)
        ensures
            r@.wf(),
            r@.a == 0 && r@.x == 0 && r@.y == 0,
            r@.status == POWER_ON,
            r@.pc == 0,
            r@.sp == 0xFF,
            forall|i: int| 0 <= i < MEMORY_SIZE ==> r@.mem.bytes[i] == 0,
            !r@.mem.tracing,
            r@.mem.trace == Seq::<u8>::empty(),
    {
        CPU {
            register_a: 0,
            register_x: 0,
            register_y: 0,
            status: Flags::power_on(),
            program_counter: 0,
            stack_pointer: 0xFF,
            memory: Memory::new(),
        }
    }

    /// Loads `program`, resets registers and status, and runs until BRK or a fault.
    pub fn load_and_run(&mut self, program: Vec<u8>) -> (r: Result<ExecState, CpuError>)
        ensures
            program.len() > MAX_PROGRAM_LEN ==> r == Err::<ExecState, CpuError>(
                CpuError::OutOfRange { length: program.len() },
            ) && final(self)@ == old(self)@,
            program.len() <= MAX_PROGRAM_LEN ==> (final(self)@, r) == old(self)@.loaded(
                program@,
            ).reset(true).run(u64::MAX as nat),
    {
        match self.load(program) {
            Err(e) => return Err(e),
            Ok(()) => {},
        }
        self.reset(true);
        self.run()
    }

    /// Loads `program`, keeps registers and status, turns the read log on,
    /// and runs until BRK or a fault.
    pub fn load_and_run_without_reset(&mut self, program: Vec<u8>) -> (r: Result<
        ExecState,
        CpuError,
    >)
        ensures
            program.len() > MAX_PROGRAM_LEN ==> r == Err::<ExecState, CpuError>(
                CpuError::OutOfRange { length: program.len() },
            ) && final(self)@ == old(self)@,
            program.len() <= MAX_PROGRAM_LEN ==> (final(self)@, r) == old(self)@.loaded(
                program@,
            ).reset(false).tracing_on().run(u64::MAX as nat),
    {
        match self.load(program) {
            Err(e) => return Err(e),
            Ok(()) => {},
        }
        self.reset(false);
        self.memory.set_debug();
        self.run()
    }

    /// Copies `program` to the load address and points the reset vector at it.
    pub fn load(&mut self, program: Vec<u8>) -> (r: Result<(), CpuError>)
        ensures
            program.len() > MAX_PROGRAM_LEN ==> r == Err::<(), CpuError>(
                CpuError::OutOfRange { length: program.len() },
            ) && final(self)@ == old(self)@,
            program.len() <= MAX_PROGRAM_LEN ==> r is Ok && final(self)@ == old(self)@.loaded(
                program@,
            ),
    {
        let length = program.len();
        match self.memory.load_program(program) {
            Err(_) => return Err(CpuError::OutOfRange { length }),
            Ok(()) => {},
        }
        self.memory.write_u16(RESET_VECTOR, PROGRAM_START);
        Ok(())
    }

    /// Clears registers and status when asked, then loads the program counter
    /// from the reset vector.
    pub fn reset(&mut self, reset_registers_and_status: bool)
        ensures
            final(self)@ == old(self)@.reset(reset_registers_and_status),
    {
        if reset_registers_and_status {
            self.register_a = 0;
            self.register_x = 0;
            self.register_y = 0;
            self.status = Flags::power_on();
        }
        self.program_counter = self.memory.read_u16(RESET_VECTOR);
    }

    /// Runs until BRK or a fault, giving up only after `u64::MAX` instructions.
    pub fn run(&mut self) -> (r: Result<ExecState, CpuError>)
        ensures
            (final(self)@, r) == old(self)@.run(u64::MAX as nat),
    {
        self.run_for(u64::MAX)
    }

    /// Executes at most `max_steps` instructions, stopping at BRK or a fault.
    /// `Ok(Running)` means the budget ran out first.
    pub fn run_for(&mut self, max_steps: u64) -> (r: Result<ExecState, CpuError>)
        ensures
            (final(self)@, r) == old(self)@.run(max_steps as nat),
    {
        let ghost start = self@;
        let mut remaining = max_steps;
        while remaining > 0
            invariant
                start == old(self)@,
                start.run(max_steps as nat) == self@.run(remaining as nat),
            decreases remaining,
        {
            match self.step() {
                Err(e) => return Err(e),
                Ok(ExecState::Halted) => return Ok(ExecState::Halted),
                Ok(ExecState::Running) => {},
            }
            remaining = remaining - 1;
        }
        Ok(ExecState::Running)
    }

    /// One fetch-decode-execute cycle.
    pub fn step(&mut self) -> (r: Result<ExecState, CpuError>)
        ensures
            (final(self)@, r) == old(self)@.step(),
    {
        let address = self.program_counter;
        let opcode = self.memory.read(address);
        let op = match decode(opcode) {
            Some(op) => op,
            None => return Err(CpuError::UnknownOpcode { opcode, address }),
        };
        if let OpName::BRK = op.mnemonic_name {
            self.program_counter = address.wrapping_add(1);
            return Ok(ExecState::Halted);
        }
        if !op.mnemonic_name.is_implemented() {
            return Err(CpuError::NotImplemented { opcode, address });
        }
        self.program_counter = address.wrapping_add(1);
        self.execute(op);
        match op.mnemonic_name {
            OpName::JMP | OpName::JSR => {},
            _ => {
                self.program_counter = self.program_counter.wrapping_add((op.bytes - 1) as u16);
            },
        }
        Ok(ExecState::Running)
    }

    /// Dispatches a decoded instruction to its handler.
    #[verifier::rlimit(50)]
    #[verifier::spinoff_prover]
    fn execute(&mut self, op: Operation)
        requires
            op.wf(),
        ensures
            final(self)@ == old(self)@.execute(op),
    {
        let mode = op.addressing_mode;
        match op.mnemonic_name {
            OpName::ADC => self.adc(mode),
            OpName::AND => self.and(mode),
            OpName::ASL => self.asl(mode),
            OpName::BCC => self.bcc(),
            OpName::BCS => self.bcs(),
            OpName::BEQ => self.beq(),
            OpName::BMI => self.bmi(),
            OpName::BNE => self.bne(),
            OpName::BPL => self.bpl(),
            OpName::BVC => self.bvc(),
            OpName::BVS => self.bvs(),
            OpName::BIT => self.bit(mode),
            OpName::CLC => self.set_carry_flag(false),
            OpName::CLD => self.set_decimal_flag(false),
            OpName::CLI => self.set_interupt_flag(false),
            OpName::CLV => self.set_overflow_flag(false),
            OpName::CMP => self.cmp(mode),
            OpName::CPX => self.cpx(mode),
            OpName::CPY => self.cpy(mode),
            OpName::DEC => self.dec(mode),
            OpName::DEX => self.dex(),
            OpName::DEY => self.dey(),
            OpName::EOR => self.eor(mode),
            OpName::INC => self.inc(mode),
            OpName::INX => self.inx(),
            OpName::INY => self.iny(),
            OpName::JMP => self.jmp(mode),
            OpName::JSR => self.jsr(),
            OpName::LDA => self.lda(mode),
            OpName::LDX => self.ldx(mode),
            OpName::LDY => self.ldy(mode),
            OpName::LSR => self.lsr(mode),
            OpName::ORA => self.ora(mode),
            OpName::PHA => self.pha(),
            OpName::PHP => self.php(),
            OpName::PLA => self.pla(),
            OpName::PLP => self.plp(),
            OpName::ROL => self.rol(mode),
            OpName::ROR => self.ror(mode),
            OpName::RTI => self.rti(),
            OpName::TAX => self.tax(),
            OpName::TAY => self.tay(),
            _ => {},
        }
    }

    /// Finds the effective address of the operand; the program counter is on
    /// the byte after the opcode.
    fn get_op_target_addr(&mut self, mode: AddressingMode) -> (r: u16)
        requires
            !(mode is Implied),
        ensures
            r == old(self)@.operand_addr(mode),
            final(self)@ == old(self)@.resolved(mode),
    {
        match mode {
            AddressingMode::ZeroPage => self.memory.read(self.program_counter) as u16,
            AddressingMode::ZeroPageX => {
                let base = self.memory.read(self.program_counter);
                base.wrapping_add(self.register_x) as u16
            },
            AddressingMode::ZeroPageY => {
                let base = self.memory.read(self.program_counter);
                base.wrapping_add(self.register_y) as u16
            },
            AddressingMode::Absolute | AddressingMode::Indirect => self.memory.read_u16(
                self.program_counter,
            ),
            AddressingMode::AbsoluteX => {
                let base = self.memory.read_u16(self.program_counter);
                base.wrapping_add(self.register_x as u16)
            },
            AddressingMode::AbsoluteY => {
                let base = self.memory.read_u16(self.program_counter);
                base.wrapping_add(self.register_y as u16)
            },
            AddressingMode::IndirectX => {
                let base = self.memory.read(self.program_counter);
                let pointer = base.wrapping_add(self.register_x);
                self.memory.read_u16(pointer as u16)
            },
            AddressingMode::IndirectY => {
                let pointer = self.memory.read(self.program_counter);
                let base = self.memory.read_u16(pointer as u16);
                base.wrapping_add(self.register_y as u16)
            },
            _ => self.program_counter,
        }
    }

    /// Resolves the operand and reads it.
    fn read_operand(&mut self, mode: AddressingMode) -> (r: (u16, u8))
        requires
            !(mode is Implied),
        ensures
            r.0 == old(self)@.operand_addr(mode),
            r.1 == old(self)@.operand(mode),
            final(self)@ == old(self)@.fetched(mode),
    {
        let addr = self.get_op_target_addr(mode);
        let value = self.memory.read(addr);
        (addr, value)
    }

    fn adc(&mut self, mode: AddressingMode)
        requires
            !(mode is Implied),
        ensures
            final(self)@ == old(self)@.adc(mode),
    {
        let (_, mem_value) = self.read_operand(mode);
        let carry_in: u8 = if self.carry_flag() { 1 } else { 0 };
        let a = self.register_a;
        let sum = a.wrapping_add(mem_value).wrapping_add(carry_in);
        let carry_out = a as u16 + mem_value as u16 + carry_in as u16 > 0xFF;
        let overflow = (a ^ sum) & (mem_value ^ sum) & 0x80 != 0;
        self.set_carry_flag(carry_out);
        self.set_overflow_flag(overflow);
        self.set_register_a(sum);
    }

    fn and(&mut self, mode: AddressingMode)
        requires
            !(mode is Implied),
        ensures
            final(self)@ == old(self)@.fetched(mode).with_a(old(self)@.a & old(self)@.operand(mode)),
    {
        let (_, mem_value) = self.read_operand(mode);
        self.set_register_a(self.register_a & mem_value);
    }

    fn asl(&mut self, mode: AddressingMode)
        ensures
            final(self)@ == old(self)@.asl(mode),
    {
        if let AddressingMode::Implied = mode {
            let value = self.register_a;
            self.set_carry_flag(value & 0x80 != 0);
            self.set_register_a(value << 1u8);
        } else {
            let (addr, mem_value) = self.read_operand(mode);
            self.set_carry_flag(mem_value & 0x80 != 0);
            self.set_memory(addr, mem_value << 1u8);
        }
    }

    fn bcc(&mut self)
        ensures
            final(self)@ == old(self)@.branch(!old(self)@.flag(CARRY)),
    {
        let condition = !self.carry_flag();
        self.branch(condition);
    }

    fn bcs(&mut self)
        ensures
            final(self)@ == old(self)@.branch(old(self)@.flag(CARRY)),
    {
        let condition = self.carry_flag();
        self.branch(condition);
    }

    fn beq(&mut self)
        ensures
            final(self)@ == old(self)@.branch(old(self)@.flag(ZERO)),
    {
        let condition = self.zero_flag();
        self.branch(condition);
    }

    fn bmi(&mut self)
        ensures
            final(self)@ == old(self)@.branch(old(self)@.flag(NEGATIVE)),
    {
        let condition = self.negative_flag();
        self.branch(condition);
    }

    fn bne(&mut self)
        ensures
            final(self)@ == old(self)@.branch(!old(self)@.flag(ZERO)),
    {
        let condition = !self.zero_flag();
        self.branch(condition);
    }

    fn bpl(&mut self)
        ensures
            final(self)@ == old(self)@.branch(!old(self)@.flag(NEGATIVE)),
    {
        let condition = !self.negative_flag();
        self.branch(condition);
    }

    fn bvc(&mut self)
        ensures
            final(self)@ == old(self)@.branch(!old(self)@.flag(OVERFLOW)),
    {
        let condition = !self.overflow_flag();
        self.branch(condition);
    }

    fn bvs(&mut self)
        ensures
            final(self)@ == old(self)@.branch(old(self)@.flag(OVERFLOW)),
    {
        let condition = self.overflow_flag();
        self.branch(condition);
    }

    fn branch(&mut self, branching_condition: bool)
        ensures
            final(self)@ == old(self)@.branch(branching_condition),
    {
        if !branching_condition {
            return ;
        }
        let pc = self.program_counter;
        let offset = self.memory.read(pc);
        if offset == 0 {
            return ;
        }
        let distance = (offset & 0x7F) as u16;
        if offset & 0x80 != 0 {
            self.program_counter = pc.wrapping_sub(distance);
        } else {
            self.program_counter = pc.wrapping_add(distance);
        }
    }

    fn bit(&mut self, mode: AddressingMode)
        requires
            !(mode is Implied),
        ensures
            final(self)@ == old(self)@.bit(mode),
    {
        let (_, mem_value) = self.read_operand(mode);
        self.status.set(Flag::Zero, self.register_a & mem_value == 0);
        self.status.set(Flag::Negative, mem_value & 0x80 != 0);
        self.set_overflow_flag(mem_value & 0x40 != 0);
    }

    fn cmp(&mut self, mode: AddressingMode)
        requires
            !(mode is Implied),
        ensures
            final(self)@ == old(self)@.compare(mode, old(self)@.a),
    {
        self.compare(mode, self.register_a);
    }

    fn cpx(&mut self, mode: AddressingMode)
        requires
            !(mode is Implied),
        ensures
            final(self)@ == old(self)@.compare(mode, old(self)@.x),
    {
        self.compare(mode, self.register_x);
    }

    fn cpy(&mut self, mode: AddressingMode)
        requires
            !(mode is Implied),
        ensures
            final(self)@ == old(self)@.compare(mode, old(self)@.y),
    {
        self.compare(mode, self.register_y);
    }

    fn compare(&mut self, mode: AddressingMode, register_value: u8)
        requires
            !(mode is Implied),
        ensures
            final(self)@ == old(self)@.compare(mode, register_value),
    {
        let (_, mem_value) = self.read_operand(mode);
        let result = register_value.wrapping_sub(mem_value);
        self.set_carry_flag(register_value >= mem_value);
        self.set_zero_flag(result);
        self.set_negative_flag(result);
    }

    fn dec(&mut self, mode: AddressingMode)
        requires
            !(mode is Implied),
        ensures
            final(self)@ == old(self)@.fetched(mode).stored(
                old(self)@.operand_addr(mode),
                old(self)@.operand(mode).wrapping_sub(1),
            ),
    {
        let (addr, mem_value) = self.read_operand(mode);
        self.set_memory(addr, mem_value.wrapping_sub(1));
    }

    fn dex(&mut self)
        ensures
            final(self)@ == old(self)@.with_x(old(self)@.x.wrapping_sub(1)),
    {
        let result = self.register_x.wrapping_sub(1);
        self.set_register_x(result);
    }

    fn dey(&mut self)
        ensures
            final(self)@ == old(self)@.with_y(old(self)@.y.wrapping_sub(1)),
    {
        let result = self.register_y.wrapping_sub(1);
        self.set_register_y(result);
    }

    fn eor(&mut self, mode: AddressingMode)
        requires
            !(mode is Implied),
        ensures
            final(self)@ == old(self)@.fetched(mode).with_a(old(self)@.a ^ old(self)@.operand(mode)),
    {
        let (_, mem_value) = self.read_operand(mode);
        self.set_register_a(self.register_a ^ mem_value);
    }

    fn lda(&mut self, mode: AddressingMode)
        requires
            !(mode is Implied),
        ensures
            final(self)@ == old(self)@.fetched(mode).with_a(old(self)@.operand(mode)),
    {
        let (_, mem_value) = self.read_operand(mode);
        self.set_register_a(mem_value);
    }

    fn ldx(&mut self, mode: AddressingMode)
        requires
            !(mode is Implied),
        ensures
            final(self)@ == old(self)@.fetched(mode).with_x(old(self)@.operand(mode)),
    {
        let (_, mem_value) = self.read_operand(mode);
        self.set_register_x(mem_value);
    }

    fn ldy(&mut self, mode: AddressingMode)
        requires
            !(mode is Implied),
        ensures
            final(self)@ == old(self)@.fetched(mode).with_y(old(self)@.operand(mode)),
    {
        let (_, mem_value) = self.read_operand(mode);
        self.set_register_y(mem_value);
    }

    fn tax(&mut self)
        ensures
            final(self)@ == old(self)@.with_x(old(self)@.a),
    {
        self.set_register_x(self.register_a);
    }

    fn tay(&mut self)
        ensures
            final(self)@ == old(self)@.with_y(old(self)@.a),
    {
        self.set_register_y(self.register_a);
    }

    fn inc(&mut self, mode: AddressingMode)
        requires
            !(mode is Implied),
        ensures
            final(self)@ == old(self)@.fetched(mode).stored(
                old(self)@.operand_addr(mode),
                old(self)@.operand(mode).wrapping_add(1),
            ),
    {
        let (addr, mem_value) = self.read_operand(mode);
        self.set_memory(addr, mem_value.wrapping_add(1));
    }

    fn inx(&mut self)
        ensures
            final(self)@ == old(self)@.with_x(old(self)@.x.wrapping_add(1)),
    {
        let result = self.register_x.wrapping_add(1);
        self.set_register_x(result);
    }

    fn iny(&mut self)
        ensures
            final(self)@ == old(self)@.with_y(old(self)@.y.wrapping_add(1)),
    {
        let result = self.register_y.wrapping_add(1);
        self.set_register_y(result);
    }

    fn jmp(&mut self, mode: AddressingMode)
        requires
            !(mode is Implied),
        ensures
            final(self)@ == old(self)@.jmp(mode),
    {
        let addr = self.get_op_target_addr(mode);
        let mut target = addr;
        if let AddressingMode::Indirect = mode {
            target = self.memory.read_u16(addr);
        }
        self.program_counter = target;
    }

    fn jsr(&mut self)
        ensures
            final(self)@ == old(self)@.jsr(),
    {
        let subroutine_addr = self.get_op_target_addr(AddressingMode::Absolute);
        // The pushed address is that of the last byte of this instruction.
        self.push_u16_to_stack(self.program_counter.wrapping_add(1));
        self.program_counter = subroutine_addr;
    }

    fn lsr(&mut self, mode: AddressingMode)
        ensures
            final(self)@ == old(self)@.lsr(mode),
    {
        if let AddressingMode::Implied = mode {
            let value = self.register_a;
            self.set_carry_flag(value & 1 != 0);
            self.set_register_a(value >> 1u8);
        } else {
            let (addr, mem_value) = self.read_operand(mode);
            self.set_carry_flag(mem_value & 1 != 0);
            self.set_memory(addr, mem_value >> 1u8);
        }
    }

    fn ora(&mut self, mode: AddressingMode)
        requires
            !(mode is Implied),
        ensures
            final(self)@ == old(self)@.fetched(mode).with_a(old(self)@.a | old(self)@.operand(mode)),
    {
        let (_, mem_value) = self.read_operand(mode);
        self.set_register_a(self.register_a | mem_value);
    }

    fn pha(&mut self)
        ensures
            final(self)@ == old(self)@.pushed(old(self)@.a),
    {
        self.push_to_stack(self.register_a);
    }

    fn php(&mut self)
        ensures
            final(self)@ == old(self)@.pushed(old(self)@.status),
    {
        self.push_to_stack(self.status.bits());
    }

    fn pla(&mut self)
        ensures
            final(self)@ == old(self)@.popped().with_a(old(self)@.top()),
    {
        let value = self.pop_stack();
        self.set_register_a(value);
    }

    fn plp(&mut self)
        ensures
            final(self)@ == old(self)@.popped().with_status(old(self)@.top()),
    {
        let value = self.pop_stack();
        self.status = Flags::from_bits(value);
    }

    fn rol(&mut self, mode: AddressingMode)
        ensures
            final(self)@ == old(self)@.rol(mode),
    {
        if let AddressingMode::Implied = mode {
            self.rol_acc();
        } else {
            self.rol_mem(mode);
        }
    }

    fn rol_acc(&mut self)
        ensures
            final(self)@ == old(self)@.rol(AddressingMode::Implied),
    {
        let carry_in = self.carry_flag();
        let mut value = self.register_a;
        let carry_out = value & 0x80 != 0;
        value = value << 1u8;
        if carry_in {
            value = value | 1;
        }
        self.set_register_a(value);
        self.set_carry_flag(carry_out);
    }

    fn rol_mem(&mut self, mode: AddressingMode)
        requires
            !(mode is Implied),
        ensures
            final(self)@ == old(self)@.rol(mode),
    {
        let carry_in = self.carry_flag();
        let (addr, mut value) = self.read_operand(mode);
        let carry_out = value & 0x80 != 0;
        value = value << 1u8;
        if carry_in {
            value = value | 1;
        }
        self.set_memory(addr, value);
        self.set_carry_flag(carry_out);
    }

    fn ror(&mut self, mode: AddressingMode)
        ensures
            final(self)@ == old(self)@.ror(mode),
    {
        if let AddressingMode::Implied = mode {
            self.ror_acc();
        } else {
            self.ror_mem(mode);
        }
    }

    fn ror_acc(&mut self)
        ensures
            final(self)@ == old(self)@.ror(AddressingMode::Implied),
    {
        let carry_in = self.carry_flag();
        let mut value = self.register_a;
        let carry_out = value & 1 != 0;
        value = value >> 1u8;
        if carry_in {
            value = value | 0x80;
        }
        self.set_register_a(value);
        self.set_carry_flag(carry_out);
    }

    fn ror_mem(&mut self, mode: AddressingMode)
        requires
            !(mode is Implied),
        ensures
            final(self)@ == old(self)@.ror(mode),
    {
        let carry_in = self.carry_flag();
        let (addr, mut value) = self.read_operand(mode);
        let carry_out = value & 1 != 0;
        value = value >> 1u8;
        if carry_in {
            value = value | 0x80;
        }
        self.set_memory(addr, value);
        self.set_carry_flag(carry_out);
    }

    fn rti(&mut self)
        ensures
            final(self)@ == old(self)@.rti(),
    {
        let value = self.pop_stack();
        self.status = Flags::from_bits(value);
        self.program_counter = self.pop_u16_from_stack();
    }

    fn set_register_a(&mut self, value: u8)
        ensures
            final(self)@ == old(self)@.with_a(value),
    {
        self.register_a = value;
        self.set_zero_flag(value);
        self.set_negative_flag(value);
    }

    fn set_register_x(&mut self, value: u8)
        ensures
            final(self)@ == old(self)@.with_x(value),
    {
        self.register_x = value;
        self.set_zero_flag(value);
        self.set_negative_flag(value);
    }

    fn set_register_y(&mut self, value: u8)
        ensures
            final(self)@ == old(self)@.with_y(value),
    {
        self.register_y = value;
        self.set_zero_flag(value);
        self.set_negative_flag(value);
    }

    fn set_memory(&mut self, addr: u16, value: u8)
        ensures
            final(self)@ == old(self)@.stored(addr, value),
    {
        self.memory.write(addr, value);
        self.set_zero_flag(value);
        self.set_negative_flag(value);
    }

    fn zero_flag(&self) -> (r: bool)
        ensures
            r == self@.flag(ZERO),
    {
        self.status.contains(Flag::Zero)
    }

    fn set_zero_flag(&mut self, value: u8)
        ensures
            final(self)@ == old(self)@.with_flag(ZERO, value == 0),
    {
        self.status.set(Flag::Zero, value == 0);
    }

    fn negative_flag(&self) -> (r: bool)
        ensures
            r == self@.flag(NEGATIVE),
    {
        self.status.contains(Flag::Negative)
    }

    fn set_negative_flag(&mut self, value: u8)
        ensures
            final(self)@ == old(self)@.with_flag(NEGATIVE, value & 0x80 != 0),
    {
        self.status.set(Flag::Negative, value & 0x80 != 0);
    }

    fn carry_flag(&self) -> (r: bool)
        ensures
            r == self@.flag(CARRY),
    {
        self.status.contains(Flag::Carry)
    }

    fn set_carry_flag(&mut self, value: bool)
        ensures
            final(self)@ == old(self)@.with_flag(CARRY, value),
    {
        self.status.set(Flag::Carry, value);
    }

    fn overflow_flag(&self) -> (r: bool)
        ensures
            r == self@.flag(OVERFLOW),
    {
        self.status.contains(Flag::Overflow)
    }

    fn set_overflow_flag(&mut self, value: bool)
        ensures
            final(self)@ == old(self)@.with_flag(OVERFLOW, value),
    {
        self.status.set(Flag::Overflow, value);
    }

    fn set_interupt_flag(&mut self, value: bool)
        ensures
            final(self)@ == old(self)@.with_flag(INTERRUPT_DISABLE, value),
    {
        self.status.set(Flag::InterruptDisable, value);
    }

    fn set_decimal_flag(&mut self, value: bool)
        ensures
            final(self)@ == old(self)@.with_flag(DECIMAL, value),
    {
        self.status.set(Flag::Decimal, value);
    }

    /// Pushes the high byte of `value`, then the low byte.
    pub fn push_u16_to_stack(&mut self, value: u16)
        ensures
            final(self)@ == old(self)@.pushed_word(value),
    {
        let hi = (value / 256) as u8;
        let lo = (value % 256) as u8;
        self.push_to_stack(hi);
        self.push_to_stack(lo);
    }

    /// Stores `value` in the slot of the stack pointer, which then moves down,
    /// wrapping within page one.
    pub fn push_to_stack(&mut self, value: u8)
        ensures
            final(self)@ == old(self)@.pushed(value),
    {
        let addr = self.stack_pointer_u16();
        self.memory.write(addr, value);
        self.stack_pointer = self.stack_pointer.wrapping_sub(1);
    }

    /// Pops the low byte, then the high byte.
    pub fn pop_u16_from_stack(&mut self) -> (r: u16)
        ensures
            r == old(self)@.top_word(),
            final(self)@ == old(self)@.popped_word(),
    {
        let lo = self.pop_stack() as u16;
        let hi = self.pop_stack() as u16;
        hi * 256 + lo
    }

    /// Moves the stack pointer up, wrapping within page one, and returns the
    /// byte of that slot, which is then cleared.
    pub fn pop_stack(&mut self) -> (r: u8)
        ensures
            r == old(self)@.top(),
            final(self)@ == old(self)@.popped(),
    {
        self.stack_pointer = self.stack_pointer.wrapping_add(1);
        let addr = self.stack_pointer_u16();
        let value = self.memory.read(addr);
        self.memory.write(addr, 0x00);
        value
    }

    fn stack_pointer_u16(&self) -> (r: u16)
        ensures
            r == stack_addr(self.stack_pointer),
    {
        0x0100 + self.stack_pointer as u16
    }
}

} // verus!
