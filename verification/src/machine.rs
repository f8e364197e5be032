//! The mathematical model of the processor: its registers, its 64 KiB of memory,
//! the instruction table, and what one instruction does to the whole state.

use vstd::prelude::*;
use crate::bit::{is_bit_set, with_bit_written};

verus! {

/// Number of bytes in the address space.
pub const MEMORY_SIZE: usize = 0x10000;

/// Address at which a program is loaded.
pub const PROGRAM_START: u16 = 0x8000;

/// Largest program that fits between `PROGRAM_START` and the end of memory.
pub const MAX_PROGRAM_LEN: usize = 0x8000;

/// Address of the little-endian vector from which `reset` takes the program counter.
pub const RESET_VECTOR: u16 = 0xFFFC;

/// Status bit that records whether the last loaded value was zero.
pub const ZERO_FLAG_BIT: u8 = 1;

/// Status bit that records bit 7 (the sign) of the last loaded value.
pub const NEGATIVE_FLAG_BIT: u8 = 7;

/// Largest number of instructions that one `run` executes before it returns
/// without having met a `BRK`.
pub const RUN_BUDGET: u64 = 0xFFFF_FFFF_FFFF_FFFF;

/// How an instruction finds its operand.
#[derive(Clone, Copy, Debug, PartialEq, Eq, Structural)]
pub enum AddressingMode {
    Implied,
    Immediate,
    ZeroPage,
    ZeroPageX,
    ZeroPageY,
    Absolute,
    AbsoluteX,
    AbsoluteY,
    IndirectX,
    IndirectY,
}

/// The operations the processor implements.
#[derive(Clone, Copy, Debug, PartialEq, Eq, Structural)]
pub enum Instruction {
    Lda,
    Ldx,
    Ldy,
    Sta,
    Tax,
    Inx,
    Brk,
}

/// A decoded opcode byte.
#[derive(Clone, Copy, Debug, PartialEq, Eq, Structural)]
pub struct Opcode {
    pub instruction: Instruction,
    pub mode: AddressingMode,
}

/// The instruction table: what each opcode byte decodes to. Every byte that the
/// table does not list decodes to `BRK`.
pub open spec fn opcode_of(byte: u8) -> Opcode {
    match byte {
        0xAA => Opcode { instruction: Instruction::Tax, mode: AddressingMode::Implied },
        0xE8 => Opcode { instruction: Instruction::Inx, mode: AddressingMode::Implied },
        0xA9 => Opcode { instruction: Instruction::Lda, mode: AddressingMode::Immediate },
        0xA5 => Opcode { instruction: Instruction::Lda, mode: AddressingMode::ZeroPage },
        0xB5 => Opcode { instruction: Instruction::Lda, mode: AddressingMode::ZeroPageX },
        0xAD => Opcode { instruction: Instruction::Lda, mode: AddressingMode::Absolute },
        0xBD => Opcode { instruction: Instruction::Lda, mode: AddressingMode::AbsoluteX },
        0xB9 => Opcode { instruction: Instruction::Lda, mode: AddressingMode::AbsoluteY },
        0xA1 => Opcode { instruction: Instruction::Lda, mode: AddressingMode::IndirectX },
        0xB1 => Opcode { instruction: Instruction::Lda, mode: AddressingMode::IndirectY },
        0xA2 => Opcode { instruction: Instruction::Ldx, mode: AddressingMode::Immediate },
        0xA0 => Opcode { instruction: Instruction::Ldy, mode: AddressingMode::Immediate },
        0x85 => Opcode { instruction: Instruction::Sta, mode: AddressingMode::ZeroPage },
        0x95 => Opcode { instruction: Instruction::Sta, mode: AddressingMode::ZeroPageX },
        0x8D => Opcode { instruction: Instruction::Sta, mode: AddressingMode::Absolute },
        0x9D => Opcode { instruction: Instruction::Sta, mode: AddressingMode::AbsoluteX },
        0x99 => Opcode { instruction: Instruction::Sta, mode: AddressingMode::AbsoluteY },
        0x81 => Opcode { instruction: Instruction::Sta, mode: AddressingMode::IndirectX },
        0x91 => Opcode { instruction: Instruction::Sta, mode: AddressingMode::IndirectY },
        _ => Opcode { instruction: Instruction::Brk, mode: AddressingMode::Implied },
    }
}

/// `v` reduced to 16 bits, as 16-bit wrapping arithmetic does.
pub open spec fn wrap16(v: int) -> u16 {
    (v % 0x10000) as u16
}

/// `v` reduced to 8 bits, as 8-bit wrapping arithmetic does.
pub open spec fn wrap8(v: int) -> u8 {
    (v % 0x100) as u8
}

/// The 16-bit value whose low byte is `low` and whose high byte is `high`.
pub open spec fn le_word(low: u8, high: u8) -> u16 {
    (low + 256 * high) as u16
}

/// The status register after a value `result` has been loaded: the zero flag tells
/// whether `result` is zero, the negative flag copies bit 7 of `result`, and every
/// other status bit is kept.
pub open spec fn zn_flags(status: u8, result: u8) -> u8 {
    with_bit_written(
        with_bit_written(status, ZERO_FLAG_BIT, result == 0),
        NEGATIVE_FLAG_BIT,
        is_bit_set(result, NEGATIVE_FLAG_BIT),
    )
}

/// `mem` with its bytes from `PROGRAM_START` on replaced by the first `count`
/// bytes of `program`.
pub open spec fn copied_to_program_area(mem: Seq<u8>, program: Seq<u8>, count: int) -> Seq<u8> {
    Seq::new(
        mem.len(),
        |i: int|
            if PROGRAM_START <= i < PROGRAM_START + count {
                program[i - PROGRAM_START]
            } else {
                mem[i]
            },
    )
}

/// The whole state of the processor: registers and memory.
pub struct CpuState {
    pub a: u8,
    pub x: u8,
    pub y: u8,
    pub status: u8,
    pub pc: u16,
    pub mem: Seq<u8>,
}

impl CpuState {
    /// Memory covers the whole 16-bit address space.
    pub open spec fn wf(self) -> bool {
        self.mem.len() == MEMORY_SIZE
    }

    /// The state of a freshly built processor: every register and byte is zero.
    pub open spec fn power_on() -> CpuState {
        CpuState { a: 0, x: 0, y: 0, status: 0, pc: 0, mem: Seq::new(0x10000, |i: int| 0u8) }
    }

    /// The byte at `addr`.
    pub open spec fn read(self, addr: u16) -> u8 {
        self.mem[addr as int]
    }

    /// The state with the byte at `addr` replaced by `value`.
    pub open spec fn write(self, addr: u16, value: u8) -> CpuState {
        CpuState { mem: self.mem.update(addr as int, value), ..self }
    }

    /// The little-endian word at `addr` and `addr + 1`, the second address wrapping
    /// around the end of memory.
    pub open spec fn read_u16(self, addr: u16) -> u16 {
        le_word(self.read(addr), self.read(wrap16(addr + 1)))
    }

    /// The state with `value` written little-endian at `addr` and `addr + 1`.
    pub open spec fn write_u16(self, addr: u16, value: u16) -> CpuState {
        self.write(addr, (value % 256) as u8).write(wrap16(addr + 1), (value / 256) as u8)
    }

    /// The little-endian word at `ptr` and `ptr + 1` inside page zero, the second
    /// address wrapping within the page.
    pub open spec fn read_zero_page_u16(self, ptr: u8) -> u16 {
        le_word(self.read(ptr as u16), self.read(wrap8(ptr + 1) as u16))
    }

    pub open spec fn with_pc(self, pc: u16) -> CpuState {
        CpuState { pc, ..self }
    }

    /// Accumulator loaded with `value`, flags updated.
    pub open spec fn load_a(self, value: u8) -> CpuState {
        CpuState { a: value, status: zn_flags(self.status, value), ..self }
    }

    /// X loaded with `value`, flags updated.
    pub open spec fn load_x(self, value: u8) -> CpuState {
        CpuState { x: value, status: zn_flags(self.status, value), ..self }
    }

    /// Y loaded with `value`, flags updated.
    pub open spec fn load_y(self, value: u8) -> CpuState {
        CpuState { y: value, status: zn_flags(self.status, value), ..self }
    }

    /// The effective address of the operand of an instruction whose operand bytes
    /// start at `pc`, and the program counter just past those operand bytes.
    /// Implied addressing has no operand.
    pub open spec fn operand(self, mode: AddressingMode) -> (Option<u16>, u16) {
        let pc = self.pc;
        match mode {
            AddressingMode::Implied => (None, pc),
            AddressingMode::Immediate => (Some(pc), wrap16(pc + 1)),
            AddressingMode::ZeroPage => (Some(self.read(pc) as u16), wrap16(pc + 1)),
            AddressingMode::ZeroPageX => (
                Some(wrap8(self.read(pc) + self.x) as u16),
                wrap16(pc + 1),
            ),
            AddressingMode::ZeroPageY => (
                Some(wrap8(self.read(pc) + self.y) as u16),
                wrap16(pc + 1),
            ),
            AddressingMode::Absolute => (Some(self.read_u16(pc)), wrap16(pc + 2)),
            AddressingMode::AbsoluteX => (
                Some(wrap16(self.read_u16(pc) + self.x)),
                wrap16(pc + 2),
            ),
            AddressingMode::AbsoluteY => (
                Some(wrap16(self.read_u16(pc) + self.y)),
                wrap16(pc + 2),
            ),
            AddressingMode::IndirectX => (
                Some(self.read_zero_page_u16(wrap8(self.read(pc) + self.x))),
                wrap16(pc + 1),
            ),
            AddressingMode::IndirectY => (
                Some(wrap16(self.read_zero_page_u16(self.read(pc)) + self.y)),
                wrap16(pc + 1),
            ),
        }
    }

    /// Fetches, decodes and executes the instruction at `pc`. The flag is `true`
    /// when the instruction was `BRK`, which stops the processor (its opcode byte
    /// has still been consumed).
    #[verifier::opaque]
    pub open spec fn step(self) -> (CpuState, bool) {
        let op = opcode_of(self.read(self.pc));
        let fetched = self.with_pc(wrap16(self.pc + 1));
        let (addr, next_pc) = fetched.operand(op.mode);
        let s = fetched.with_pc(next_pc);
        match op.instruction {
            Instruction::Lda => (s.load_a(s.read(addr->0)), false),
            Instruction::Ldx => (s.load_x(s.read(addr->0)), false),
            Instruction::Ldy => (s.load_y(s.read(addr->0)), false),
            Instruction::Sta => (s.write(addr->0, s.a), false),
            Instruction::Tax => (s.load_x(s.a), false),
            Instruction::Inx => (s.load_x(wrap8(s.x + 1)), false),
            Instruction::Brk => (s, true),
        }
    }

    /// Executes instructions until one of them is `BRK` or `fuel` instructions have
    /// run; the flag tells whether a `BRK` stopped it.
    pub open spec fn run(self, fuel: nat) -> (CpuState, bool)
        decreases fuel,
    {
        if fuel == 0 {
            (self, false)
        } else {
            let (next, halted) = self.step();
            if halted {
                (next, true)
            } else {
                next.run((fuel - 1) as nat)
            }
        }
    }

    /// Registers and status cleared, program counter taken from the reset vector.
    pub open spec fn reset(self) -> CpuState {
        CpuState {
            a: 0,
            x: 0,
            y: 0,
            status: 0,
            pc: self.read_u16(RESET_VECTOR),
            mem: self.mem,
        }
    }

    /// `program` copied to memory from `PROGRAM_START` on, then the reset vector
    /// pointed at `PROGRAM_START`.
    pub open spec fn load(self, program: Seq<u8>) -> CpuState {
        CpuState {
            mem: copied_to_program_area(self.mem, program, program.len() as int),
            ..self
        }.write_u16(RESET_VECTOR, PROGRAM_START)
    }

    /// What `load_and_run` leaves: the program loaded, the processor reset, then run.
    pub open spec fn load_and_run(self, program: Seq<u8>) -> CpuState {
        self.load(program).reset().run(RUN_BUDGET as nat).0
    }
}

} // verus!
