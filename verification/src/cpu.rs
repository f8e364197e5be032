//! The processor: registers, memory, and the fetch-decode-execute loop.

use vstd::prelude::*;
use crate::bit::{TestBit, WriteBit};
use crate::laws::lemma_table_gives_operands;
use crate::machine::{
    AddressingMode, CpuState, Instruction, Opcode, copied_to_program_area, le_word, opcode_of,
    wrap16, wrap8, zn_flags, MAX_PROGRAM_LEN, NEGATIVE_FLAG_BIT, PROGRAM_START, RESET_VECTOR, RUN_BUDGET,
    ZERO_FLAG_BIT,
};

verus! {

broadcast use vstd::array::group_array_axioms;

/// The processor: three 8-bit registers, the status register, the program counter
/// and 64 KiB of memory.
pub struct CPU {
    pub register_a: u8,
    pub register_x: u8,
    pub register_y: u8,
    pub status: u8,
    pub pc: u16,
    memory: [u8; 0x10000],
}

/// The model of a processor: `a`, `x`, `y`, `status` and `pc` are the fields
/// `register_a`, `register_x`, `register_y`, `status` and `pc`, and `mem` is the
/// 64 KiB of memory, indexed by address.
impl View for CPU {
    type V = CpuState;

    closed spec fn view(&self) -> CpuState {
        CpuState {
            a: self.register_a,
            x: self.register_x,
            y: self.register_y,
            status: self.status,
            pc: self.pc,
            mem: self.memory@,
        }
    }
}

/// The memory of every processor covers the whole address space.
pub broadcast proof fn lemma_cpu_memory_is_whole(cpu: CPU)
    ensures
        #[trigger] cpu@.wf(),
{
}

/// 16-bit wrapping addition, as the model states it.
fn add16(a: u16, b: u16) -> (r: u16)
    ensures
        r == wrap16(a + b),
{
    a.wrapping_add(b)
}

/// 8-bit wrapping addition, as the model states it.
fn add8(a: u8, b: u8) -> (r: u8)
    ensures
        r == wrap8(a + b),
{
    a.wrapping_add(b)
}

/// The word with low byte `low` and high byte `high`.
fn word_from_le_bytes(low: u8, high: u8) -> (r: u16)
    ensures
        r == le_word(low, high),
{
    (high as u16) * 256 + (low as u16)
}

/// Looks an opcode byte up in the instruction table.
fn decode(byte: u8) -> (op: Opcode)
    ensures
        op == opcode_of(byte),
{
    let (instruction, mode) = match byte {
        0xAA => (Instruction::Tax, AddressingMode::Implied),
        0xE8 => (Instruction::Inx, AddressingMode::Implied),
        0xA9 => (Instruction::Lda, AddressingMode::Immediate),
        0xA5 => (Instruction::Lda, AddressingMode::ZeroPage),
        0xB5 => (Instruction::Lda, AddressingMode::ZeroPageX),
        0xAD => (Instruction::Lda, AddressingMode::Absolute),
        0xBD => (Instruction::Lda, AddressingMode::AbsoluteX),
        0xB9 => (Instruction::Lda, AddressingMode::AbsoluteY),
        0xA1 => (Instruction::Lda, AddressingMode::IndirectX),
        0xB1 => (Instruction::Lda, AddressingMode::IndirectY),
        0xA2 => (Instruction::Ldx, AddressingMode::Immediate),
        0xA0 => (Instruction::Ldy, AddressingMode::Immediate),
        0x85 => (Instruction::Sta, AddressingMode::ZeroPage),
        0x95 => (Instruction::Sta, AddressingMode::ZeroPageX),
        0x8D => (Instruction::Sta, AddressingMode::Absolute),
        0x9D => (Instruction::Sta, AddressingMode::AbsoluteX),
        0x99 => (Instruction::Sta, AddressingMode::AbsoluteY),
        0x81 => (Instruction::Sta, AddressingMode::IndirectX),
        0x91 => (Instruction::Sta, AddressingMode::IndirectY),
        _ => (Instruction::Brk, AddressingMode::Implied),
    };
    Opcode { instruction, mode }
}

impl CPU {
    /// A processor with every register and every byte of memory zero.
    pub fn new() -> (cpu: Self)
        ensures
            cpu@ == CpuState::power_on(),
    {
        let cpu = CPU {
            register_a: 0,
            register_x: 0,
            register_y: 0,
            status: 0,
            pc: 0,
            memory: [0u8; 0x10000],
        };
        assert(cpu@.mem =~= CpuState::power_on().mem);
        cpu
    }

    /// The byte at `addr`.
    pub fn mem_read(&self, addr: u16) -> (value: u8)
        ensures
            value == self@.read(addr),
    {
        self.memory[addr as usize]
    }

    /// Stores `value` at `addr`.
    pub fn mem_write(&mut self, addr: u16, value: u8)
        ensures
            final(self)@ == old(self)@.write(addr, value),
    {
        self.memory[addr as usize] = value;
    }

    /// The little-endian word at `addr`, the high byte at `addr + 1` (wrapping).
    fn mem_read_u16(&self, addr: u16) -> (value: u16)
        ensures
            value == self@.read_u16(addr),
    {
        let low = self.mem_read(addr);
        let high = self.mem_read(add16(addr, 1));
        word_from_le_bytes(low, high)
    }

    /// Stores `value` little-endian at `addr` and `addr + 1` (wrapping).
    fn mem_write_u16(&mut self, addr: u16, value: u16)
        ensures
            final(self)@ == old(self)@.write_u16(addr, value),
    {
        let low = (value % 256) as u8;
        let high = (value / 256) as u8;
        self.mem_write(addr, low);
        self.mem_write(add16(addr, 1), high);
    }

    /// Reads the operand bytes of the current instruction, advances the program
    /// counter past them, and returns the effective address of the operand;
    /// `None` for implied addressing.
    fn get_operand_address(&mut self, mode: AddressingMode) -> (addr: Option<u16>)
        ensures
            (addr, final(self)@.pc) == old(self)@.operand(mode),
            final(self)@ == old(self)@.with_pc(final(self)@.pc),
    {
        match mode {
            AddressingMode::Implied => None,
            AddressingMode::Immediate => {
                let addr = self.pc;
                self.pc = add16(self.pc, 1);
                Some(addr)
            },
            AddressingMode::ZeroPage => {
                let addr = self.mem_read(self.pc) as u16;
                self.pc = add16(self.pc, 1);
                Some(addr)
            },
            // u8 arithmetic wraps within page zero (0x00..=0xFF).
            AddressingMode::ZeroPageX => {
                let base = self.mem_read(self.pc);
                self.pc = add16(self.pc, 1);
                Some(add8(base, self.register_x) as u16)
            },
            AddressingMode::ZeroPageY => {
                let base = self.mem_read(self.pc);
                self.pc = add16(self.pc, 1);
                Some(add8(base, self.register_y) as u16)
            },
            AddressingMode::Absolute => {
                let addr = self.mem_read_u16(self.pc);
                self.pc = add16(self.pc, 2);
                Some(addr)
            },
            AddressingMode::AbsoluteX => {
                let base = self.mem_read_u16(self.pc);
                self.pc = add16(self.pc, 2);
                Some(add16(base, self.register_x as u16))
            },
            AddressingMode::AbsoluteY => {
                let base = self.mem_read_u16(self.pc);
                self.pc = add16(self.pc, 2);
                Some(add16(base, self.register_y as u16))
            },
            // (Indirect, X): the zero-page byte + X points to a 16-bit pointer.
            AddressingMode::IndirectX => {
                let pointer = self.mem_read(self.pc);
                self.pc = add16(self.pc, 1);
                let index = add8(pointer, self.register_x);
                let lo = self.mem_read(index as u16);
                let hi = self.mem_read(add8(index, 1) as u16);
                Some(word_from_le_bytes(lo, hi))
            },
            // (Indirect), Y: read a 16-bit pointer from zero page, then add Y.
            AddressingMode::IndirectY => {
                let pointer = self.mem_read(self.pc);
                self.pc = add16(self.pc, 1);
                let lo = self.mem_read(pointer as u16);
                let hi = self.mem_read(add8(pointer, 1) as u16);
                let base = word_from_le_bytes(lo, hi);
                Some(add16(base, self.register_y as u16))
            },
        }
    }

    /// Clears the registers and the status, and takes the program counter from
    /// the reset vector at `0xFFFC`. Memory is kept.
    pub fn reset(&mut self)
        ensures
            final(self)@ == old(self)@.reset(),
    {
        self.register_a = 0;
        self.register_x = 0;
        self.register_y = 0;
        self.status = 0;
        self.pc = self.mem_read_u16(RESET_VECTOR);
    }

    /// Copies `program` to memory from `0x8000` on and points the reset vector
    /// at it.
    fn load(&mut self, program: Vec<u8>)
        requires
            program.len() <= MAX_PROGRAM_LEN,
        ensures
            final(self)@ == old(self)@.load(program@),
    {
        let len = program.len();
        let ghost before = self@;
        let mut i: usize = 0;
        assert(self@.mem =~= copied_to_program_area(before.mem, program@, 0));
        while i < len
            invariant
                i <= len,
                len == program.len(),
                len <= MAX_PROGRAM_LEN,
                self@ == (CpuState {
                    mem: copied_to_program_area(before.mem, program@, i as int),
                    ..before
                }),
            decreases len - i,
        {
            self.memory[0x8000 + i] = program[i];
            i = i + 1;
            assert(self@.mem =~= copied_to_program_area(before.mem, program@, i as int));
        }
        self.mem_write_u16(RESET_VECTOR, PROGRAM_START);
    }

    /// Sets the zero flag when `result` is zero and copies bit 7 of `result` into
    /// the negative flag; the other status bits are kept.
    fn update_zero_and_negative_flags(&mut self, result: u8)
        ensures
            final(self)@ == (CpuState { status: zn_flags(old(self)@.status, result), ..old(self)@ }),
    {
        let mut status = self.status;
        status.write_bit(ZERO_FLAG_BIT, result == 0);
        status.write_bit(NEGATIVE_FLAG_BIT, result.test_bit(NEGATIVE_FLAG_BIT));
        self.status = status;
    }

    /// LDA: loads the accumulator.
    fn lda(&mut self, value: u8)
        ensures
            final(self)@ == old(self)@.load_a(value),
    {
        self.register_a = value;
        self.update_zero_and_negative_flags(self.register_a);
    }

    /// TAX: copies the accumulator to X.
    fn tax(&mut self)
        ensures
            final(self)@ == old(self)@.load_x(old(self)@.a),
    {
        self.register_x = self.register_a;
        self.update_zero_and_negative_flags(self.register_x);
    }

    /// INX: increments X, wrapping from 0xFF to 0x00.
    fn inx(&mut self)
        ensures
            final(self)@ == old(self)@.load_x(wrap8(old(self)@.x + 1)),
    {
        self.register_x = add8(self.register_x, 1);
        self.update_zero_and_negative_flags(self.register_x);
    }

    /// Executes the instruction at the program counter; returns `true` when it was
    /// `BRK`.
    fn step(&mut self) -> (halted: bool)
        ensures
            (final(self)@, halted) == old(self)@.step(),
    {
        proof {
            reveal(CpuState::step);
        }
        let opcode_raw_num = self.mem_read(self.pc);
        self.pc = add16(self.pc, 1);
        let opcode = decode(opcode_raw_num);
        proof {
            lemma_table_gives_operands(opcode_raw_num);
        }
        let operand = self.get_operand_address(opcode.mode);
        match opcode.instruction {
            Instruction::Lda => {
                let value = self.mem_read(operand.expect("LDA has an operand"));
                self.lda(value);
            },
            Instruction::Ldx => {
                let value = self.mem_read(operand.expect("LDX has an operand"));
                self.register_x = value;
                self.update_zero_and_negative_flags(self.register_x);
            },
            Instruction::Ldy => {
                let value = self.mem_read(operand.expect("LDY has an operand"));
                self.register_y = value;
                self.update_zero_and_negative_flags(self.register_y);
            },
            Instruction::Sta => {
                let addr = operand.expect("STA has an operand");
                self.mem_write(addr, self.register_a);
            },
            Instruction::Tax => self.tax(),
            Instruction::Inx => self.inx(),
            Instruction::Brk => return true,
        }
        false
    }

    /// Executes instructions until a `BRK` (whose opcode byte is consumed), or
    /// until `RUN_BUDGET` instructions have run.
    fn run(&mut self)
        ensures
            final(self)@ == old(self)@.run(RUN_BUDGET as nat).0,
    {
        let ghost start = self@;
        let mut budget: u64 = RUN_BUDGET;
        while budget > 0
            invariant
                start == old(self)@,
                self@.run(budget as nat) == start.run(RUN_BUDGET as nat),
            decreases budget,
        {
            let ghost before = self@;
            let halted = self.step();
            if halted {
                assert(before.run(budget as nat) == (self@, true));
                assert(start.run(RUN_BUDGET as nat).0 == self@);
                return;
            }
            budget = budget - 1;
        }
    }

    /// Loads `program` at `0x8000`, resets, and runs it until `BRK`.
    pub fn load_and_run(&mut self, program: Vec<u8>)
        requires
            program.len() <= MAX_PROGRAM_LEN,
        ensures
            final(self)@ == old(self)@.load_and_run(program@),
    {
        self.load(program);
        self.reset();
        self.run();
    }
}

} // verus!
