//! Properties of the processor model that hold across operations.

use vstd::prelude::*;
use crate::bit::{is_bit_set, lemma_test_after_write};
use crate::machine::{
    AddressingMode, CpuState, Instruction, opcode_of, wrap16, zn_flags, MAX_PROGRAM_LEN,
    NEGATIVE_FLAG_BIT, PROGRAM_START, RESET_VECTOR, RUN_BUDGET, ZERO_FLAG_BIT,
};

verus! {

/// A read gives back what the last write to the same address stored, and a write
/// leaves every other address as it was.
pub proof fn lemma_read_after_write(s: CpuState, addr: u16, other: u16, value: u8)
    requires
        s.wf(),
    ensures
        s.write(addr, value).wf(),
        s.write(addr, value).read(addr) == value,
        other != addr ==> s.write(addr, value).read(other) == s.read(other),
{
}

/// A 16-bit read gives back what a 16-bit write to the same address stored, also
/// where the word straddles the end of memory; the other addresses keep their bytes.
pub proof fn lemma_read_u16_after_write_u16(s: CpuState, addr: u16, other: u16, value: u16)
    requires
        s.wf(),
    ensures
        s.write_u16(addr, value).wf(),
        s.write_u16(addr, value).read_u16(addr) == value,
        other != addr && other != wrap16(addr + 1) ==> s.write_u16(addr, value).read(other)
            == s.read(other),
{
}

/// After a program is loaded and the processor reset, execution starts at
/// `PROGRAM_START` with every register and the status cleared, and the program's
/// bytes stand from `PROGRAM_START` on (up to the reset vector, which loading
/// overwrites). Bytes outside the program area and the vector are kept.
pub proof fn lemma_load_then_reset(s: CpuState, program: Seq<u8>)
    requires
        s.wf(),
        program.len() <= MAX_PROGRAM_LEN,
    ensures
        s.load(program).reset().wf(),
        s.load(program).reset().pc == PROGRAM_START,
        s.load(program).reset().a == 0,
        s.load(program).reset().x == 0,
        s.load(program).reset().y == 0,
        s.load(program).reset().status == 0,
        forall|i: int|
            0 <= i < program.len() && PROGRAM_START + i < RESET_VECTOR ==> #[trigger] s.load(
                program,
            ).reset().mem[PROGRAM_START + i] == program[i],
        forall|i: int|
            0 <= i < PROGRAM_START ==> #[trigger] s.load(program).reset().mem[i] == s.mem[i],
        forall|i: int|
            PROGRAM_START + program.len() <= i < RESET_VECTOR ==> #[trigger] s.load(
                program,
            ).reset().mem[i] == s.mem[i],
        s.load(program).mem[0xFFFC] == 0x00,
        s.load(program).mem[0xFFFD] == 0x80,
        s.load(program).mem[0xFFFE] == (if program.len() > 0x7FFE {
            program[0x7FFE]
        } else {
            s.mem[0xFFFE]
        }),
        s.load(program).mem[0xFFFF] == (if program.len() > 0x7FFF {
            program[0x7FFF]
        } else {
            s.mem[0xFFFF]
        }),
        s.load(program).a == s.a,
        s.load(program).x == s.x,
        s.load(program).y == s.y,
        s.load(program).status == s.status,
        s.load(program).pc == s.pc,
{
    let t = s.load(program).reset();
    assert(t.read_u16(RESET_VECTOR) == PROGRAM_START);
}

/// Loading a value sets the zero flag exactly when the value is zero and the
/// negative flag exactly when its bit 7 is set; no other status bit changes.
pub proof fn lemma_zn_flags(status: u8, result: u8)
    ensures
        is_bit_set(zn_flags(status, result), ZERO_FLAG_BIT) == (result == 0),
        is_bit_set(zn_flags(status, result), NEGATIVE_FLAG_BIT) == (result >= 0x80),
        forall|i: u8|
            i < 8 && i != ZERO_FLAG_BIT && i != NEGATIVE_FLAG_BIT ==> #[trigger] is_bit_set(
                zn_flags(status, result),
                i,
            ) == is_bit_set(status, i),
{
    let mid = crate::bit::with_bit_written(status, ZERO_FLAG_BIT, result == 0);
    lemma_test_after_write(status, ZERO_FLAG_BIT, result == 0, ZERO_FLAG_BIT);
    lemma_test_after_write(mid, NEGATIVE_FLAG_BIT, is_bit_set(result, NEGATIVE_FLAG_BIT), ZERO_FLAG_BIT);
    lemma_test_after_write(mid, NEGATIVE_FLAG_BIT, is_bit_set(result, NEGATIVE_FLAG_BIT), NEGATIVE_FLAG_BIT);
    assert(is_bit_set(result, 7) == (result >= 0x80)) by (bit_vector);
    assert forall|i: u8|
        i < 8 && i != ZERO_FLAG_BIT && i != NEGATIVE_FLAG_BIT implies #[trigger] is_bit_set(
        zn_flags(status, result),
        i,
    ) == is_bit_set(status, i) by {
        lemma_test_after_write(status, ZERO_FLAG_BIT, result == 0, i);
        lemma_test_after_write(mid, NEGATIVE_FLAG_BIT, is_bit_set(result, NEGATIVE_FLAG_BIT), i);
    }
}

/// Every addressing mode but implied yields an address; implied consumes no operand
/// byte, the absolute modes consume two and all others one.
pub proof fn lemma_operand_shape(s: CpuState, mode: AddressingMode)
    ensures
        (s.operand(mode).0 is None) == (mode is Implied),
        s.operand(mode).1 == wrap16(
            s.pc + if mode is Implied {
                0int
            } else if mode is Absolute || mode is AbsoluteX || mode is AbsoluteY {
                2int
            } else {
                1int
            },
        ),
{
}

/// The zero-page modes, indexed or not, address page zero only: the index addition
/// wraps within the page.
pub proof fn lemma_zero_page_stays_in_page_zero(s: CpuState, mode: AddressingMode)
    requires
        mode is ZeroPage || mode is ZeroPageX || mode is ZeroPageY,
    ensures
        s.operand(mode).0->0 < 0x100,
{
}

/// Every instruction that takes an operand decodes with a mode that has one.
pub proof fn lemma_table_gives_operands(byte: u8)
    ensures
        opcode_of(byte).instruction is Lda || opcode_of(byte).instruction is Ldx
            || opcode_of(byte).instruction is Ldy || opcode_of(byte).instruction is Sta
            ==> !(opcode_of(byte).mode is Implied),
        opcode_of(byte).instruction is Tax || opcode_of(byte).instruction is Inx
            || opcode_of(byte).instruction is Brk ==> opcode_of(byte).mode is Implied,
{
}

/// One step stops the processor exactly when the opcode is `BRK` (every byte that the
/// table does not list counts as one); the stopped state differs from the old one only
/// in the program counter, moved past the opcode byte.
pub proof fn lemma_step_halts_exactly_on_brk(s: CpuState)
    ensures
        s.step().1 == (opcode_of(s.read(s.pc)).instruction is Brk),
        s.step().1 ==> s.step().0 == s.with_pc(wrap16(s.pc + 1)),
{
    reveal(CpuState::step);
}

/// Only `STA` writes memory, and it writes the accumulator to the operand's address;
/// every step keeps memory the size of the address space.
pub proof fn lemma_step_memory(s: CpuState)
    requires
        s.wf(),
    ensures
        s.step().0.wf(),
        !(opcode_of(s.read(s.pc)).instruction is Sta) ==> s.step().0.mem == s.mem,
        opcode_of(s.read(s.pc)).instruction is Sta ==> s.step().0.mem == s.mem.update(
            s.with_pc(wrap16(s.pc + 1)).operand(opcode_of(s.read(s.pc)).mode).0->0 as int,
            s.a,
        ),
{
    reveal(CpuState::step);
}

/// Running keeps memory the size of the address space.
pub proof fn lemma_run_keeps_memory_whole(s: CpuState, fuel: nat)
    requires
        s.wf(),
    ensures
        s.run(fuel).0.wf(),
    decreases fuel,
{
    if fuel > 0 {
        lemma_step_memory(s);
        if !s.step().1 {
            lemma_run_keeps_memory_whole(s.step().0, (fuel - 1) as nat);
        }
    }
}

/// Once a run stops on `BRK` within `fuel` instructions, a larger budget gives the
/// same result: more fuel never changes the outcome of a program that stops.
pub proof fn lemma_run_stable_once_halted(s: CpuState, fuel: nat, more: nat)
    requires
        s.run(fuel).1,
        fuel <= more,
    ensures
        s.run(more) == s.run(fuel),
    decreases fuel,
{
    if fuel > 0 && !s.step().1 {
        lemma_run_stable_once_halted(s.step().0, (fuel - 1) as nat, (more - 1) as nat);
    }
}

/// A program that stops on `BRK` within any number of instructions that fits in 64
/// bits leaves, through `load_and_run`, exactly the state in which it stopped.
pub proof fn lemma_load_and_run_of_halting_program(s: CpuState, program: Seq<u8>, steps: nat)
    requires
        steps <= RUN_BUDGET,
        s.load(program).reset().run(steps).1,
    ensures
        s.load_and_run(program) == s.load(program).reset().run(steps).0,
{
    lemma_run_stable_once_halted(s.load(program).reset(), steps, RUN_BUDGET as nat);
}

/// `new` is the status register `old` after loading `value`: the zero flag (bit 1)
/// is set exactly when `value` is zero, the negative flag (bit 7) equals bit 7 of
/// `value`, and bits 0 and 2 to 6 are those of `old`.
pub open spec fn flags_after_load(old: u8, new: u8, value: u8) -> bool {
    &&& (new & 0x02 != 0) == (value == 0)
    &&& (new & 0x80 != 0) == (value & 0x80 != 0)
    &&& new & 0x7D == old & 0x7D
}

/// The flag update that every load performs, stated on the status byte itself.
pub proof fn lemma_zn_flags_on_status_byte(status: u8, value: u8)
    ensures
        flags_after_load(status, zn_flags(status, value), value),
{
    assert(flags_after_load(status, zn_flags(status, value), value)) by (bit_vector);
}

/// The effective address of the implied, immediate and zero-page modes, and the
/// program counter after their operand byte, written out from the byte `b` at the
/// program counter `p`: implied has none and consumes nothing; immediate is `p`;
/// zero page is `b`, indexed by X or Y modulo 0x100.
pub proof fn lemma_direct_operand_addresses(s: CpuState)
    requires
        s.wf(),
    ensures
        ({
            let p = s.pc as int;
            let next1 = ((p + 1) % 0x10000) as u16;
            let b = s.mem[p] as int;
            &&& s.operand(AddressingMode::Implied) == (None::<u16>, s.pc)
            &&& s.operand(AddressingMode::Immediate) == (Some(s.pc), next1)
            &&& s.operand(AddressingMode::ZeroPage) == (Some(b as u16), next1)
            &&& s.operand(AddressingMode::ZeroPageX) == (Some(((b + s.x) % 0x100) as u16), next1)
            &&& s.operand(AddressingMode::ZeroPageY) == (Some(((b + s.y) % 0x100) as u16), next1)
        }),
{
}

/// The effective address of the absolute modes, and the program counter after
/// their two operand bytes: the little-endian word at `p`, `p + 1` (the program
/// counter and the next address, modulo 0x10000), indexed by X or Y modulo 0x10000,
/// so that a carry out of the low byte reaches the high byte.
pub proof fn lemma_absolute_operand_addresses(s: CpuState)
    requires
        s.wf(),
    ensures
        ({
            let p = s.pc as int;
            let next2 = ((p + 2) % 0x10000) as u16;
            let word = s.mem[p] + 256 * s.mem[(p + 1) % 0x10000];
            &&& s.operand(AddressingMode::Absolute) == (Some(word as u16), next2)
            &&& s.operand(AddressingMode::AbsoluteX) == (
                Some(((word + s.x) % 0x10000) as u16),
                next2,
            )
            &&& s.operand(AddressingMode::AbsoluteY) == (
                Some(((word + s.y) % 0x10000) as u16),
                next2,
            )
        }),
{
}

/// The effective address of the indirect modes, and the program counter after
/// their single operand byte `b` (the byte at the program counter): (zp,X) reads a
/// little-endian pointer from page zero at `b + X`, both of its bytes addressed
/// modulo 0x100; (zp),Y reads the little-endian pointer from page zero at `b` (its
/// high byte at `b + 1` modulo 0x100) and adds Y to the whole word modulo 0x10000,
/// so that a carry out of the low byte reaches the high byte.
pub proof fn lemma_indirect_operand_addresses(s: CpuState)
    requires
        s.wf(),
    ensures
        ({
            let p = s.pc as int;
            let next1 = ((p + 1) % 0x10000) as u16;
            let b = s.mem[p] as int;
            let zx = (b + s.x) % 0x100;
            let pointer_x = s.mem[zx] + 256 * s.mem[(zx + 1) % 0x100];
            let pointer = s.mem[b] + 256 * s.mem[(b + 1) % 0x100];
            &&& s.operand(AddressingMode::IndirectX) == (Some(pointer_x as u16), next1)
            &&& s.operand(AddressingMode::IndirectY) == (
                Some(((pointer + s.y) % 0x10000) as u16),
                next1,
            )
        }),
{
}

/// The effective address of the operand of the instruction at the program counter,
/// whose operand bytes start just after the opcode byte, and the program counter
/// just past them.
pub open spec fn operand_of_next_instruction(s: CpuState) -> (u16, u16) {
    let operand = s.with_pc(((s.pc + 1) % 0x10000) as u16).operand(
        opcode_of(s.mem[s.pc as int]).mode,
    );
    (operand.0->0, operand.1)
}

/// LDA, LDX and LDY load the byte at the operand's effective address into their
/// register, set the flags from that byte, move the program counter past the operand
/// and touch neither memory nor the other registers.
pub proof fn lemma_step_loads(s: CpuState)
    requires
        s.wf(),
    ensures
        ({
            let instruction = opcode_of(s.mem[s.pc as int]).instruction;
            let (addr, next_pc) = operand_of_next_instruction(s);
            let r = s.step().0;
            &&& instruction is Lda ==> {
                &&& r.a == s.mem[addr as int]
                &&& r.x == s.x && r.y == s.y && r.mem == s.mem && r.pc == next_pc
                &&& flags_after_load(s.status, r.status, r.a)
            }
            &&& instruction is Ldx ==> {
                &&& r.x == s.mem[addr as int]
                &&& r.a == s.a && r.y == s.y && r.mem == s.mem && r.pc == next_pc
                &&& flags_after_load(s.status, r.status, r.x)
            }
            &&& instruction is Ldy ==> {
                &&& r.y == s.mem[addr as int]
                &&& r.a == s.a && r.x == s.x && r.mem == s.mem && r.pc == next_pc
                &&& flags_after_load(s.status, r.status, r.y)
            }
        }),
{
    reveal(CpuState::step);
    let r = s.step().0;
    lemma_zn_flags_on_status_byte(s.status, r.a);
    lemma_zn_flags_on_status_byte(s.status, r.x);
    lemma_zn_flags_on_status_byte(s.status, r.y);
}

/// TAX copies A into X; INX adds one to X modulo 0x100. Both set the flags from the
/// new X, move the program counter past the opcode byte and touch neither memory nor
/// A and Y.
pub proof fn lemma_step_transfers(s: CpuState)
    requires
        s.wf(),
    ensures
        ({
            let instruction = opcode_of(s.mem[s.pc as int]).instruction;
            let r = s.step().0;
            &&& instruction is Tax ==> {
                &&& r.x == s.a
                &&& r.a == s.a && r.y == s.y && r.mem == s.mem
                &&& r.pc == (s.pc + 1) % 0x10000
                &&& flags_after_load(s.status, r.status, r.x)
            }
            &&& instruction is Inx ==> {
                &&& r.x == (s.x + 1) % 0x100
                &&& r.a == s.a && r.y == s.y && r.mem == s.mem
                &&& r.pc == (s.pc + 1) % 0x10000
                &&& flags_after_load(s.status, r.status, r.x)
            }
        }),
{
    reveal(CpuState::step);
    lemma_zn_flags_on_status_byte(s.status, s.step().0.x);
}

/// STA stores A at the operand's effective address, moves the program counter past
/// the operand and changes no register or flag.
pub proof fn lemma_step_store(s: CpuState)
    requires
        s.wf(),
    ensures
        ({
            let (addr, next_pc) = operand_of_next_instruction(s);
            let r = s.step().0;
            opcode_of(s.mem[s.pc as int]).instruction is Sta ==> {
                &&& r.mem == s.mem.update(addr as int, s.a)
                &&& r.a == s.a && r.x == s.x && r.y == s.y && r.status == s.status
                &&& r.pc == next_pc
            }
        }),
{
    reveal(CpuState::step);
}

/// Reset clears A, X, Y and the status, keeps memory, and sets the program counter to
/// the little-endian word stored at 0xFFFC (low byte) and 0xFFFD (high byte).
pub proof fn lemma_reset_effect(s: CpuState)
    requires
        s.wf(),
    ensures
        s.reset().a == 0 && s.reset().x == 0 && s.reset().y == 0 && s.reset().status == 0,
        s.reset().mem == s.mem,
        s.reset().pc == s.mem[0xFFFC] + 256 * s.mem[0xFFFD],
{
}

/// Words are little-endian: the word at `addr` is the byte at `addr` plus 256 times
/// the byte at `addr + 1` (modulo 0x10000), and storing a word puts its low byte at
/// `addr` and its high byte at `addr + 1`, changing nothing else.
pub proof fn lemma_word_access(s: CpuState, addr: u16, value: u16)
    requires
        s.wf(),
    ensures
        s.read_u16(addr) == s.mem[addr as int] + 256 * s.mem[(addr + 1) % 0x10000],
        s.write_u16(addr, value).mem == s.mem.update(addr as int, (value % 256) as u8).update(
            (addr + 1) % 0x10000,
            (value / 256) as u8,
        ),
        s.write_u16(addr, value).a == s.a && s.write_u16(addr, value).x == s.x
            && s.write_u16(addr, value).y == s.y && s.write_u16(addr, value).status == s.status
            && s.write_u16(addr, value).pc == s.pc,
{
}

/// A fresh processor: every register, the status and all 0x10000 bytes are zero.
pub proof fn lemma_power_on_is_zero()
    ensures
        CpuState::power_on().wf(),
        CpuState::power_on().a == 0 && CpuState::power_on().x == 0 && CpuState::power_on().y == 0,
        CpuState::power_on().status == 0 && CpuState::power_on().pc == 0,
        forall|i: int| 0 <= i < 0x10000 ==> #[trigger] CpuState::power_on().mem[i] == 0,
{
}

/// How a run unfolds: with no budget left it stops where it is, unfinished; a step
/// that meets `BRK` finishes the run in the state after that step; any other step
/// is followed by the rest of the run with one instruction less of budget.
pub proof fn lemma_run_unfolds(s: CpuState, fuel: nat)
    ensures
        s.run(0) == (s, false),
        s.step().1 ==> s.run(fuel + 1) == (s.step().0, true),
        !s.step().1 ==> s.run(fuel + 1) == s.step().0.run(fuel),
{
}

} // verus!
