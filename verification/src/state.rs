use vstd::prelude::*;
use crate::instruction::{AddressingMode, Instruction};

verus! {

/// The contents of the 64 KiB address space: the byte held at each address.
pub type Bytes = Map<u16, u8>;

/// An integer reduced to sixteen bits, as an address is when it runs over.
pub open spec fn wrap16(n: int) -> u16 {
    (n % 0x1_0000) as u16
}

/// An integer reduced to eight bits, as a register is when it runs over.
pub open spec fn wrap8(n: int) -> u8 {
    (n % 0x100) as u8
}

/// A byte read as a two's complement number between -128 and 127.
pub open spec fn signed(byte: u8) -> int {
    if byte < 0x80 {
        byte as int
    } else {
        byte - 0x100
    }
}

/// The address in the stack page that a stack pointer stands for.
pub open spec fn stack_address(stack_pointer: u8) -> u16 {
    (0x0100 + stack_pointer) as u16
}

/// The zero flag that a result byte gives.
pub open spec fn zero_of(result: u8) -> bool {
    result == 0
}

/// Whether the bit of `byte` that weighs `weight` is set. The weights of bits 0 to 7
/// are the powers of two from 1 to 128.
pub open spec fn has_bit(byte: u8, weight: int) -> bool
    recommends
        weight == 1 || weight == 2 || weight == 4 || weight == 8 || weight == 16 || weight
            == 32 || weight == 64 || weight == 128,
{
    (byte as int / weight) % 2 == 1
}

/// The negative flag that a result byte gives: its bit 7.
pub open spec fn negative_of(result: u8) -> bool {
    has_bit(result, 0x80)
}

/// What the processor can see and change, as plain values: the registers, the seven
/// flags, and the memory it is attached to.
pub struct State {
    pub program_counter: u16,
    pub accumulator: u8,
    pub x: u8,
    pub y: u8,
    pub stack_pointer: u8,
    pub negative: bool,
    pub overflow: bool,
    pub _break: bool,
    pub decimal: bool,
    pub interrupt: bool,
    pub zero: bool,
    pub carry: bool,
    pub memory: Bytes,
}

impl State {
    /// The state of a processor that has just been attached to `memory`.
    pub open spec fn reset(memory: Bytes) -> State {
        State {
            program_counter: 0x0200,
            accumulator: 0,
            x: 0,
            y: 0,
            stack_pointer: 0xFF,
            negative: false,
            overflow: false,
            _break: false,
            decimal: false,
            interrupt: false,
            zero: false,
            carry: false,
            memory,
        }
    }

    /// The same state with the program counter moved on by `n` bytes.
    pub open spec fn advanced(self, n: int) -> State {
        State { program_counter: wrap16(self.program_counter + n), ..self }
    }

    /// The same state with the zero and negative flags taken from `result`.
    pub open spec fn with_result(self, result: u8) -> State {
        State { zero: zero_of(result), negative: negative_of(result), ..self }
    }

    /// The first byte behind the program counter.
    pub open spec fn operand_low(self) -> u8 {
        self.memory[self.program_counter]
    }

    /// The second byte behind the program counter.
    pub open spec fn operand_high(self) -> u8 {
        self.memory[wrap16(self.program_counter + 1)]
    }

    /// The address that `mode` names when the program counter stands at the operand.
    /// Indexing within the zero page stays in the zero page; every other sum is taken
    /// in sixteen bits.
    pub open spec fn effective_address(self, mode: AddressingMode) -> u16
        recommends
            mode.yields_address(),
    {
        let low = self.operand_low();
        let high = self.operand_high();
        match mode {
            AddressingMode::Absolute => wrap16(low + 0x100 * high),
            AddressingMode::AbsoluteXIndexed => wrap16(low + 0x100 * high + self.x),
            AddressingMode::AbsoluteYIndexed => wrap16(low + 0x100 * high + self.y),
            AddressingMode::Relative => wrap16(self.program_counter + 1 + signed(low)),
            AddressingMode::Zeropage => low as u16,
            AddressingMode::ZeropageXIndexed => wrap8(low + self.x) as u16,
            AddressingMode::ZeropageYIndexed => wrap8(low + self.y) as u16,
            _ => 0,
        }
    }

    /// Whether adding the index register carries out of the low byte of an absolute
    /// address.
    pub open spec fn page_crossed(self, mode: AddressingMode) -> bool {
        match mode {
            AddressingMode::AbsoluteXIndexed => self.operand_low() + self.x > 0xFF,
            AddressingMode::AbsoluteYIndexed => self.operand_low() + self.y > 0xFF,
            _ => false,
        }
    }

    /// The cycles that finding the address costs: one for each operand byte, one more
    /// for indexing within the zero page, and one more for a page crossing where the
    /// instruction accounts for it.
    pub open spec fn address_cycles(self, mode: AddressingMode, page_crossing: bool) -> int {
        if mode.yields_address() {
            mode.operand_length() + match mode {
                AddressingMode::ZeropageXIndexed | AddressingMode::ZeropageYIndexed => 1int,
                _ => if page_crossing && self.page_crossed(mode) {
                    1int
                } else {
                    0int
                },
            }
        } else {
            0
        }
    }

    /// The state after the address was found: the program counter stands behind the
    /// operand bytes that hold it.
    pub open spec fn after_address(self, mode: AddressingMode) -> State {
        if mode.yields_address() {
            self.advanced(mode.operand_length())
        } else {
            self
        }
    }

    /// The byte that an instruction reads through `mode`.
    pub open spec fn operand(self, mode: AddressingMode) -> u8
        recommends
            mode.yields_value(),
    {
        match mode {
            AddressingMode::Accumulator => self.accumulator,
            AddressingMode::Immediate => self.operand_low(),
            _ => self.memory[self.effective_address(mode)],
        }
    }

    /// The cycles that reading the operand costs: those of finding its address and one
    /// for the read; one for an immediate byte; none for the accumulator.
    pub open spec fn operand_cycles(self, mode: AddressingMode, page_crossing: bool) -> int {
        match mode {
            AddressingMode::Accumulator => 0,
            AddressingMode::Immediate => 1,
            _ => self.address_cycles(mode, page_crossing) + 1,
        }
    }

    /// The seven flags packed into one byte: bit 7 negative, bit 6 overflow, bit 5
    /// always set, bit 4 break, bit 3 decimal, bit 2 interrupt disable, bit 1 zero,
    /// bit 0 carry.
    pub open spec fn status_byte(self) -> u8 {
        ((if self.negative { 0x80int } else { 0 })
            + (if self.overflow { 0x40int } else { 0 })
            + 0x20
            + (if self._break { 0x10int } else { 0 })
            + (if self.decimal { 0x08int } else { 0 })
            + (if self.interrupt { 0x04int } else { 0 })
            + (if self.zero { 0x02int } else { 0 })
            + (if self.carry { 0x01int } else { 0 })) as u8
    }

    /// The same state with the seven flags taken from the bits of `status`.
    pub open spec fn with_status(self, status: u8) -> State {
        State {
            negative: has_bit(status, 0x80),
            overflow: has_bit(status, 0x40),
            _break: has_bit(status, 0x10),
            decimal: has_bit(status, 0x08),
            interrupt: has_bit(status, 0x04),
            zero: has_bit(status, 0x02),
            carry: has_bit(status, 0x01),
            ..self
        }
    }

    /// The state after `value` was pushed: it lies where the stack pointer stood, and
    /// the stack pointer stands one lower.
    pub open spec fn pushed(self, value: u8) -> State {
        State {
            memory: self.memory.insert(stack_address(self.stack_pointer), value),
            stack_pointer: wrap8(self.stack_pointer - 1),
            ..self
        }
    }

    /// The byte that the next pull hands out: the one above the stack pointer.
    pub open spec fn stack_top(self) -> u8 {
        self.memory[stack_address(wrap8(self.stack_pointer + 1))]
    }

    /// The state after one byte was pulled: the stack pointer stands one higher.
    pub open spec fn pulled(self) -> State {
        State { stack_pointer: wrap8(self.stack_pointer + 1), ..self }
    }

    /// The state that executing `instruction` leaves, when the program counter stands
    /// behind its opcode. Loads, stores, register transfers, stack pushes and pulls,
    /// the three bitwise operations and the bit test have an effect; every other
    /// instruction leaves the state as it is.
    pub open spec fn execute(self, instruction: Instruction) -> State
        recommends
            instruction.executable(),
    {
        match instruction {
            Instruction::LoadAccumulator(mode) => {
                let value = self.operand(mode);
                State { accumulator: value, ..self.advanced(mode.operand_length()) }.with_result(
                    value,
                )
            },
            Instruction::LoadX(mode) => {
                let value = self.operand(mode);
                State { x: value, ..self.advanced(mode.operand_length()) }.with_result(value)
            },
            Instruction::LoadY(mode) => {
                let value = self.operand(mode);
                State { y: value, ..self.advanced(mode.operand_length()) }.with_result(value)
            },
            Instruction::StoreAccumulator(mode) => State {
                memory: self.memory.insert(self.effective_address(mode), self.accumulator),
                ..self.advanced(mode.operand_length())
            },
            Instruction::StoreX(mode) => State {
                memory: self.memory.insert(self.effective_address(mode), self.x),
                ..self.advanced(mode.operand_length())
            },
            Instruction::StoreY(mode) => State {
                memory: self.memory.insert(self.effective_address(mode), self.y),
                ..self.advanced(mode.operand_length())
            },
            Instruction::TransferAccumulatorToX(_) => State {
                x: self.accumulator,
                ..self
            }.with_result(self.accumulator),
            Instruction::TransferAccumulatorToY(_) => State {
                y: self.accumulator,
                ..self
            }.with_result(self.accumulator),
            Instruction::TransferStackpointerToX(_) => State {
                x: self.stack_pointer,
                ..self
            }.with_result(self.stack_pointer),
            Instruction::TransferXToAccumulator(_) => State {
                accumulator: self.x,
                ..self
            }.with_result(self.x),
            Instruction::TransferXToStackpointer(_) => State {
                stack_pointer: self.x,
                ..self
            }.with_result(self.x),
            Instruction::TransferYToAccumulator(_) => State {
                accumulator: self.y,
                ..self
            }.with_result(self.y),
            Instruction::PushAccumulator(_) => self.pushed(self.accumulator),
            Instruction::PushProcessorStatus(_) => self.pushed(self.status_byte()),
            Instruction::PullAccumulator(_) => {
                let value = self.stack_top();
                State { accumulator: value, ..self.pulled() }.with_result(value)
            },
            Instruction::PullProcessorStatus(_) => self.pulled().with_status(self.stack_top()),
            Instruction::And(mode) => {
                let result = self.accumulator & self.operand(mode);
                State { accumulator: result, ..self.advanced(mode.operand_length()) }.with_result(
                    result,
                )
            },
            Instruction::ExclusiveOr(mode) => {
                let result = self.accumulator ^ self.operand(mode);
                State { accumulator: result, ..self.advanced(mode.operand_length()) }.with_result(
                    result,
                )
            },
            Instruction::OrWithAccumulator(mode) => {
                let result = self.accumulator | self.operand(mode);
                State { accumulator: result, ..self.advanced(mode.operand_length()) }.with_result(
                    result,
                )
            },
            Instruction::BitTest(mode) => {
                let value = self.operand(mode);
                State {
                    zero: zero_of(self.accumulator & value),
                    negative: has_bit(value, 0x80),
                    overflow: has_bit(value, 0x40),
                    ..self.advanced(mode.operand_length())
                }
            },
            _ => self,
        }
    }

    /// The cycles that executing `instruction` costs behind the fetch of its opcode.
    pub open spec fn execute_cycles(self, instruction: Instruction) -> int {
        match instruction {
            Instruction::And(mode)
            | Instruction::BitTest(mode)
            | Instruction::ExclusiveOr(mode)
            | Instruction::LoadAccumulator(mode)
            | Instruction::LoadX(mode)
            | Instruction::LoadY(mode)
            | Instruction::OrWithAccumulator(mode) => self.operand_cycles(mode, true),
            Instruction::StoreAccumulator(mode)
            | Instruction::StoreX(mode)
            | Instruction::StoreY(mode) => self.address_cycles(mode, false) + 1,
            Instruction::TransferAccumulatorToX(_)
            | Instruction::TransferAccumulatorToY(_)
            | Instruction::TransferStackpointerToX(_)
            | Instruction::TransferXToAccumulator(_)
            | Instruction::TransferXToStackpointer(_)
            | Instruction::TransferYToAccumulator(_) => 1,
            Instruction::PushAccumulator(_) | Instruction::PushProcessorStatus(_) => 2,
            Instruction::PullAccumulator(_) | Instruction::PullProcessorStatus(_) => 3,
            _ => 0,
        }
    }

    /// The opcode that the next step fetches.
    pub open spec fn opcode(self) -> u8 {
        self.memory[self.program_counter]
    }

    /// Whether one step can be taken: the byte at the program counter is an opcode,
    /// and the processor has behaviour for the instruction it stands for.
    pub open spec fn can_step(self) -> bool {
        match Instruction::opcode_table(self.opcode()) {
            Some(instruction) => instruction.executable(),
            None => false,
        }
    }

    /// The state after one step: the opcode is fetched and its instruction executed.
    pub open spec fn step(self) -> State
        recommends
            self.can_step(),
    {
        match Instruction::opcode_table(self.opcode()) {
            Some(instruction) => self.advanced(1).execute(instruction),
            None => self,
        }
    }

    /// The cycles that one step costs: one for the fetch, and those of the instruction.
    pub open spec fn step_cycles(self) -> int {
        match Instruction::opcode_table(self.opcode()) {
            Some(instruction) => 1 + self.advanced(1).execute_cycles(instruction),
            None => 1,
        }
    }

    /// One step costs at least the fetch of its opcode and at most five cycles.
    pub proof fn lemma_step_cycles_bounds(self)
        ensures
            1 <= self.step_cycles() <= 5,
    {
    }

    /// Whether steps can be taken until the budget of `cycles` is used up.
    pub open spec fn can_run(self, cycles: int) -> bool
        decreases (if cycles > 0 { cycles } else { 0 }),
    {
        if cycles > 0 {
            self.can_step() && self.step().can_run(cycles - self.step_cycles())
        } else {
            true
        }
    }

    /// The state after steps were taken until the budget of `cycles` was used up.
    pub open spec fn run(self, cycles: int) -> State
        decreases (if cycles > 0 { cycles } else { 0 }),
    {
        if cycles > 0 {
            self.step().run(cycles - self.step_cycles())
        } else {
            self
        }
    }

    /// What is left of the budget of `cycles` after those steps: zero or less.
    pub open spec fn run_cycles(self, cycles: int) -> int
        decreases (if cycles > 0 { cycles } else { 0 }),
    {
        if cycles > 0 {
            self.step().run_cycles(cycles - self.step_cycles())
        } else {
            cycles
        }
    }
}

} // verus!
