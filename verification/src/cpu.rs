use vstd::prelude::*;
use crate::instruction::{AddressingMode, Instruction};
use crate::laws::result_byte;
use crate::state::{Bytes, State, has_bit, negative_of, zero_of};
use crate::timing::{
    hardware_step_cycles, lemma_hardware_cycles_use_up_budget, steps_into_indexed_absolute_store,
};

verus! {

/// The address space the processor is attached to: 65536 bytes, one at each 16-bit
/// address. `read` and `write` are the accesses of a running program and charge one
/// cycle each; `get` and `set` reach the same bytes without charge, to set a program up
/// and to look at what it left.
///
/// The processor is proved against what is stated here, so it behaves as described on
/// every memory that keeps to it.
pub trait Memory {
    /// The byte held at `address`.
    spec fn byte_at(&self, address: u16) -> u8;

    /// Reads the byte at `address` and charges one cycle.
    fn read(&self, cycles: &mut isize, address: u16) -> (value: u8)
        requires
            *old(cycles) > isize::MIN,
        ensures
            value == self.byte_at(address),
            *final(cycles) == *old(cycles) - 1,
    ;

    /// Reads the byte at `address` without charge.
    fn get(&self, address: u16) -> (value: u8)
        ensures
            value == self.byte_at(address),
    ;

    /// Puts `value` at `address` and charges one cycle. Every other byte stays.
    fn write(&mut self, cycles: &mut isize, address: u16, value: u8)
        requires
            *old(cycles) > isize::MIN,
        ensures
            forall|other: u16| #[trigger]
                final(self).byte_at(other) == (if other == address {
                    value
                } else {
                    old(self).byte_at(other)
                }),
            *final(cycles) == *old(cycles) - 1,
    ;

    /// Puts `value` at `address` without charge. Every other byte stays.
    fn set(&mut self, address: u16, value: u8)
        ensures
            forall|other: u16| #[trigger]
                final(self).byte_at(other) == (if other == address {
                    value
                } else {
                    old(self).byte_at(other)
                }),
    ;
}

/// All that a memory holds, as one map from address to byte.
pub open spec fn image<M: Memory + ?Sized>(memory: &M) -> Bytes {
    Map::total(|address: u16| memory.byte_at(address))
}

/// The processor: its registers, its seven flags, and the memory it has borrowed. The
/// fields are open, so that a caller can set a state up and look at the outcome.
///
/// Each method that changes the processor ends its `ensures` by saying that the memory
/// is still the one that was lent: what the lender finds when the borrow is over is
/// what the processor left there.
pub struct CPU<'a, M: Memory + ?Sized> {
    pub program_counter: u16,
    pub accumulator: u8,
    pub x: u8,
    pub y: u8,
    pub stack_pointer: u8,
    pub memory: &'a mut M,
    /* All the status register flags */
    pub negative: bool,
    pub overflow: bool,
    pub _break: bool,
    pub decimal: bool,
    pub interrupt: bool,
    pub zero: bool,
    pub carry: bool,
}

impl<'a, M: Memory + ?Sized> View for CPU<'a, M> {
    type V = State;

    open spec fn view(&self) -> State {
        State {
            program_counter: self.program_counter,
            accumulator: self.accumulator,
            x: self.x,
            y: self.y,
            stack_pointer: self.stack_pointer,
            negative: self.negative,
            overflow: self.overflow,
            _break: self._break,
            decimal: self.decimal,
            interrupt: self.interrupt,
            zero: self.zero,
            carry: self.carry,
            memory: image(self.memory),
        }
    }
}

/// Testing a byte against a mask of one bit tells whether that bit is set.
proof fn lemma_masks(byte: u8)
    ensures
        (byte & 0x80 != 0) == has_bit(byte, 0x80),
        (byte & 0x40 != 0) == has_bit(byte, 0x40),
        (byte & 0x20 != 0) == has_bit(byte, 0x20),
        (byte & 0x10 != 0) == has_bit(byte, 0x10),
        (byte & 0x08 != 0) == has_bit(byte, 0x08),
        (byte & 0x04 != 0) == has_bit(byte, 0x04),
        (byte & 0x02 != 0) == has_bit(byte, 0x02),
        (byte & 0x01 != 0) == has_bit(byte, 0x01),
{
    assert({
        &&& (byte & 0x80 != 0) == ((byte / 0x80) % 2 == 1)
        &&& (byte & 0x40 != 0) == ((byte / 0x40) % 2 == 1)
        &&& (byte & 0x20 != 0) == ((byte / 0x20) % 2 == 1)
        &&& (byte & 0x10 != 0) == ((byte / 0x10) % 2 == 1)
        &&& (byte & 0x08 != 0) == ((byte / 0x08) % 2 == 1)
        &&& (byte & 0x04 != 0) == ((byte / 0x04) % 2 == 1)
        &&& (byte & 0x02 != 0) == ((byte / 0x02) % 2 == 1)
        &&& (byte & 0x01 != 0) == ((byte / 0x01) % 2 == 1)
    }) by (bit_vector);
}

impl<'a, M: Memory + ?Sized> CPU<'a, M> {
    /// A processor attached to `memory`, in its reset state.
    pub fn new(memory: &'a mut M) -> (cpu: CPU<'a, M>)
        ensures
            cpu@ == State::reset(image(old(memory))),
            image(final(cpu.memory)) == image(final(memory)),
    {
        CPU {
            program_counter: 0x0200,
            accumulator: 0,
            x: 0,
            y: 0,
            memory,
            stack_pointer: 0xFF,
            negative: false,
            overflow: false,
            _break: false,
            decimal: false,
            interrupt: false,
            zero: false,
            carry: false,
        }
    }

    /// Takes steps while the budget is positive. A step that was begun is finished, so
    /// the budget can end below zero; on a budget of zero or less nothing is done.
    pub fn run(&mut self, cycles: &mut isize)
        requires
            old(self)@.can_run(*old(cycles) as int),
        ensures
            *old(cycles) <= 0 ==> final(self)@ == old(self)@ && *final(cycles) == *old(cycles),
            final(self)@ == old(self)@.run(*old(cycles) as int),
            *final(cycles) == old(self)@.run_cycles(*old(cycles) as int),
            *final(cycles) <= 0,
            image(final(final(self).memory)) == image(final(old(self).memory)),
    {
        while *cycles > 0
            invariant
                image(final(self.memory)) == image(final(old(self).memory)),
                self@.can_run(*cycles as int),
                self@.run(*cycles as int) == old(self)@.run(*old(cycles) as int),
                self@.run_cycles(*cycles as int) == old(self)@.run_cycles(*old(cycles) as int),
            decreases (if *cycles > 0 { *cycles as int } else { 0 }),
        {
            proof {
                self@.lemma_step_cycles_bounds();
            }
            self.cycle(cycles);
        }
    }

    /// Whether the byte at the program counter is an opcode that the processor has
    /// behaviour for, so that a step can be taken. Looks at the memory without charge.
    pub fn can_step(&self) -> (ready: bool)
        ensures
            ready == self@.can_step(),
    {
        match Instruction::decode(self.memory.get(self.program_counter)) {
            Some(instruction) => instruction.is_executable(),
            None => false,
        }
    }

    /// Takes one step: fetches the opcode at the program counter, for one cycle, and
    /// executes the instruction it stands for. The whole instruction is executed,
    /// whatever the budget.
    pub fn cycle(&mut self, cycles: &mut isize)
        requires
            old(self)@.can_step(),
            *old(cycles) - old(self)@.step_cycles() >= isize::MIN,
        ensures
            final(self)@ == old(self)@.step(),
            *final(cycles) == *old(cycles) - old(self)@.step_cycles(),
            !steps_into_indexed_absolute_store(old(self)@) ==> (hardware_step_cycles(
                old(self)@,
            ) matches Some(expected) ==> *final(cycles) == *old(cycles) - expected),
            image(final(final(self).memory)) == image(final(old(self).memory)),
    {
        proof {
            self@.lemma_step_cycles_bounds();
            if hardware_step_cycles(self@) is Some && !steps_into_indexed_absolute_store(self@) {
                lemma_hardware_cycles_use_up_budget(self@, hardware_step_cycles(self@)->0);
            }
        }
        /* Fetch */
        let opcode = self.memory.read(cycles, self.program_counter);
        self.program_counter = self.program_counter.wrapping_add(1);

        /* Decode */
        let instruction = match Instruction::decode(opcode) {
            Some(instruction) => instruction,
            None => unreached(),
        };

        /* Execute */
        self.execute(cycles, instruction);
    }

    /// Executes `instruction`, whose operand stands at the program counter. Instructions
    /// that the processor has no behaviour for change nothing and cost nothing.
    #[verifier::rlimit(40)]
    pub fn execute(&mut self, cycles: &mut isize, instruction: Instruction)
        requires
            instruction.executable(),
            *old(cycles) - old(self)@.execute_cycles(instruction) >= isize::MIN,
        ensures
            final(self)@ == old(self)@.execute(instruction),
            *final(cycles) == *old(cycles) - old(self)@.execute_cycles(instruction),
            result_byte(instruction, final(self)@) matches Some(result) ==> final(self).zero
                == zero_of(result) && final(self).negative == negative_of(result),
            image(final(final(self).memory)) == image(final(old(self).memory)),
    {
        match instruction {
            Instruction::AddWithCarry(_) => {},
            Instruction::And(mode) => { self.and(cycles, mode) },
            Instruction::ArithmeticShiftLeft(_) => {},
            Instruction::BranchOnCarryClear(_) => {},
            Instruction::BranchOnCarrySet(_) => {},
            Instruction::BranchOnEqual(_) => {},
            Instruction::BitTest(mode) => { self.bittest(cycles, mode) },
            Instruction::BranchOnMinus(_) => {},
            Instruction::BranchOnNotEqual(_) => {},
            Instruction::BranchOnPlus(_) => {},
            Instruction::Break(_) => {},
            Instruction::BranchOnOverflowClear(_) => {},
            Instruction::BranchOnOverflowSet(_) => {},
            Instruction::ClearCarry(_) => {},
            Instruction::ClearDecimal(_) => {},
            Instruction::ClearInterruptDisable(_) => {},
            Instruction::ClearOverflow(_) => {},
            Instruction::Compare(_) => {},
            Instruction::CompareWithX(_) => {},
            Instruction::CompareWithY(_) => {},
            Instruction::Decrement(_) => {},
            Instruction::DecrementX(_) => {},
            Instruction::DecrementY(_) => {},
            Instruction::ExclusiveOr(mode) => { self.exclusive_or(cycles, mode) },
            Instruction::Increment(_) => {},
            Instruction::IncrementX(_) => {},
            Instruction::IncrementY(_) => {},
            Instruction::Jump(_) => {},
            Instruction::JumpSubroutine(_) => {},
            Instruction::LoadAccumulator(mode) => { self.load_accumulator(cycles, mode) },
            Instruction::LoadX(mode) => { self.load_x(cycles, mode) },
            Instruction::LoadY(mode) => { self.load_y(cycles, mode) },
            Instruction::LogicalShiftRight(_) => {},
            Instruction::NoOperation(_) => {},
            Instruction::OrWithAccumulator(mode) => { self.or_with_accumulator(cycles, mode) },
            Instruction::PushAccumulator(_) => { self.push_accumulator(cycles) },
            Instruction::PushProcessorStatus(_) => { self.push_processor_status(cycles) },
            Instruction::PullAccumulator(_) => { self.pull_accumulator(cycles) },
            Instruction::PullProcessorStatus(_) => { self.pull_processor_status(cycles) },
            Instruction::RotateLeft(_) => {},
            Instruction::RotateRight(_) => {},
            Instruction::ReturnFormInterrupt(_) => {},
            Instruction::ReturnFromSubroutine(_) => {},
            Instruction::SubtractWithCarry(_) => {},
            Instruction::SetCarry(_) => {},
            Instruction::SetDecimal(_) => {},
            Instruction::SetInterruptDisable(_) => {},
            Instruction::StoreAccumulator(mode) => { self.store_accumulator(cycles, mode) },
            Instruction::StoreX(mode) => { self.store_x(cycles, mode) },
            Instruction::StoreY(mode) => { self.store_y(cycles, mode) },
            Instruction::TransferAccumulatorToX(_) => { self.transfer_accumulator_to_x(cycles) },
            Instruction::TransferAccumulatorToY(_) => { self.transfer_accumulator_to_y(cycles) },
            Instruction::TransferStackpointerToX(_) => {
                self.transfer_stack_pointer_to_x(cycles)
            },
            Instruction::TransferXToAccumulator(_) => { self.transfer_x_to_accumulator(cycles) },
            Instruction::TransferXToStackpointer(_) => { self.transfer_x_to_stack_pointr(cycles) },
            Instruction::TransferYToAccumulator(_) => { self.transfer_y_to_accumulator(cycles) },
        }
    }

    /// The seven flags packed into the status byte.
    pub fn get_processor_status(&self) -> (status: u8)
        ensures
            status == self@.status_byte(),
    {
        let n: u8 = if self.negative { 0x80 } else { 0 };
        let v: u8 = if self.overflow { 0x40 } else { 0 };
        let b: u8 = if self._break { 0x10 } else { 0 };
        let d: u8 = if self.decimal { 0x08 } else { 0 };
        let i: u8 = if self.interrupt { 0x04 } else { 0 };
        let z: u8 = if self.zero { 0x02 } else { 0 };
        let c: u8 = if self.carry { 0x01 } else { 0 };
        assert(n | v | 0x20 | b | d | i | z | c == n + v + 0x20 + b + d + i + z + c) by (bit_vector)
            requires
                n == 0 || n == 0x80,
                v == 0 || v == 0x40,
                b == 0 || b == 0x10,
                d == 0 || d == 0x08,
                i == 0 || i == 0x04,
                z == 0 || z == 0x02,
                c == 0 || c == 0x01,
        ;
        n | v | 0x20 | b | d | i | z | c
    }

    /// Takes the seven flags from the bits of `value`.
    pub fn set_processor_status(&mut self, value: u8)
        ensures
            final(self)@ == old(self)@.with_status(value),
            image(final(final(self).memory)) == image(final(old(self).memory)),
    {
        proof {
            lemma_masks(value);
        }
        self.negative = (value & 0x80) != 0;
        self.overflow = (value & 0x40) != 0;
        self._break = (value & 0x10) != 0;
        self.decimal = (value & 0x8) != 0;
        self.interrupt = (value & 0x4) != 0;
        self.zero = (value & 0x2) != 0;
        self.carry = (value & 0x1) != 0;
    }

    /// Reads the two operand bytes of an absolute address and puts them together.
    fn read_absolute(&mut self, cycles: &mut isize) -> (address: (u8, u16))
        requires
            *old(cycles) - 2 >= isize::MIN,
        ensures
            address.0 == old(self)@.operand_low(),
            address.1 == old(self)@.operand_low() + 0x100 * old(self)@.operand_high(),
            final(self)@ == old(self)@.advanced(2),
            *final(cycles) == *old(cycles) - 2,
            image(final(final(self).memory)) == image(final(old(self).memory)),
    {
        let low = self.memory.read(cycles, self.program_counter);
        self.program_counter = self.program_counter.wrapping_add(1);
        let high = self.memory.read(cycles, self.program_counter);
        self.program_counter = self.program_counter.wrapping_add(1);
        assert((high as u16) << 8 == 0x100 * (high as u16)) by (bit_vector)
            requires
                high as u16 <= 0xFF,
        ;
        (low, low as u16 + ((high as u16) << 8))
    }

    /// Finds the address that `mode` names, reading the operand bytes that hold it.
    /// Accumulator, Immediate and Implied name no address: nothing is read for them.
    fn get_address(
        &mut self,
        page_crossing: bool,
        cycles: &mut isize,
        mode: AddressingMode,
    ) -> (address: Option<u16>)
        requires
            !mode.is_indirect(),
            *old(cycles) - old(self)@.address_cycles(mode, page_crossing) >= isize::MIN,
        ensures
            address == (if mode.yields_address() {
                Some(old(self)@.effective_address(mode))
            } else {
                None
            }),
            final(self)@ == old(self)@.after_address(mode),
            *final(cycles) == *old(cycles) - old(self)@.address_cycles(mode, page_crossing),
            image(final(final(self).memory)) == image(final(old(self).memory)),
    {
        match mode {
            AddressingMode::Absolute => {
                let (_, address) = self.read_absolute(cycles);
                Some(address)
            },
            AddressingMode::AbsoluteXIndexed => {
                let (address_low, address) = self.read_absolute(cycles);
                if page_crossing {
                    let address_low_x = address_low as u16 + self.x as u16;
                    if address_low_x > 0xFF {
                        *cycles -= 1;
                    }
                }
                Some(address.wrapping_add(self.x as u16))
            },
            AddressingMode::AbsoluteYIndexed => {
                let (address_low, address) = self.read_absolute(cycles);
                if page_crossing {
                    let address_low_y = address_low as u16 + self.y as u16;
                    if address_low_y > 0xFF {
                        *cycles -= 1;
                    }
                }
                Some(address.wrapping_add(self.y as u16))
            },
            AddressingMode::Relative => {
                let offset = self.memory.read(cycles, self.program_counter);
                self.program_counter = self.program_counter.wrapping_add(1);
                let address = if offset < 0x80 {
                    self.program_counter.wrapping_add(offset as u16)
                } else {
                    self.program_counter.wrapping_sub(0x100 - offset as u16)
                };
                Some(address)
            },
            AddressingMode::Zeropage => {
                let address = self.memory.read(cycles, self.program_counter);
                self.program_counter = self.program_counter.wrapping_add(1);
                Some(address as u16)
            },
            AddressingMode::ZeropageXIndexed => {
                let address = self.memory.read(cycles, self.program_counter);
                self.program_counter = self.program_counter.wrapping_add(1);
                *cycles -= 1;
                Some(address.wrapping_add(self.x) as u16)
            },
            AddressingMode::ZeropageYIndexed => {
                let address = self.memory.read(cycles, self.program_counter);
                self.program_counter = self.program_counter.wrapping_add(1);
                *cycles -= 1;
                Some(address.wrapping_add(self.y) as u16)
            },
            AddressingMode::Indirect => unreached(),
            AddressingMode::XIndexedIndirect => unreached(),
            AddressingMode::IndirectYIndexed => unreached(),
            _ => None,
        }
    }

    /// Reads the operand byte that `mode` names.
    fn get_value(
        &mut self,
        page_crossing: bool,
        cycles: &mut isize,
        mode: AddressingMode,
    ) -> (value: u8)
        requires
            mode.yields_value(),
            *old(cycles) - old(self)@.operand_cycles(mode, page_crossing) >= isize::MIN,
        ensures
            value == old(self)@.operand(mode),
            final(self)@ == old(self)@.advanced(mode.operand_length()),
            *final(cycles) == *old(cycles) - old(self)@.operand_cycles(mode, page_crossing),
            image(final(final(self).memory)) == image(final(old(self).memory)),
    {
        let address = self.get_address(page_crossing, cycles, mode);
        match address {
            Some(address) => {
                let value = self.memory.read(cycles, address);
                value
            },
            None => match mode {
                AddressingMode::Accumulator => self.accumulator,
                AddressingMode::Immediate => {
                    let value = self.memory.read(cycles, self.program_counter);
                    self.program_counter = self.program_counter.wrapping_add(1);
                    value
                },
                _ => unreached(),
            },
        }
    }

    /// Writes `value` at `address`, for one cycle.
    fn store(&mut self, cycles: &mut isize, address: u16, value: u8)
        requires
            *old(cycles) > isize::MIN,
        ensures
            final(self)@ == (State {
                memory: old(self)@.memory.insert(address, value),
                ..old(self)@
            }),
            *final(cycles) == *old(cycles) - 1,
            image(final(final(self).memory)) == image(final(old(self).memory)),
    {
        self.memory.write(cycles, address, value);
        assert(self@.memory =~= old(self)@.memory.insert(address, value));
    }

    /// Pushes `value` on the stack: one cycle for the write and one more.
    fn push_stack(&mut self, cycles: &mut isize, value: u8)
        requires
            *old(cycles) - 2 >= isize::MIN,
        ensures
            final(self)@ == old(self)@.pushed(value),
            *final(cycles) == *old(cycles) - 2,
            image(final(final(self).memory)) == image(final(old(self).memory)),
    {
        let address = 0x0100 + self.stack_pointer as u16;
        self.store(cycles, address, value);
        self.stack_pointer = self.stack_pointer.wrapping_sub(1);
        *cycles -= 1;
    }

    /// Pulls one byte from the stack: one cycle for the read and one more.
    fn pop_stack(&mut self, cycles: &mut isize) -> (value: u8)
        requires
            *old(cycles) - 2 >= isize::MIN,
        ensures
            value == old(self)@.stack_top(),
            final(self)@ == old(self)@.pulled(),
            *final(cycles) == *old(cycles) - 2,
            image(final(final(self).memory)) == image(final(old(self).memory)),
    {
        self.stack_pointer = self.stack_pointer.wrapping_add(1);
        *cycles -= 1;
        let address = 0x0100 + self.stack_pointer as u16;
        let value = self.memory.read(cycles, address);
        value
    }

    /// Loads the operand into the accumulator and sets zero and negative from it.
    fn load_accumulator(&mut self, cycles: &mut isize, mode: AddressingMode)
        requires
            mode.yields_value(),
            *old(cycles) - old(self)@.operand_cycles(mode, true) >= isize::MIN,
        ensures
            final(self)@ == old(self)@.execute(Instruction::LoadAccumulator(mode)),
            *final(cycles) == *old(cycles) - old(self)@.operand_cycles(mode, true),
            final(self).accumulator == old(self)@.operand(mode),
            final(self).zero == zero_of(final(self).accumulator),
            final(self).negative == negative_of(final(self).accumulator),
            image(final(final(self).memory)) == image(final(old(self).memory)),
    {
        let value = self.get_value(true, cycles, mode);
        self.accumulator = value;
        self.zero = value == 0;
        proof {
            lemma_masks(value);
        }
        self.negative = (value & 0x80) != 0;
    }

    /// Loads the operand into X and sets zero and negative from it.
    fn load_x(&mut self, cycles: &mut isize, mode: AddressingMode)
        requires
            mode.yields_value(),
            *old(cycles) - old(self)@.operand_cycles(mode, true) >= isize::MIN,
        ensures
            final(self)@ == old(self)@.execute(Instruction::LoadX(mode)),
            *final(cycles) == *old(cycles) - old(self)@.operand_cycles(mode, true),
            final(self).x == old(self)@.operand(mode),
            final(self).zero == zero_of(final(self).x),
            final(self).negative == negative_of(final(self).x),
            image(final(final(self).memory)) == image(final(old(self).memory)),
    {
        let value = self.get_value(true, cycles, mode);
        self.x = value;
        self.zero = value == 0;
        proof {
            lemma_masks(value);
        }
        self.negative = (value & 0x80) != 0;
    }

    /// Loads the operand into Y and sets zero and negative from it.
    fn load_y(&mut self, cycles: &mut isize, mode: AddressingMode)
        requires
            mode.yields_value(),
            *old(cycles) - old(self)@.operand_cycles(mode, true) >= isize::MIN,
        ensures
            final(self)@ == old(self)@.execute(Instruction::LoadY(mode)),
            *final(cycles) == *old(cycles) - old(self)@.operand_cycles(mode, true),
            final(self).y == old(self)@.operand(mode),
            final(self).zero == zero_of(final(self).y),
            final(self).negative == negative_of(final(self).y),
            image(final(final(self).memory)) == image(final(old(self).memory)),
    {
        let value = self.get_value(true, cycles, mode);
        self.y = value;
        self.zero = value == 0;
        proof {
            lemma_masks(value);
        }
        self.negative = (value & 0x80) != 0;
    }

    /// Writes the accumulator to the address the mode names. No flag changes.
    fn store_accumulator(&mut self, cycles: &mut isize, mode: AddressingMode)
        requires
            mode.yields_address(),
            *old(cycles) - old(self)@.address_cycles(mode, false) - 1 >= isize::MIN,
        ensures
            final(self)@ == old(self)@.execute(Instruction::StoreAccumulator(mode)),
            *final(cycles) == *old(cycles) - old(self)@.address_cycles(mode, false) - 1,
            image(final(final(self).memory)) == image(final(old(self).memory)),
    {
        let address = match self.get_address(false, cycles, mode) {
            Some(address) => address,
            None => unreached(),
        };
        self.store(cycles, address, self.accumulator);
    }

    /// Writes X to the address the mode names. No flag changes.
    fn store_x(&mut self, cycles: &mut isize, mode: AddressingMode)
        requires
            mode.yields_address(),
            *old(cycles) - old(self)@.address_cycles(mode, false) - 1 >= isize::MIN,
        ensures
            final(self)@ == old(self)@.execute(Instruction::StoreX(mode)),
            *final(cycles) == *old(cycles) - old(self)@.address_cycles(mode, false) - 1,
            image(final(final(self).memory)) == image(final(old(self).memory)),
    {
        let address = match self.get_address(false, cycles, mode) {
            Some(address) => address,
            None => unreached(),
        };
        self.store(cycles, address, self.x);
    }

    /// Writes Y to the address the mode names. No flag changes.
    fn store_y(&mut self, cycles: &mut isize, mode: AddressingMode)
        requires
            mode.yields_address(),
            *old(cycles) - old(self)@.address_cycles(mode, false) - 1 >= isize::MIN,
        ensures
            final(self)@ == old(self)@.execute(Instruction::StoreY(mode)),
            *final(cycles) == *old(cycles) - old(self)@.address_cycles(mode, false) - 1,
            image(final(final(self).memory)) == image(final(old(self).memory)),
    {
        let address = match self.get_address(false, cycles, mode) {
            Some(address) => address,
            None => unreached(),
        };
        self.store(cycles, address, self.y);
    }

    /// Copies the accumulator into X, sets zero and negative from it, and charges one
    /// cycle.
    fn transfer_accumulator_to_x(&mut self, cycles: &mut isize)
        requires
            *old(cycles) > isize::MIN,
        ensures
            final(self)@ == old(self)@.execute(
                Instruction::TransferAccumulatorToX(AddressingMode::Implied),
            ),
            *final(cycles) == *old(cycles) - 1,
            final(self).x == old(self).accumulator,
            final(self).zero == zero_of(final(self).x),
            final(self).negative == negative_of(final(self).x),
            image(final(final(self).memory)) == image(final(old(self).memory)),
    {
        let value = self.accumulator;
        self.x = value;
        self.zero = value == 0;
        proof {
            lemma_masks(value);
        }
        self.negative = (value & 0x80) != 0;
        *cycles -= 1;
    }

    /// Copies the accumulator into Y, sets zero and negative from it, and charges one
    /// cycle.
    fn transfer_accumulator_to_y(&mut self, cycles: &mut isize)
        requires
            *old(cycles) > isize::MIN,
        ensures
            final(self)@ == old(self)@.execute(
                Instruction::TransferAccumulatorToY(AddressingMode::Implied),
            ),
            *final(cycles) == *old(cycles) - 1,
            final(self).y == old(self).accumulator,
            final(self).zero == zero_of(final(self).y),
            final(self).negative == negative_of(final(self).y),
            image(final(final(self).memory)) == image(final(old(self).memory)),
    {
        let value = self.accumulator;
        self.y = value;
        self.zero = value == 0;
        proof {
            lemma_masks(value);
        }
        self.negative = (value & 0x80) != 0;
        *cycles -= 1;
    }

    /// Copies the stack pointer into X, sets zero and negative from it, and charges one
    /// cycle.
    fn transfer_stack_pointer_to_x(&mut self, cycles: &mut isize)
        requires
            *old(cycles) > isize::MIN,
        ensures
            final(self)@ == old(self)@.execute(
                Instruction::TransferStackpointerToX(AddressingMode::Implied),
            ),
            *final(cycles) == *old(cycles) - 1,
            final(self).x == old(self).stack_pointer,
            final(self).zero == zero_of(final(self).x),
            final(self).negative == negative_of(final(self).x),
            image(final(final(self).memory)) == image(final(old(self).memory)),
    {
        let value = self.stack_pointer;
        self.x = value;
        self.zero = value == 0;
        proof {
            lemma_masks(value);
        }
        self.negative = (value & 0x80) != 0;
        *cycles -= 1;
    }

    /// Copies X into the accumulator, sets zero and negative from it, and charges one
    /// cycle.
    fn transfer_x_to_accumulator(&mut self, cycles: &mut isize)
        requires
            *old(cycles) > isize::MIN,
        ensures
            final(self)@ == old(self)@.execute(
                Instruction::TransferXToAccumulator(AddressingMode::Implied),
            ),
            *final(cycles) == *old(cycles) - 1,
            final(self).accumulator == old(self).x,
            final(self).zero == zero_of(final(self).accumulator),
            final(self).negative == negative_of(final(self).accumulator),
            image(final(final(self).memory)) == image(final(old(self).memory)),
    {
        let value = self.x;
        self.accumulator = value;
        self.zero = value == 0;
        proof {
            lemma_masks(value);
        }
        self.negative = (value & 0x80) != 0;
        *cycles -= 1;
    }

    /// Copies X into the stack pointer, sets zero and negative from it, and charges one
    /// cycle.
    fn transfer_x_to_stack_pointr(&mut self, cycles: &mut isize)
        requires
            *old(cycles) > isize::MIN,
        ensures
            final(self)@ == old(self)@.execute(
                Instruction::TransferXToStackpointer(AddressingMode::Implied),
            ),
            *final(cycles) == *old(cycles) - 1,
            final(self).stack_pointer == old(self).x,
            final(self).zero == zero_of(final(self).stack_pointer),
            final(self).negative == negative_of(final(self).stack_pointer),
            image(final(final(self).memory)) == image(final(old(self).memory)),
    {
        let value = self.x;
        self.stack_pointer = value;
        self.zero = value == 0;
        proof {
            lemma_masks(value);
        }
        self.negative = (value & 0x80) != 0;
        *cycles -= 1;
    }

    /// Copies Y into the accumulator, sets zero and negative from it, and charges one
    /// cycle.
    fn transfer_y_to_accumulator(&mut self, cycles: &mut isize)
        requires
            *old(cycles) > isize::MIN,
        ensures
            final(self)@ == old(self)@.execute(
                Instruction::TransferYToAccumulator(AddressingMode::Implied),
            ),
            *final(cycles) == *old(cycles) - 1,
            final(self).accumulator == old(self).y,
            final(self).zero == zero_of(final(self).accumulator),
            final(self).negative == negative_of(final(self).accumulator),
            image(final(final(self).memory)) == image(final(old(self).memory)),
    {
        let value = self.y;
        self.accumulator = value;
        self.zero = value == 0;
        proof {
            lemma_masks(value);
        }
        self.negative = (value & 0x80) != 0;
        *cycles -= 1;
    }

    /// Pushes the accumulator.
    fn push_accumulator(&mut self, cycles: &mut isize)
        requires
            *old(cycles) - 2 >= isize::MIN,
        ensures
            final(self)@ == old(self)@.pushed(old(self).accumulator),
            *final(cycles) == *old(cycles) - 2,
            image(final(final(self).memory)) == image(final(old(self).memory)),
    {
        self.push_stack(cycles, self.accumulator);
    }

    /// Pushes the packed status byte.
    fn push_processor_status(&mut self, cycles: &mut isize)
        requires
            *old(cycles) - 2 >= isize::MIN,
        ensures
            final(self)@ == old(self)@.pushed(old(self)@.status_byte()),
            *final(cycles) == *old(cycles) - 2,
            image(final(final(self).memory)) == image(final(old(self).memory)),
    {
        let status = self.get_processor_status();
        self.push_stack(cycles, status);
    }

    /// Pulls a byte into the accumulator and sets zero and negative from it; three cycles
    /// in all.
    fn pull_accumulator(&mut self, cycles: &mut isize)
        requires
            *old(cycles) - 3 >= isize::MIN,
        ensures
            final(self)@ == old(self)@.execute(
                Instruction::PullAccumulator(AddressingMode::Implied),
            ),
            *final(cycles) == *old(cycles) - 3,
            final(self).accumulator == old(self)@.stack_top(),
            final(self).zero == zero_of(final(self).accumulator),
            final(self).negative == negative_of(final(self).accumulator),
            image(final(final(self).memory)) == image(final(old(self).memory)),
    {
        let value = self.pop_stack(cycles);
        self.accumulator = value;
        self.zero = value == 0;
        proof {
            lemma_masks(value);
        }
        self.negative = (value & 0x80) != 0;
        *cycles -= 1;
    }

    /// Pulls a byte and takes the seven flags from it; three cycles in all.
    fn pull_processor_status(&mut self, cycles: &mut isize)
        requires
            *old(cycles) - 3 >= isize::MIN,
        ensures
            final(self)@ == old(self)@.pulled().with_status(old(self)@.stack_top()),
            *final(cycles) == *old(cycles) - 3,
            image(final(final(self).memory)) == image(final(old(self).memory)),
    {
        let value = self.pop_stack(cycles);
        self.set_processor_status(value);
        *cycles -= 1;
    }

    /// Replaces the accumulator by its bitwise and with the operand, and sets zero and
    /// negative from the result.
    fn and(&mut self, cycles: &mut isize, mode: AddressingMode)
        requires
            mode.yields_value(),
            *old(cycles) - old(self)@.operand_cycles(mode, true) >= isize::MIN,
        ensures
            final(self)@ == old(self)@.execute(Instruction::And(mode)),
            *final(cycles) == *old(cycles) - old(self)@.operand_cycles(mode, true),
            final(self).accumulator == old(self).accumulator & old(self)@.operand(mode),
            final(self).zero == zero_of(final(self).accumulator),
            final(self).negative == negative_of(final(self).accumulator),
            image(final(final(self).memory)) == image(final(old(self).memory)),
    {
        let value = self.get_value(true, cycles, mode);
        let result = self.accumulator & value;
        self.accumulator = result;
        self.zero = result == 0;
        proof {
            lemma_masks(result);
        }
        self.negative = (result & 0x80) != 0;
    }

    /// Replaces the accumulator by its bitwise exclusive or with the operand, and sets zero
    /// and negative from the result.
    fn exclusive_or(&mut self, cycles: &mut isize, mode: AddressingMode)
        requires
            mode.yields_value(),
            *old(cycles) - old(self)@.operand_cycles(mode, true) >= isize::MIN,
        ensures
            final(self)@ == old(self)@.execute(Instruction::ExclusiveOr(mode)),
            *final(cycles) == *old(cycles) - old(self)@.operand_cycles(mode, true),
            final(self).accumulator == old(self).accumulator ^ old(self)@.operand(mode),
            final(self).zero == zero_of(final(self).accumulator),
            final(self).negative == negative_of(final(self).accumulator),
            image(final(final(self).memory)) == image(final(old(self).memory)),
    {
        let value = self.get_value(true, cycles, mode);
        let result = self.accumulator ^ value;
        self.accumulator = result;
        self.zero = result == 0;
        proof {
            lemma_masks(result);
        }
        self.negative = (result & 0x80) != 0;
    }

    /// Replaces the accumulator by its bitwise or with the operand, and sets zero and
    /// negative from the result.
    fn or_with_accumulator(&mut self, cycles: &mut isize, mode: AddressingMode)
        requires
            mode.yields_value(),
            *old(cycles) - old(self)@.operand_cycles(mode, true) >= isize::MIN,
        ensures
            final(self)@ == old(self)@.execute(Instruction::OrWithAccumulator(mode)),
            *final(cycles) == *old(cycles) - old(self)@.operand_cycles(mode, true),
            final(self).accumulator == old(self).accumulator | old(self)@.operand(mode),
            final(self).zero == zero_of(final(self).accumulator),
            final(self).negative == negative_of(final(self).accumulator),
            image(final(final(self).memory)) == image(final(old(self).memory)),
    {
        let value = self.get_value(true, cycles, mode);
        let result = self.accumulator | value;
        self.accumulator = result;
        self.zero = result == 0;
        proof {
            lemma_masks(result);
        }
        self.negative = (result & 0x80) != 0;
    }

    /// Tests the operand against the accumulator: zero says whether they share no bit,
    /// negative and overflow are bits 7 and 6 of the operand. The accumulator stays as it
    /// is.
    fn bittest(&mut self, cycles: &mut isize, mode: AddressingMode)
        requires
            mode.yields_value(),
            *old(cycles) - old(self)@.operand_cycles(mode, true) >= isize::MIN,
        ensures
            final(self)@ == old(self)@.execute(Instruction::BitTest(mode)),
            *final(cycles) == *old(cycles) - old(self)@.operand_cycles(mode, true),
            final(self).accumulator == old(self).accumulator,
            final(self).zero == zero_of(old(self).accumulator & old(self)@.operand(mode)),
            final(self).negative == has_bit(old(self)@.operand(mode), 0x80),
            final(self).overflow == has_bit(old(self)@.operand(mode), 0x40),
            image(final(final(self).memory)) == image(final(old(self).memory)),
    {
        let value = self.get_value(true, cycles, mode);
        let result = self.accumulator & value;
        self.zero = result == 0;
        proof {
            lemma_masks(value);
        }
        self.negative = (value & 0x80) != 0;
        self.overflow = (value & 0x40) != 0;
    }
}

} // verus!
