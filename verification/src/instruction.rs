use vstd::prelude::*;
use vstd::string::StringExecFns;

verus! {

/// The rule by which an instruction finds its operand.
#[derive(Copy, Clone, Debug, PartialEq, Eq, Structural)]
pub enum AddressingMode {
    Accumulator,
    Absolute,
    AbsoluteXIndexed,
    AbsoluteYIndexed,
    Immediate,
    Implied,
    Indirect,
    XIndexedIndirect,
    IndirectYIndexed,
    Relative,
    Zeropage,
    ZeropageXIndexed,
    ZeropageYIndexed,
}

impl AddressingMode {
    /// The three modes that go through a pointer held in memory. The processor has no
    /// behaviour for them yet, so no instruction may be executed with one of them.
    pub open spec fn is_indirect(self) -> bool {
        self is Indirect || self is XIndexedIndirect || self is IndirectYIndexed
    }

    /// Whether the mode names a place in memory. Accumulator and Immediate name a value
    /// instead, and Implied names nothing.
    pub open spec fn yields_address(self) -> bool {
        self is Absolute || self is AbsoluteXIndexed || self is AbsoluteYIndexed
            || self is Relative || self is Zeropage || self is ZeropageXIndexed
            || self is ZeropageYIndexed
    }

    /// Whether an operand byte can be read through the mode.
    pub open spec fn yields_value(self) -> bool {
        self.yields_address() || self is Accumulator || self is Immediate
    }

    /// How many bytes behind the opcode hold the operand.
    pub open spec fn operand_length(self) -> int {
        match self {
            AddressingMode::Absolute
            | AddressingMode::AbsoluteXIndexed
            | AddressingMode::AbsoluteYIndexed => 2,
            AddressingMode::Immediate
            | AddressingMode::Relative
            | AddressingMode::Zeropage
            | AddressingMode::ZeropageXIndexed
            | AddressingMode::ZeropageYIndexed => 1,
            _ => 0,
        }
    }

    /// The mode's name as it is shown to a reader. The accumulator mode is shown as
    /// "Implied".
    pub open spec fn text(self) -> Seq<char> {
        match self {
            AddressingMode::Accumulator => "Implied"@,
            AddressingMode::Absolute => "Absolute"@,
            AddressingMode::AbsoluteXIndexed => "Absolute x indexed"@,
            AddressingMode::AbsoluteYIndexed => "Absolute y indexed"@,
            AddressingMode::Immediate => "Immediate"@,
            AddressingMode::Implied => "Implied"@,
            AddressingMode::Indirect => "Indirect"@,
            AddressingMode::XIndexedIndirect => "X indexed indirect"@,
            AddressingMode::IndirectYIndexed => "Indirect y indexed"@,
            AddressingMode::Relative => "Relative"@,
            AddressingMode::Zeropage => "Zeropage"@,
            AddressingMode::ZeropageXIndexed => "Zeropage x indexed"@,
            AddressingMode::ZeropageYIndexed => "Zeropage y indexed"@,
        }
    }

    /// Whether the mode names a place in memory.
    pub fn has_address(&self) -> (yes: bool)
        ensures
            yes == self.yields_address(),
    {
        match self {
            AddressingMode::Absolute
            | AddressingMode::AbsoluteXIndexed
            | AddressingMode::AbsoluteYIndexed
            | AddressingMode::Relative
            | AddressingMode::Zeropage
            | AddressingMode::ZeropageXIndexed
            | AddressingMode::ZeropageYIndexed => true,
            _ => false,
        }
    }

    /// Whether an operand byte can be read through the mode.
    pub fn has_value(&self) -> (yes: bool)
        ensures
            yes == self.yields_value(),
    {
        match self {
            AddressingMode::Accumulator | AddressingMode::Immediate => true,
            _ => self.has_address(),
        }
    }

    /// The mode's name as a string slice.
    pub fn name(&self) -> (name: &'static str)
        ensures
            name@ == self.text(),
    {
        match self {
            AddressingMode::Accumulator => "Implied",
            AddressingMode::Absolute => "Absolute",
            AddressingMode::AbsoluteXIndexed => "Absolute x indexed",
            AddressingMode::AbsoluteYIndexed => "Absolute y indexed",
            AddressingMode::Immediate => "Immediate",
            AddressingMode::Implied => "Implied",
            AddressingMode::Indirect => "Indirect",
            AddressingMode::XIndexedIndirect => "X indexed indirect",
            AddressingMode::IndirectYIndexed => "Indirect y indexed",
            AddressingMode::Relative => "Relative",
            AddressingMode::Zeropage => "Zeropage",
            AddressingMode::ZeropageXIndexed => "Zeropage x indexed",
            AddressingMode::ZeropageYIndexed => "Zeropage y indexed",
        }
    }

    /// The mode's name as an owned string.
    pub fn to_string(&self) -> (shown: String)
        ensures
            shown@ == self.text(),
    {
        String::from_str(self.name())
    }
}

/// One operation of the processor together with the addressing mode it is used with.
#[derive(Copy, Clone, Debug, PartialEq, Eq, Structural)]
pub enum Instruction {
    AddWithCarry(AddressingMode),
    And(AddressingMode),
    ArithmeticShiftLeft(AddressingMode),
    BranchOnCarryClear(AddressingMode),
    BranchOnCarrySet(AddressingMode),
    BranchOnEqual(AddressingMode),
    BitTest(AddressingMode),
    BranchOnMinus(AddressingMode),
    BranchOnNotEqual(AddressingMode),
    BranchOnPlus(AddressingMode),
    Break(AddressingMode),
    BranchOnOverflowClear(AddressingMode),
    BranchOnOverflowSet(AddressingMode),
    ClearCarry(AddressingMode),
    ClearDecimal(AddressingMode),
    ClearInterruptDisable(AddressingMode),
    ClearOverflow(AddressingMode),
    Compare(AddressingMode),
    CompareWithX(AddressingMode),
    CompareWithY(AddressingMode),
    Decrement(AddressingMode),
    DecrementX(AddressingMode),
    DecrementY(AddressingMode),
    ExclusiveOr(AddressingMode),
    Increment(AddressingMode),
    IncrementX(AddressingMode),
    IncrementY(AddressingMode),
    Jump(AddressingMode),
    JumpSubroutine(AddressingMode),
    LoadAccumulator(AddressingMode),
    LoadX(AddressingMode),
    LoadY(AddressingMode),
    LogicalShiftRight(AddressingMode),
    NoOperation(AddressingMode),
    OrWithAccumulator(AddressingMode),
    PushAccumulator(AddressingMode),
    PushProcessorStatus(AddressingMode),
    PullAccumulator(AddressingMode),
    PullProcessorStatus(AddressingMode),
    RotateLeft(AddressingMode),
    RotateRight(AddressingMode),
    ReturnFormInterrupt(AddressingMode),
    ReturnFromSubroutine(AddressingMode),
    SubtractWithCarry(AddressingMode),
    SetCarry(AddressingMode),
    SetDecimal(AddressingMode),
    SetInterruptDisable(AddressingMode),
    StoreAccumulator(AddressingMode),
    StoreX(AddressingMode),
    StoreY(AddressingMode),
    TransferAccumulatorToX(AddressingMode),
    TransferAccumulatorToY(AddressingMode),
    TransferStackpointerToX(AddressingMode),
    TransferXToAccumulator(AddressingMode),
    TransferXToStackpointer(AddressingMode),
    TransferYToAccumulator(AddressingMode),
}

impl Instruction {
    /// The addressing mode the instruction carries.
    pub open spec fn mode(self) -> AddressingMode {
        match self {
            Instruction::AddWithCarry(mode) => mode,
            Instruction::And(mode) => mode,
            Instruction::ArithmeticShiftLeft(mode) => mode,
            Instruction::BranchOnCarryClear(mode) => mode,
            Instruction::BranchOnCarrySet(mode) => mode,
            Instruction::BranchOnEqual(mode) => mode,
            Instruction::BitTest(mode) => mode,
            Instruction::BranchOnMinus(mode) => mode,
            Instruction::BranchOnNotEqual(mode) => mode,
            Instruction::BranchOnPlus(mode) => mode,
            Instruction::Break(mode) => mode,
            Instruction::BranchOnOverflowClear(mode) => mode,
            Instruction::BranchOnOverflowSet(mode) => mode,
            Instruction::ClearCarry(mode) => mode,
            Instruction::ClearDecimal(mode) => mode,
            Instruction::ClearInterruptDisable(mode) => mode,
            Instruction::ClearOverflow(mode) => mode,
            Instruction::Compare(mode) => mode,
            Instruction::CompareWithX(mode) => mode,
            Instruction::CompareWithY(mode) => mode,
            Instruction::Decrement(mode) => mode,
            Instruction::DecrementX(mode) => mode,
            Instruction::DecrementY(mode) => mode,
            Instruction::ExclusiveOr(mode) => mode,
            Instruction::Increment(mode) => mode,
            Instruction::IncrementX(mode) => mode,
            Instruction::IncrementY(mode) => mode,
            Instruction::Jump(mode) => mode,
            Instruction::JumpSubroutine(mode) => mode,
            Instruction::LoadAccumulator(mode) => mode,
            Instruction::LoadX(mode) => mode,
            Instruction::LoadY(mode) => mode,
            Instruction::LogicalShiftRight(mode) => mode,
            Instruction::NoOperation(mode) => mode,
            Instruction::OrWithAccumulator(mode) => mode,
            Instruction::PushAccumulator(mode) => mode,
            Instruction::PushProcessorStatus(mode) => mode,
            Instruction::PullAccumulator(mode) => mode,
            Instruction::PullProcessorStatus(mode) => mode,
            Instruction::RotateLeft(mode) => mode,
            Instruction::RotateRight(mode) => mode,
            Instruction::ReturnFormInterrupt(mode) => mode,
            Instruction::ReturnFromSubroutine(mode) => mode,
            Instruction::SubtractWithCarry(mode) => mode,
            Instruction::SetCarry(mode) => mode,
            Instruction::SetDecimal(mode) => mode,
            Instruction::SetInterruptDisable(mode) => mode,
            Instruction::StoreAccumulator(mode) => mode,
            Instruction::StoreX(mode) => mode,
            Instruction::StoreY(mode) => mode,
            Instruction::TransferAccumulatorToX(mode) => mode,
            Instruction::TransferAccumulatorToY(mode) => mode,
            Instruction::TransferStackpointerToX(mode) => mode,
            Instruction::TransferXToAccumulator(mode) => mode,
            Instruction::TransferXToStackpointer(mode) => mode,
            Instruction::TransferYToAccumulator(mode) => mode,
        }
    }

    /// The operation's name as it is shown to a reader, without the addressing mode.
    pub open spec fn label(self) -> Seq<char> {
        match self {
            Instruction::AddWithCarry(_) => "Add with carry"@,
            Instruction::And(_) => "And"@,
            Instruction::ArithmeticShiftLeft(_) => "Arithmetic shift left"@,
            Instruction::BranchOnCarryClear(_) => "Branch on carry clear"@,
            Instruction::BranchOnCarrySet(_) => "Branch on carry set"@,
            Instruction::BranchOnEqual(_) => "Branch on equal"@,
            Instruction::BitTest(_) => "Bit tests"@,
            Instruction::BranchOnMinus(_) => "Branch on minus"@,
            Instruction::BranchOnNotEqual(_) => "Branch on not equal"@,
            Instruction::BranchOnPlus(_) => "Branch on plus"@,
            Instruction::Break(_) => "Break"@,
            Instruction::BranchOnOverflowClear(_) => "Branch on overflow clear"@,
            Instruction::BranchOnOverflowSet(_) => "Branch on overflow set"@,
            Instruction::ClearCarry(_) => "Clear carry"@,
            Instruction::ClearDecimal(_) => "Clear decimal"@,
            Instruction::ClearInterruptDisable(_) => "Clear interrupt disable"@,
            Instruction::ClearOverflow(_) => "Clear overflow"@,
            Instruction::Compare(_) => "Compare"@,
            Instruction::CompareWithX(_) => "Compare with x"@,
            Instruction::CompareWithY(_) => "Compare with y"@,
            Instruction::Decrement(_) => "Decrement"@,
            Instruction::DecrementX(_) => "Decrement x"@,
            Instruction::DecrementY(_) => "Decrement y"@,
            Instruction::ExclusiveOr(_) => "Exclusive or"@,
            Instruction::Increment(_) => "Increment"@,
            Instruction::IncrementX(_) => "Increment x"@,
            Instruction::IncrementY(_) => "Increment y"@,
            Instruction::Jump(_) => "Jump"@,
            Instruction::JumpSubroutine(_) => "Jump subroutine"@,
            Instruction::LoadAccumulator(_) => "Load accumulator"@,
            Instruction::LoadX(_) => "Load x"@,
            Instruction::LoadY(_) => "Load y"@,
            Instruction::LogicalShiftRight(_) => "Logical shift right"@,
            Instruction::NoOperation(_) => "No operation"@,
            Instruction::OrWithAccumulator(_) => "Or with accumulator"@,
            Instruction::PushAccumulator(_) => "Push accumulator"@,
            Instruction::PushProcessorStatus(_) => "Push processor status"@,
            Instruction::PullAccumulator(_) => "Pull accumulator"@,
            Instruction::PullProcessorStatus(_) => "Pull processor status"@,
            Instruction::RotateLeft(_) => "Rotate left"@,
            Instruction::RotateRight(_) => "Rotate right"@,
            Instruction::ReturnFormInterrupt(_) => "Return from interrupt"@,
            Instruction::ReturnFromSubroutine(_) => "Return from subroutine"@,
            Instruction::SubtractWithCarry(_) => "Subtract with carry"@,
            Instruction::SetCarry(_) => "Set carry"@,
            Instruction::SetDecimal(_) => "Set decimal"@,
            Instruction::SetInterruptDisable(_) => "Set interrupt disable"@,
            Instruction::StoreAccumulator(_) => "Store accumulator"@,
            Instruction::StoreX(_) => "Store x"@,
            Instruction::StoreY(_) => "Store y"@,
            Instruction::TransferAccumulatorToX(_) => "Transfer accumulator to x"@,
            Instruction::TransferAccumulatorToY(_) => "Transfer accumulator to y"@,
            Instruction::TransferStackpointerToX(_) => "Transfer stackpointer to x"@,
            Instruction::TransferXToAccumulator(_) => "Transfer x to accumulator"@,
            Instruction::TransferXToStackpointer(_) => "Transfer x to stackpointer"@,
            Instruction::TransferYToAccumulator(_) => "Transfer y to accumulator"@,
        }
    }

    /// What a reader is shown for the instruction: the operation's name, a colon and a
    /// space, and the name of the addressing mode.
    pub open spec fn text(self) -> Seq<char> {
        self.label() + ": "@ + self.mode().text()
    }

    /// The addressing mode the instruction carries.
    pub fn addressing_mode(&self) -> (mode: AddressingMode)
        ensures
            mode == self.mode(),
    {
        match self {
            Instruction::AddWithCarry(mode) => *mode,
            Instruction::And(mode) => *mode,
            Instruction::ArithmeticShiftLeft(mode) => *mode,
            Instruction::BranchOnCarryClear(mode) => *mode,
            Instruction::BranchOnCarrySet(mode) => *mode,
            Instruction::BranchOnEqual(mode) => *mode,
            Instruction::BitTest(mode) => *mode,
            Instruction::BranchOnMinus(mode) => *mode,
            Instruction::BranchOnNotEqual(mode) => *mode,
            Instruction::BranchOnPlus(mode) => *mode,
            Instruction::Break(mode) => *mode,
            Instruction::BranchOnOverflowClear(mode) => *mode,
            Instruction::BranchOnOverflowSet(mode) => *mode,
            Instruction::ClearCarry(mode) => *mode,
            Instruction::ClearDecimal(mode) => *mode,
            Instruction::ClearInterruptDisable(mode) => *mode,
            Instruction::ClearOverflow(mode) => *mode,
            Instruction::Compare(mode) => *mode,
            Instruction::CompareWithX(mode) => *mode,
            Instruction::CompareWithY(mode) => *mode,
            Instruction::Decrement(mode) => *mode,
            Instruction::DecrementX(mode) => *mode,
            Instruction::DecrementY(mode) => *mode,
            Instruction::ExclusiveOr(mode) => *mode,
            Instruction::Increment(mode) => *mode,
            Instruction::IncrementX(mode) => *mode,
            Instruction::IncrementY(mode) => *mode,
            Instruction::Jump(mode) => *mode,
            Instruction::JumpSubroutine(mode) => *mode,
            Instruction::LoadAccumulator(mode) => *mode,
            Instruction::LoadX(mode) => *mode,
            Instruction::LoadY(mode) => *mode,
            Instruction::LogicalShiftRight(mode) => *mode,
            Instruction::NoOperation(mode) => *mode,
            Instruction::OrWithAccumulator(mode) => *mode,
            Instruction::PushAccumulator(mode) => *mode,
            Instruction::PushProcessorStatus(mode) => *mode,
            Instruction::PullAccumulator(mode) => *mode,
            Instruction::PullProcessorStatus(mode) => *mode,
            Instruction::RotateLeft(mode) => *mode,
            Instruction::RotateRight(mode) => *mode,
            Instruction::ReturnFormInterrupt(mode) => *mode,
            Instruction::ReturnFromSubroutine(mode) => *mode,
            Instruction::SubtractWithCarry(mode) => *mode,
            Instruction::SetCarry(mode) => *mode,
            Instruction::SetDecimal(mode) => *mode,
            Instruction::SetInterruptDisable(mode) => *mode,
            Instruction::StoreAccumulator(mode) => *mode,
            Instruction::StoreX(mode) => *mode,
            Instruction::StoreY(mode) => *mode,
            Instruction::TransferAccumulatorToX(mode) => *mode,
            Instruction::TransferAccumulatorToY(mode) => *mode,
            Instruction::TransferStackpointerToX(mode) => *mode,
            Instruction::TransferXToAccumulator(mode) => *mode,
            Instruction::TransferXToStackpointer(mode) => *mode,
            Instruction::TransferYToAccumulator(mode) => *mode,
        }
    }

    /// Whether the processor has behaviour for the instruction with the mode it carries.
    pub open spec fn executable(self) -> bool {
        match self {
            Instruction::And(mode)
            | Instruction::BitTest(mode)
            | Instruction::ExclusiveOr(mode)
            | Instruction::LoadAccumulator(mode)
            | Instruction::LoadX(mode)
            | Instruction::LoadY(mode)
            | Instruction::OrWithAccumulator(mode) => mode.yields_value(),
            Instruction::StoreAccumulator(mode)
            | Instruction::StoreX(mode)
            | Instruction::StoreY(mode) => mode.yields_address(),
            _ => true,
        }
    }

    /// Whether the processor has behaviour for the instruction with the mode it carries:
    /// one that reads an operand needs a mode that yields a value, one that writes needs
    /// a mode that yields an address, and every other instruction can be executed.
    pub fn is_executable(&self) -> (ready: bool)
        ensures
            ready == self.executable(),
    {
        match self {
            Instruction::And(mode)
            | Instruction::BitTest(mode)
            | Instruction::ExclusiveOr(mode)
            | Instruction::LoadAccumulator(mode)
            | Instruction::LoadX(mode)
            | Instruction::LoadY(mode)
            | Instruction::OrWithAccumulator(mode) => mode.has_value(),
            Instruction::StoreAccumulator(mode)
            | Instruction::StoreX(mode)
            | Instruction::StoreY(mode) => mode.has_address(),
            _ => true,
        }
    }

    /// The operation's name as a string slice.
    pub fn name(&self) -> (name: &'static str)
        ensures
            name@ == self.label(),
    {
        match self {
            Instruction::AddWithCarry(_) => "Add with carry",
            Instruction::And(_) => "And",
            Instruction::ArithmeticShiftLeft(_) => "Arithmetic shift left",
            Instruction::BranchOnCarryClear(_) => "Branch on carry clear",
            Instruction::BranchOnCarrySet(_) => "Branch on carry set",
            Instruction::BranchOnEqual(_) => "Branch on equal",
            Instruction::BitTest(_) => "Bit tests",
            Instruction::BranchOnMinus(_) => "Branch on minus",
            Instruction::BranchOnNotEqual(_) => "Branch on not equal",
            Instruction::BranchOnPlus(_) => "Branch on plus",
            Instruction::Break(_) => "Break",
            Instruction::BranchOnOverflowClear(_) => "Branch on overflow clear",
            Instruction::BranchOnOverflowSet(_) => "Branch on overflow set",
            Instruction::ClearCarry(_) => "Clear carry",
            Instruction::ClearDecimal(_) => "Clear decimal",
            Instruction::ClearInterruptDisable(_) => "Clear interrupt disable",
            Instruction::ClearOverflow(_) => "Clear overflow",
            Instruction::Compare(_) => "Compare",
            Instruction::CompareWithX(_) => "Compare with x",
            Instruction::CompareWithY(_) => "Compare with y",
            Instruction::Decrement(_) => "Decrement",
            Instruction::DecrementX(_) => "Decrement x",
            Instruction::DecrementY(_) => "Decrement y",
            Instruction::ExclusiveOr(_) => "Exclusive or",
            Instruction::Increment(_) => "Increment",
            Instruction::IncrementX(_) => "Increment x",
            Instruction::IncrementY(_) => "Increment y",
            Instruction::Jump(_) => "Jump",
            Instruction::JumpSubroutine(_) => "Jump subroutine",
            Instruction::LoadAccumulator(_) => "Load accumulator",
            Instruction::LoadX(_) => "Load x",
            Instruction::LoadY(_) => "Load y",
            Instruction::LogicalShiftRight(_) => "Logical shift right",
            Instruction::NoOperation(_) => "No operation",
            Instruction::OrWithAccumulator(_) => "Or with accumulator",
            Instruction::PushAccumulator(_) => "Push accumulator",
            Instruction::PushProcessorStatus(_) => "Push processor status",
            Instruction::PullAccumulator(_) => "Pull accumulator",
            Instruction::PullProcessorStatus(_) => "Pull processor status",
            Instruction::RotateLeft(_) => "Rotate left",
            Instruction::RotateRight(_) => "Rotate right",
            Instruction::ReturnFormInterrupt(_) => "Return from interrupt",
            Instruction::ReturnFromSubroutine(_) => "Return from subroutine",
            Instruction::SubtractWithCarry(_) => "Subtract with carry",
            Instruction::SetCarry(_) => "Set carry",
            Instruction::SetDecimal(_) => "Set decimal",
            Instruction::SetInterruptDisable(_) => "Set interrupt disable",
            Instruction::StoreAccumulator(_) => "Store accumulator",
            Instruction::StoreX(_) => "Store x",
            Instruction::StoreY(_) => "Store y",
            Instruction::TransferAccumulatorToX(_) => "Transfer accumulator to x",
            Instruction::TransferAccumulatorToY(_) => "Transfer accumulator to y",
            Instruction::TransferStackpointerToX(_) => "Transfer stackpointer to x",
            Instruction::TransferXToAccumulator(_) => "Transfer x to accumulator",
            Instruction::TransferXToStackpointer(_) => "Transfer x to stackpointer",
            Instruction::TransferYToAccumulator(_) => "Transfer y to accumulator",
        }
    }

    /// The instruction as an owned string.
    pub fn to_string(&self) -> (shown: String)
        ensures
            shown@ == self.text(),
    {
        let mode = self.addressing_mode();
        String::from_str(self.name()).concat(": ").concat(mode.name())
    }

    /// The opcode map: the instruction that each byte stands for, and `None` for the
    /// bytes that stand for none.
    pub open spec fn opcode_table(opcode: u8) -> Option<Instruction> {
        match opcode {
            0x00 => Some(Instruction::Break(AddressingMode::Implied)),
            0x01 => Some(Instruction::OrWithAccumulator(AddressingMode::XIndexedIndirect)),
            0x05 => Some(Instruction::OrWithAccumulator(AddressingMode::Zeropage)),
            0x06 => Some(Instruction::ArithmeticShiftLeft(AddressingMode::Zeropage)),
            0x08 => Some(Instruction::PushProcessorStatus(AddressingMode::Implied)),
            0x09 => Some(Instruction::OrWithAccumulator(AddressingMode::Immediate)),
            0x0A => Some(Instruction::ArithmeticShiftLeft(AddressingMode::Accumulator)),
            0x0D => Some(Instruction::OrWithAccumulator(AddressingMode::Absolute)),
            0x0E => Some(Instruction::ArithmeticShiftLeft(AddressingMode::Absolute)),
            0x10 => Some(Instruction::BranchOnPlus(AddressingMode::Relative)),
            0x11 => Some(Instruction::OrWithAccumulator(AddressingMode::IndirectYIndexed)),
            0x15 => Some(Instruction::OrWithAccumulator(AddressingMode::ZeropageXIndexed)),
            0x16 => Some(Instruction::ArithmeticShiftLeft(AddressingMode::ZeropageXIndexed)),
            0x18 => Some(Instruction::ClearCarry(AddressingMode::Implied)),
            0x19 => Some(Instruction::OrWithAccumulator(AddressingMode::AbsoluteYIndexed)),
            0x1D => Some(Instruction::OrWithAccumulator(AddressingMode::AbsoluteXIndexed)),
            0x1E => Some(Instruction::ArithmeticShiftLeft(AddressingMode::AbsoluteXIndexed)),
            0x20 => Some(Instruction::JumpSubroutine(AddressingMode::Absolute)),
            0x21 => Some(Instruction::And(AddressingMode::XIndexedIndirect)),
            0x24 => Some(Instruction::BitTest(AddressingMode::Zeropage)),
            0x25 => Some(Instruction::And(AddressingMode::Zeropage)),
            0x26 => Some(Instruction::RotateLeft(AddressingMode::Zeropage)),
            0x28 => Some(Instruction::PullProcessorStatus(AddressingMode::Implied)),
            0x29 => Some(Instruction::And(AddressingMode::Immediate)),
            0x2A => Some(Instruction::RotateLeft(AddressingMode::Accumulator)),
            0x2C => Some(Instruction::BitTest(AddressingMode::Absolute)),
            0x2D => Some(Instruction::And(AddressingMode::Absolute)),
            0x2E => Some(Instruction::RotateLeft(AddressingMode::Absolute)),
            0x30 => Some(Instruction::BranchOnMinus(AddressingMode::Relative)),
            0x31 => Some(Instruction::And(AddressingMode::IndirectYIndexed)),
            0x35 => Some(Instruction::And(AddressingMode::ZeropageXIndexed)),
            0x36 => Some(Instruction::RotateLeft(AddressingMode::ZeropageXIndexed)),
            0x38 => Some(Instruction::SetCarry(AddressingMode::Implied)),
            0x39 => Some(Instruction::And(AddressingMode::AbsoluteYIndexed)),
            0x3D => Some(Instruction::And(AddressingMode::AbsoluteXIndexed)),
            0x3E => Some(Instruction::RotateLeft(AddressingMode::AbsoluteXIndexed)),
            0x40 => Some(Instruction::ReturnFormInterrupt(AddressingMode::Implied)),
            0x41 => Some(Instruction::ExclusiveOr(AddressingMode::XIndexedIndirect)),
            0x45 => Some(Instruction::ExclusiveOr(AddressingMode::Zeropage)),
            0x46 => Some(Instruction::LogicalShiftRight(AddressingMode::Zeropage)),
            0x48 => Some(Instruction::PushAccumulator(AddressingMode::Implied)),
            0x49 => Some(Instruction::ExclusiveOr(AddressingMode::Immediate)),
            0x4A => Some(Instruction::LogicalShiftRight(AddressingMode::Accumulator)),
            0x4C => Some(Instruction::Jump(AddressingMode::Absolute)),
            0x4D => Some(Instruction::ExclusiveOr(AddressingMode::Absolute)),
            0x4E => Some(Instruction::LogicalShiftRight(AddressingMode::Absolute)),
            0x50 => Some(Instruction::BranchOnOverflowClear(AddressingMode::Relative)),
            0x51 => Some(Instruction::ExclusiveOr(AddressingMode::IndirectYIndexed)),
            0x55 => Some(Instruction::ExclusiveOr(AddressingMode::ZeropageXIndexed)),
            0x56 => Some(Instruction::LogicalShiftRight(AddressingMode::ZeropageXIndexed)),
            0x58 => Some(Instruction::ClearInterruptDisable(AddressingMode::Implied)),
            0x59 => Some(Instruction::ExclusiveOr(AddressingMode::AbsoluteYIndexed)),
            0x5D => Some(Instruction::ExclusiveOr(AddressingMode::AbsoluteXIndexed)),
            0x5E => Some(Instruction::LogicalShiftRight(AddressingMode::AbsoluteXIndexed)),
            0x60 => Some(Instruction::ReturnFromSubroutine(AddressingMode::Implied)),
            0x61 => Some(Instruction::AddWithCarry(AddressingMode::XIndexedIndirect)),
            0x65 => Some(Instruction::AddWithCarry(AddressingMode::Zeropage)),
            0x66 => Some(Instruction::RotateRight(AddressingMode::Zeropage)),
            0x68 => Some(Instruction::PullAccumulator(AddressingMode::Implied)),
            0x69 => Some(Instruction::AddWithCarry(AddressingMode::Immediate)),
            0x6A => Some(Instruction::RotateRight(AddressingMode::Accumulator)),
            0x6C => Some(Instruction::Jump(AddressingMode::Indirect)),
            0x6D => Some(Instruction::AddWithCarry(AddressingMode::Absolute)),
            0x6E => Some(Instruction::RotateRight(AddressingMode::Absolute)),
            0x70 => Some(Instruction::BranchOnOverflowSet(AddressingMode::Relative)),
            0x71 => Some(Instruction::AddWithCarry(AddressingMode::IndirectYIndexed)),
            0x75 => Some(Instruction::AddWithCarry(AddressingMode::ZeropageXIndexed)),
            0x76 => Some(Instruction::RotateRight(AddressingMode::ZeropageXIndexed)),
            0x78 => Some(Instruction::SetInterruptDisable(AddressingMode::Implied)),
            0x79 => Some(Instruction::AddWithCarry(AddressingMode::AbsoluteYIndexed)),
            0x7D => Some(Instruction::AddWithCarry(AddressingMode::AbsoluteXIndexed)),
            0x7E => Some(Instruction::RotateRight(AddressingMode::AbsoluteXIndexed)),
            0x81 => Some(Instruction::StoreAccumulator(AddressingMode::XIndexedIndirect)),
            0x84 => Some(Instruction::StoreY(AddressingMode::Zeropage)),
            0x85 => Some(Instruction::StoreAccumulator(AddressingMode::Zeropage)),
            0x86 => Some(Instruction::StoreX(AddressingMode::Zeropage)),
            0x88 => Some(Instruction::DecrementY(AddressingMode::Implied)),
            0x8A => Some(Instruction::TransferXToAccumulator(AddressingMode::Implied)),
            0x8C => Some(Instruction::StoreY(AddressingMode::Absolute)),
            0x8D => Some(Instruction::StoreAccumulator(AddressingMode::Absolute)),
            0x8E => Some(Instruction::StoreX(AddressingMode::Absolute)),
            0x90 => Some(Instruction::BranchOnCarryClear(AddressingMode::Relative)),
            0x91 => Some(Instruction::StoreAccumulator(AddressingMode::IndirectYIndexed)),
            0x94 => Some(Instruction::StoreY(AddressingMode::ZeropageXIndexed)),
            0x95 => Some(Instruction::StoreAccumulator(AddressingMode::ZeropageXIndexed)),
            0x96 => Some(Instruction::StoreX(AddressingMode::ZeropageYIndexed)),
            0x98 => Some(Instruction::TransferYToAccumulator(AddressingMode::Implied)),
            0x99 => Some(Instruction::StoreAccumulator(AddressingMode::AbsoluteYIndexed)),
            0x9A => Some(Instruction::TransferXToStackpointer(AddressingMode::Implied)),
            0x9D => Some(Instruction::StoreAccumulator(AddressingMode::AbsoluteXIndexed)),
            0xA0 => Some(Instruction::LoadY(AddressingMode::Immediate)),
            0xA1 => Some(Instruction::LoadAccumulator(AddressingMode::XIndexedIndirect)),
            0xA2 => Some(Instruction::LoadX(AddressingMode::Immediate)),
            0xA4 => Some(Instruction::LoadY(AddressingMode::Zeropage)),
            0xA5 => Some(Instruction::LoadAccumulator(AddressingMode::Zeropage)),
            0xA6 => Some(Instruction::LoadX(AddressingMode::Zeropage)),
            0xA8 => Some(Instruction::TransferAccumulatorToY(AddressingMode::Implied)),
            0xA9 => Some(Instruction::LoadAccumulator(AddressingMode::Immediate)),
            0xAA => Some(Instruction::TransferAccumulatorToX(AddressingMode::Implied)),
            0xAC => Some(Instruction::LoadY(AddressingMode::Absolute)),
            0xAD => Some(Instruction::LoadAccumulator(AddressingMode::Absolute)),
            0xAE => Some(Instruction::LoadX(AddressingMode::Absolute)),
            0xB0 => Some(Instruction::BranchOnCarrySet(AddressingMode::Relative)),
            0xB1 => Some(Instruction::LoadAccumulator(AddressingMode::IndirectYIndexed)),
            0xB4 => Some(Instruction::LoadY(AddressingMode::ZeropageXIndexed)),
            0xB5 => Some(Instruction::LoadAccumulator(AddressingMode::ZeropageXIndexed)),
            0xB6 => Some(Instruction::LoadX(AddressingMode::ZeropageYIndexed)),
            0xB8 => Some(Instruction::ClearOverflow(AddressingMode::Implied)),
            0xB9 => Some(Instruction::LoadAccumulator(AddressingMode::AbsoluteYIndexed)),
            0xBA => Some(Instruction::TransferStackpointerToX(AddressingMode::Implied)),
            0xBC => Some(Instruction::LoadY(AddressingMode::AbsoluteXIndexed)),
            0xBD => Some(Instruction::LoadAccumulator(AddressingMode::AbsoluteXIndexed)),
            0xBE => Some(Instruction::LoadX(AddressingMode::AbsoluteYIndexed)),
            0xC0 => Some(Instruction::CompareWithY(AddressingMode::Immediate)),
            0xC1 => Some(Instruction::Compare(AddressingMode::XIndexedIndirect)),
            0xC4 => Some(Instruction::CompareWithY(AddressingMode::Zeropage)),
            0xC5 => Some(Instruction::Compare(AddressingMode::Zeropage)),
            0xC6 => Some(Instruction::Decrement(AddressingMode::Zeropage)),
            0xC8 => Some(Instruction::IncrementY(AddressingMode::Implied)),
            0xC9 => Some(Instruction::Compare(AddressingMode::Immediate)),
            0xCA => Some(Instruction::DecrementX(AddressingMode::Implied)),
            0xCC => Some(Instruction::CompareWithY(AddressingMode::Absolute)),
            0xCD => Some(Instruction::Compare(AddressingMode::Absolute)),
            0xCE => Some(Instruction::Decrement(AddressingMode::Absolute)),
            0xD0 => Some(Instruction::BranchOnNotEqual(AddressingMode::Relative)),
            0xD1 => Some(Instruction::Compare(AddressingMode::IndirectYIndexed)),
            0xD5 => Some(Instruction::Compare(AddressingMode::ZeropageXIndexed)),
            0xD6 => Some(Instruction::Decrement(AddressingMode::ZeropageXIndexed)),
            0xD8 => Some(Instruction::ClearDecimal(AddressingMode::Implied)),
            0xD9 => Some(Instruction::Compare(AddressingMode::AbsoluteYIndexed)),
            0xDD => Some(Instruction::Compare(AddressingMode::AbsoluteXIndexed)),
            0xDE => Some(Instruction::Decrement(AddressingMode::AbsoluteXIndexed)),
            0xE0 => Some(Instruction::CompareWithX(AddressingMode::Immediate)),
            0xE1 => Some(Instruction::SubtractWithCarry(AddressingMode::XIndexedIndirect)),
            0xE4 => Some(Instruction::CompareWithX(AddressingMode::Zeropage)),
            0xE5 => Some(Instruction::SubtractWithCarry(AddressingMode::Zeropage)),
            0xE6 => Some(Instruction::Increment(AddressingMode::Zeropage)),
            0xE8 => Some(Instruction::IncrementX(AddressingMode::Implied)),
            0xE9 => Some(Instruction::SubtractWithCarry(AddressingMode::Immediate)),
            0xEA => Some(Instruction::NoOperation(AddressingMode::Implied)),
            0xEC => Some(Instruction::CompareWithX(AddressingMode::Absolute)),
            0xED => Some(Instruction::SubtractWithCarry(AddressingMode::Absolute)),
            0xEE => Some(Instruction::Increment(AddressingMode::Absolute)),
            0xF0 => Some(Instruction::BranchOnEqual(AddressingMode::Relative)),
            0xF1 => Some(Instruction::SubtractWithCarry(AddressingMode::IndirectYIndexed)),
            0xF5 => Some(Instruction::SubtractWithCarry(AddressingMode::ZeropageXIndexed)),
            0xF6 => Some(Instruction::Increment(AddressingMode::ZeropageXIndexed)),
            0xF8 => Some(Instruction::SetDecimal(AddressingMode::Implied)),
            0xF9 => Some(Instruction::SubtractWithCarry(AddressingMode::AbsoluteYIndexed)),
            0xFD => Some(Instruction::SubtractWithCarry(AddressingMode::AbsoluteXIndexed)),
            0xFE => Some(Instruction::Increment(AddressingMode::AbsoluteXIndexed)),
            _ => None,
        }
    }

    /// Decodes one opcode byte.
    pub fn decode(opcode: u8) -> (instruction: Option<Instruction>)
        ensures
            instruction == Instruction::opcode_table(opcode),
    {
        match opcode {
            0x00 => Some(Instruction::Break(AddressingMode::Implied)),
            0x01 => Some(Instruction::OrWithAccumulator(AddressingMode::XIndexedIndirect)),
            0x05 => Some(Instruction::OrWithAccumulator(AddressingMode::Zeropage)),
            0x06 => Some(Instruction::ArithmeticShiftLeft(AddressingMode::Zeropage)),
            0x08 => Some(Instruction::PushProcessorStatus(AddressingMode::Implied)),
            0x09 => Some(Instruction::OrWithAccumulator(AddressingMode::Immediate)),
            0x0A => Some(Instruction::ArithmeticShiftLeft(AddressingMode::Accumulator)),
            0x0D => Some(Instruction::OrWithAccumulator(AddressingMode::Absolute)),
            0x0E => Some(Instruction::ArithmeticShiftLeft(AddressingMode::Absolute)),
            0x10 => Some(Instruction::BranchOnPlus(AddressingMode::Relative)),
            0x11 => Some(Instruction::OrWithAccumulator(AddressingMode::IndirectYIndexed)),
            0x15 => Some(Instruction::OrWithAccumulator(AddressingMode::ZeropageXIndexed)),
            0x16 => Some(Instruction::ArithmeticShiftLeft(AddressingMode::ZeropageXIndexed)),
            0x18 => Some(Instruction::ClearCarry(AddressingMode::Implied)),
            0x19 => Some(Instruction::OrWithAccumulator(AddressingMode::AbsoluteYIndexed)),
            0x1D => Some(Instruction::OrWithAccumulator(AddressingMode::AbsoluteXIndexed)),
            0x1E => Some(Instruction::ArithmeticShiftLeft(AddressingMode::AbsoluteXIndexed)),
            0x20 => Some(Instruction::JumpSubroutine(AddressingMode::Absolute)),
            0x21 => Some(Instruction::And(AddressingMode::XIndexedIndirect)),
            0x24 => Some(Instruction::BitTest(AddressingMode::Zeropage)),
            0x25 => Some(Instruction::And(AddressingMode::Zeropage)),
            0x26 => Some(Instruction::RotateLeft(AddressingMode::Zeropage)),
            0x28 => Some(Instruction::PullProcessorStatus(AddressingMode::Implied)),
            0x29 => Some(Instruction::And(AddressingMode::Immediate)),
            0x2A => Some(Instruction::RotateLeft(AddressingMode::Accumulator)),
            0x2C => Some(Instruction::BitTest(AddressingMode::Absolute)),
            0x2D => Some(Instruction::And(AddressingMode::Absolute)),
            0x2E => Some(Instruction::RotateLeft(AddressingMode::Absolute)),
            0x30 => Some(Instruction::BranchOnMinus(AddressingMode::Relative)),
            0x31 => Some(Instruction::And(AddressingMode::IndirectYIndexed)),
            0x35 => Some(Instruction::And(AddressingMode::ZeropageXIndexed)),
            0x36 => Some(Instruction::RotateLeft(AddressingMode::ZeropageXIndexed)),
            0x38 => Some(Instruction::SetCarry(AddressingMode::Implied)),
            0x39 => Some(Instruction::And(AddressingMode::AbsoluteYIndexed)),
            0x3D => Some(Instruction::And(AddressingMode::AbsoluteXIndexed)),
            0x3E => Some(Instruction::RotateLeft(AddressingMode::AbsoluteXIndexed)),
            0x40 => Some(Instruction::ReturnFormInterrupt(AddressingMode::Implied)),
            0x41 => Some(Instruction::ExclusiveOr(AddressingMode::XIndexedIndirect)),
            0x45 => Some(Instruction::ExclusiveOr(AddressingMode::Zeropage)),
            0x46 => Some(Instruction::LogicalShiftRight(AddressingMode::Zeropage)),
            0x48 => Some(Instruction::PushAccumulator(AddressingMode::Implied)),
            0x49 => Some(Instruction::ExclusiveOr(AddressingMode::Immediate)),
            0x4A => Some(Instruction::LogicalShiftRight(AddressingMode::Accumulator)),
            0x4C => Some(Instruction::Jump(AddressingMode::Absolute)),
            0x4D => Some(Instruction::ExclusiveOr(AddressingMode::Absolute)),
            0x4E => Some(Instruction::LogicalShiftRight(AddressingMode::Absolute)),
            0x50 => Some(Instruction::BranchOnOverflowClear(AddressingMode::Relative)),
            0x51 => Some(Instruction::ExclusiveOr(AddressingMode::IndirectYIndexed)),
            0x55 => Some(Instruction::ExclusiveOr(AddressingMode::ZeropageXIndexed)),
            0x56 => Some(Instruction::LogicalShiftRight(AddressingMode::ZeropageXIndexed)),
            0x58 => Some(Instruction::ClearInterruptDisable(AddressingMode::Implied)),
            0x59 => Some(Instruction::ExclusiveOr(AddressingMode::AbsoluteYIndexed)),
            0x5D => Some(Instruction::ExclusiveOr(AddressingMode::AbsoluteXIndexed)),
            0x5E => Some(Instruction::LogicalShiftRight(AddressingMode::AbsoluteXIndexed)),
            0x60 => Some(Instruction::ReturnFromSubroutine(AddressingMode::Implied)),
            0x61 => Some(Instruction::AddWithCarry(AddressingMode::XIndexedIndirect)),
            0x65 => Some(Instruction::AddWithCarry(AddressingMode::Zeropage)),
            0x66 => Some(Instruction::RotateRight(AddressingMode::Zeropage)),
            0x68 => Some(Instruction::PullAccumulator(AddressingMode::Implied)),
            0x69 => Some(Instruction::AddWithCarry(AddressingMode::Immediate)),
            0x6A => Some(Instruction::RotateRight(AddressingMode::Accumulator)),
            0x6C => Some(Instruction::Jump(AddressingMode::Indirect)),
            0x6D => Some(Instruction::AddWithCarry(AddressingMode::Absolute)),
            0x6E => Some(Instruction::RotateRight(AddressingMode::Absolute)),
            0x70 => Some(Instruction::BranchOnOverflowSet(AddressingMode::Relative)),
            0x71 => Some(Instruction::AddWithCarry(AddressingMode::IndirectYIndexed)),
            0x75 => Some(Instruction::AddWithCarry(AddressingMode::ZeropageXIndexed)),
            0x76 => Some(Instruction::RotateRight(AddressingMode::ZeropageXIndexed)),
            0x78 => Some(Instruction::SetInterruptDisable(AddressingMode::Implied)),
            0x79 => Some(Instruction::AddWithCarry(AddressingMode::AbsoluteYIndexed)),
            0x7D => Some(Instruction::AddWithCarry(AddressingMode::AbsoluteXIndexed)),
            0x7E => Some(Instruction::RotateRight(AddressingMode::AbsoluteXIndexed)),
            0x81 => Some(Instruction::StoreAccumulator(AddressingMode::XIndexedIndirect)),
            0x84 => Some(Instruction::StoreY(AddressingMode::Zeropage)),
            0x85 => Some(Instruction::StoreAccumulator(AddressingMode::Zeropage)),
            0x86 => Some(Instruction::StoreX(AddressingMode::Zeropage)),
            0x88 => Some(Instruction::DecrementY(AddressingMode::Implied)),
            0x8A => Some(Instruction::TransferXToAccumulator(AddressingMode::Implied)),
            0x8C => Some(Instruction::StoreY(AddressingMode::Absolute)),
            0x8D => Some(Instruction::StoreAccumulator(AddressingMode::Absolute)),
            0x8E => Some(Instruction::StoreX(AddressingMode::Absolute)),
            0x90 => Some(Instruction::BranchOnCarryClear(AddressingMode::Relative)),
            0x91 => Some(Instruction::StoreAccumulator(AddressingMode::IndirectYIndexed)),
            0x94 => Some(Instruction::StoreY(AddressingMode::ZeropageXIndexed)),
            0x95 => Some(Instruction::StoreAccumulator(AddressingMode::ZeropageXIndexed)),
            0x96 => Some(Instruction::StoreX(AddressingMode::ZeropageYIndexed)),
            0x98 => Some(Instruction::TransferYToAccumulator(AddressingMode::Implied)),
            0x99 => Some(Instruction::StoreAccumulator(AddressingMode::AbsoluteYIndexed)),
            0x9A => Some(Instruction::TransferXToStackpointer(AddressingMode::Implied)),
            0x9D => Some(Instruction::StoreAccumulator(AddressingMode::AbsoluteXIndexed)),
            0xA0 => Some(Instruction::LoadY(AddressingMode::Immediate)),
            0xA1 => Some(Instruction::LoadAccumulator(AddressingMode::XIndexedIndirect)),
            0xA2 => Some(Instruction::LoadX(AddressingMode::Immediate)),
            0xA4 => Some(Instruction::LoadY(AddressingMode::Zeropage)),
            0xA5 => Some(Instruction::LoadAccumulator(AddressingMode::Zeropage)),
            0xA6 => Some(Instruction::LoadX(AddressingMode::Zeropage)),
            0xA8 => Some(Instruction::TransferAccumulatorToY(AddressingMode::Implied)),
            0xA9 => Some(Instruction::LoadAccumulator(AddressingMode::Immediate)),
            0xAA => Some(Instruction::TransferAccumulatorToX(AddressingMode::Implied)),
            0xAC => Some(Instruction::LoadY(AddressingMode::Absolute)),
            0xAD => Some(Instruction::LoadAccumulator(AddressingMode::Absolute)),
            0xAE => Some(Instruction::LoadX(AddressingMode::Absolute)),
            0xB0 => Some(Instruction::BranchOnCarrySet(AddressingMode::Relative)),
            0xB1 => Some(Instruction::LoadAccumulator(AddressingMode::IndirectYIndexed)),
            0xB4 => Some(Instruction::LoadY(AddressingMode::ZeropageXIndexed)),
            0xB5 => Some(Instruction::LoadAccumulator(AddressingMode::ZeropageXIndexed)),
            0xB6 => Some(Instruction::LoadX(AddressingMode::ZeropageYIndexed)),
            0xB8 => Some(Instruction::ClearOverflow(AddressingMode::Implied)),
            0xB9 => Some(Instruction::LoadAccumulator(AddressingMode::AbsoluteYIndexed)),
            0xBA => Some(Instruction::TransferStackpointerToX(AddressingMode::Implied)),
            0xBC => Some(Instruction::LoadY(AddressingMode::AbsoluteXIndexed)),
            0xBD => Some(Instruction::LoadAccumulator(AddressingMode::AbsoluteXIndexed)),
            0xBE => Some(Instruction::LoadX(AddressingMode::AbsoluteYIndexed)),
            0xC0 => Some(Instruction::CompareWithY(AddressingMode::Immediate)),
            0xC1 => Some(Instruction::Compare(AddressingMode::XIndexedIndirect)),
            0xC4 => Some(Instruction::CompareWithY(AddressingMode::Zeropage)),
            0xC5 => Some(Instruction::Compare(AddressingMode::Zeropage)),
            0xC6 => Some(Instruction::Decrement(AddressingMode::Zeropage)),
            0xC8 => Some(Instruction::IncrementY(AddressingMode::Implied)),
            0xC9 => Some(Instruction::Compare(AddressingMode::Immediate)),
            0xCA => Some(Instruction::DecrementX(AddressingMode::Implied)),
            0xCC => Some(Instruction::CompareWithY(AddressingMode::Absolute)),
            0xCD => Some(Instruction::Compare(AddressingMode::Absolute)),
            0xCE => Some(Instruction::Decrement(AddressingMode::Absolute)),
            0xD0 => Some(Instruction::BranchOnNotEqual(AddressingMode::Relative)),
            0xD1 => Some(Instruction::Compare(AddressingMode::IndirectYIndexed)),
            0xD5 => Some(Instruction::Compare(AddressingMode::ZeropageXIndexed)),
            0xD6 => Some(Instruction::Decrement(AddressingMode::ZeropageXIndexed)),
            0xD8 => Some(Instruction::ClearDecimal(AddressingMode::Implied)),
            0xD9 => Some(Instruction::Compare(AddressingMode::AbsoluteYIndexed)),
            0xDD => Some(Instruction::Compare(AddressingMode::AbsoluteXIndexed)),
            0xDE => Some(Instruction::Decrement(AddressingMode::AbsoluteXIndexed)),
            0xE0 => Some(Instruction::CompareWithX(AddressingMode::Immediate)),
            0xE1 => Some(Instruction::SubtractWithCarry(AddressingMode::XIndexedIndirect)),
            0xE4 => Some(Instruction::CompareWithX(AddressingMode::Zeropage)),
            0xE5 => Some(Instruction::SubtractWithCarry(AddressingMode::Zeropage)),
            0xE6 => Some(Instruction::Increment(AddressingMode::Zeropage)),
            0xE8 => Some(Instruction::IncrementX(AddressingMode::Implied)),
            0xE9 => Some(Instruction::SubtractWithCarry(AddressingMode::Immediate)),
            0xEA => Some(Instruction::NoOperation(AddressingMode::Implied)),
            0xEC => Some(Instruction::CompareWithX(AddressingMode::Absolute)),
            0xED => Some(Instruction::SubtractWithCarry(AddressingMode::Absolute)),
            0xEE => Some(Instruction::Increment(AddressingMode::Absolute)),
            0xF0 => Some(Instruction::BranchOnEqual(AddressingMode::Relative)),
            0xF1 => Some(Instruction::SubtractWithCarry(AddressingMode::IndirectYIndexed)),
            0xF5 => Some(Instruction::SubtractWithCarry(AddressingMode::ZeropageXIndexed)),
            0xF6 => Some(Instruction::Increment(AddressingMode::ZeropageXIndexed)),
            0xF8 => Some(Instruction::SetDecimal(AddressingMode::Implied)),
            0xF9 => Some(Instruction::SubtractWithCarry(AddressingMode::AbsoluteYIndexed)),
            0xFD => Some(Instruction::SubtractWithCarry(AddressingMode::AbsoluteXIndexed)),
            0xFE => Some(Instruction::Increment(AddressingMode::AbsoluteXIndexed)),
            _ => None,
        }
    }
}

/// No two opcodes stand for the same instruction.
#[verifier::rlimit(40)]
pub proof fn lemma_opcodes_differ(first: u8, second: u8)
    requires
        Instruction::opcode_table(first) is Some,
        Instruction::opcode_table(first) == Instruction::opcode_table(second),
    ensures
        first == second,
{
}

} // verus!
