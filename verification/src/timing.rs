use vstd::prelude::*;
use crate::instruction::{AddressingMode, Instruction};
use crate::state::State;

verus! {

/// The cycles that the 6502 takes for an instruction that reads its operand through
/// `mode`, opcode fetch included; `crossed` says whether indexing crosses a page.
pub open spec fn hardware_read_cycles(mode: AddressingMode, crossed: bool) -> Option<int> {
    match mode {
        AddressingMode::Immediate => Some(2),
        AddressingMode::Zeropage => Some(3),
        AddressingMode::ZeropageXIndexed | AddressingMode::ZeropageYIndexed => Some(4),
        AddressingMode::Absolute => Some(4),
        AddressingMode::AbsoluteXIndexed | AddressingMode::AbsoluteYIndexed => Some(
            if crossed {
                5
            } else {
                4
            },
        ),
        _ => None,
    }
}

/// The cycles that the 6502 takes for an instruction that writes through `mode`, opcode
/// fetch included.
pub open spec fn hardware_write_cycles(mode: AddressingMode) -> Option<int> {
    match mode {
        AddressingMode::Zeropage => Some(3),
        AddressingMode::ZeropageXIndexed | AddressingMode::ZeropageYIndexed => Some(4),
        AddressingMode::Absolute => Some(4),
        AddressingMode::AbsoluteXIndexed | AddressingMode::AbsoluteYIndexed => Some(5),
        _ => None,
    }
}

/// The cycles that the 6502 takes for `instruction`, opcode fetch included. `None` for
/// the instructions that the processor here has no behaviour for.
pub open spec fn hardware_cycles(instruction: Instruction, crossed: bool) -> Option<int> {
    match instruction {
        Instruction::And(mode)
        | Instruction::BitTest(mode)
        | Instruction::ExclusiveOr(mode)
        | Instruction::LoadAccumulator(mode)
        | Instruction::LoadX(mode)
        | Instruction::LoadY(mode)
        | Instruction::OrWithAccumulator(mode) => hardware_read_cycles(mode, crossed),
        Instruction::StoreAccumulator(mode)
        | Instruction::StoreX(mode)
        | Instruction::StoreY(mode) => hardware_write_cycles(mode),
        Instruction::TransferAccumulatorToX(_)
        | Instruction::TransferAccumulatorToY(_)
        | Instruction::TransferStackpointerToX(_)
        | Instruction::TransferXToAccumulator(_)
        | Instruction::TransferXToStackpointer(_)
        | Instruction::TransferYToAccumulator(_) => Some(2),
        Instruction::PushAccumulator(_) | Instruction::PushProcessorStatus(_) => Some(3),
        Instruction::PullAccumulator(_) | Instruction::PullProcessorStatus(_) => Some(4),
        _ => None,
    }
}

/// Whether `instruction` writes through an absolute address with an index. The 6502
/// always spends a fifth cycle on such a write; the processor here charges a write no
/// cycle for indexing, and so takes four.
pub open spec fn is_indexed_absolute_store(instruction: Instruction) -> bool {
    (instruction is StoreAccumulator || instruction is StoreX || instruction is StoreY) && (
    instruction.mode() is AbsoluteXIndexed || instruction.mode() is AbsoluteYIndexed)
}

/// The cycles that the 6502 takes for the step that `state` is about to take. `None`
/// where the byte at the program counter is no opcode, and where the processor here has
/// no behaviour for the instruction or its mode.
pub open spec fn hardware_step_cycles(state: State) -> Option<int> {
    match Instruction::opcode_table(state.opcode()) {
        Some(instruction) => hardware_cycles(
            instruction,
            state.advanced(1).page_crossed(instruction.mode()),
        ),
        None => None,
    }
}

/// Whether the step that `state` is about to take is a write through an absolute
/// address with an index.
pub open spec fn steps_into_indexed_absolute_store(state: State) -> bool {
    match Instruction::opcode_table(state.opcode()) {
        Some(instruction) => is_indexed_absolute_store(instruction),
        None => false,
    }
}

/// Cycle accuracy. Where the 6502 has a cycle count for the step that is about to be
/// taken, and the step is no write through an indexed absolute address, the step costs
/// exactly that: the step can be taken, a budget of the hardware's cycles is used up to
/// zero, and running on that budget is that one step.
#[verifier::rlimit(40)]
pub proof fn lemma_hardware_cycles_use_up_budget(state: State, budget: int)
    requires
        hardware_step_cycles(state) == Some(budget),
        !steps_into_indexed_absolute_store(state),
    ensures
        state.can_step(),
        budget - state.step_cycles() == 0,
        state.can_run(budget),
        state.run(budget) == state.step(),
        state.run_cycles(budget) == 0,
{
    let after = state.step();
    assert(after.can_run(0));
    assert(after.run(0) == after);
    assert(after.run_cycles(0) == 0);
}

/// A write through an indexed absolute address takes four cycles here, one less than
/// the five of the 6502.
pub proof fn lemma_indexed_absolute_store_is_a_cycle_short(state: State)
    requires
        steps_into_indexed_absolute_store(state),
    ensures
        state.can_step(),
        state.step_cycles() == 4,
        hardware_step_cycles(state) == Some(5int),
{
}

} // verus!
