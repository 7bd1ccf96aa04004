use vstd::prelude::*;
use crate::instruction::{AddressingMode, Instruction};
use crate::state::{State, has_bit, negative_of, stack_address, wrap8};

verus! {

/// The byte that `instruction` computes, read from the state `after` it: the register
/// that a load, a transfer, a pull or a bitwise operation has written. `None` for the
/// instructions that compute no such byte.
pub open spec fn result_byte(instruction: Instruction, after: State) -> Option<u8> {
    match instruction {
        Instruction::LoadAccumulator(_)
        | Instruction::And(_)
        | Instruction::ExclusiveOr(_)
        | Instruction::OrWithAccumulator(_)
        | Instruction::TransferXToAccumulator(_)
        | Instruction::TransferYToAccumulator(_)
        | Instruction::PullAccumulator(_) => Some(after.accumulator),
        Instruction::LoadX(_)
        | Instruction::TransferAccumulatorToX(_)
        | Instruction::TransferStackpointerToX(_) => Some(after.x),
        Instruction::LoadY(_) | Instruction::TransferAccumulatorToY(_) => Some(after.y),
        Instruction::TransferXToStackpointer(_) => Some(after.stack_pointer),
        _ => None,
    }
}

/// The negative flag of a result is set exactly for the bytes from 128 up, which are
/// the bytes that have the mask 0x80 in them.
pub proof fn lemma_negative_is_bit_seven(result: u8)
    ensures
        negative_of(result) <==> result >= 0x80,
        negative_of(result) <==> result & 0x80 != 0,
{
    assert((result & 0x80 != 0) <==> result >= 0x80) by (bit_vector);
}

/// After every instruction that computes a result byte, whatever that byte is, the zero
/// flag is set if and only if the byte is zero, and the negative flag is its bit 7.
pub proof fn lemma_flags_follow_result(state: State, instruction: Instruction)
    requires
        result_byte(instruction, state.execute(instruction)) is Some,
    ensures
        ({
            let after = state.execute(instruction);
            let result = result_byte(instruction, after)->0;
            &&& after.zero <==> result == 0
            &&& after.negative <==> has_bit(result, 0x80)
            &&& after.negative <==> result >= 0x80
        }),
{
}

/// The bit test leaves the accumulator alone. Its zero flag says whether accumulator
/// and operand share no bit; negative and overflow are bits 7 and 6 of the operand.
pub proof fn lemma_bit_test_flags(state: State, mode: AddressingMode)
    ensures
        ({
            let after = state.execute(Instruction::BitTest(mode));
            let operand = state.operand(mode);
            &&& after.accumulator == state.accumulator
            &&& after.zero <==> state.accumulator & operand == 0
            &&& after.negative <==> has_bit(operand, 0x80)
            &&& after.overflow <==> has_bit(operand, 0x40)
        }),
{
}

/// Packing the seven flags and unpacking the byte gives the seven flags back, and bit 5
/// of the packed byte is set.
pub proof fn lemma_status_round_trip(state: State)
    ensures
        state.with_status(state.status_byte()) == state,
        has_bit(state.status_byte(), 0x20),
{
}

/// Unpacking any byte and packing the flags again gives the byte back with bit 5 set,
/// whatever bit 5 of the byte was.
pub proof fn lemma_status_reads_bit_five_set(state: State, status: u8)
    ensures
        state.with_status(status).status_byte() == status | 0x20,
        has_bit(state.with_status(status).status_byte(), 0x20),
{
    assert((if (status / 0x80) % 2 == 1 { 0x80u8 } else { 0u8 }) + (if (status / 0x40) % 2 == 1 {
        0x40u8
    } else {
        0u8
    }) + 0x20u8 + (if (status / 0x10) % 2 == 1 { 0x10u8 } else { 0u8 }) + (if (status / 0x08) % 2
        == 1 {
        0x08u8
    } else {
        0u8
    }) + (if (status / 0x04) % 2 == 1 { 0x04u8 } else { 0u8 }) + (if (status / 0x02) % 2 == 1 {
        0x02u8
    } else {
        0u8
    }) + (if (status / 0x01) % 2 == 1 { 0x01u8 } else { 0u8 }) == status | 0x20) by (bit_vector);
    lemma_status_round_trip(state.with_status(status));
}

/// A byte that was pushed is the byte that the next pull hands out, and the pull puts
/// the stack pointer back where it stood before the push. Nothing but the byte in the
/// stack page has changed.
pub proof fn lemma_push_pull_round_trip(state: State, value: u8)
    ensures
        state.pushed(value).stack_top() == value,
        state.pushed(value).pulled().stack_pointer == state.stack_pointer,
        state.pushed(value).pulled() == (State {
            memory: state.memory.insert(stack_address(state.stack_pointer), value),
            ..state
        }),
{
}

/// Pushing the accumulator and pulling it again restores the accumulator and the stack
/// pointer.
pub proof fn lemma_push_then_pull_accumulator(state: State)
    ensures
        ({
            let pushed = state.execute(Instruction::PushAccumulator(AddressingMode::Implied));
            let pulled = pushed.execute(Instruction::PullAccumulator(AddressingMode::Implied));
            &&& pulled.accumulator == state.accumulator
            &&& pulled.stack_pointer == state.stack_pointer
        }),
{
    lemma_push_pull_round_trip(state, state.accumulator);
}

/// Pushing the status and pulling it again restores the seven flags and the stack
/// pointer.
pub proof fn lemma_push_then_pull_status(state: State)
    ensures
        ({
            let pushed = state.execute(Instruction::PushProcessorStatus(AddressingMode::Implied));
            let pulled = pushed.execute(
                Instruction::PullProcessorStatus(AddressingMode::Implied),
            );
            &&& pulled.negative == state.negative
            &&& pulled.overflow == state.overflow
            &&& pulled._break == state._break
            &&& pulled.decimal == state.decimal
            &&& pulled.interrupt == state.interrupt
            &&& pulled.zero == state.zero
            &&& pulled.carry == state.carry
            &&& pulled.stack_pointer == state.stack_pointer
        }),
{
    lemma_push_pull_round_trip(state, state.status_byte());
    lemma_status_round_trip(state);
}

/// The state after the bytes of `values` were pushed, the first of them first.
pub open spec fn pushed_all(state: State, values: Seq<u8>) -> State
    decreases values.len(),
{
    if values.len() == 0 {
        state
    } else {
        pushed_all(state, values.drop_last()).pushed(values.last())
    }
}

/// The state after `count` bytes were pulled.
pub open spec fn pulled_times(state: State, count: nat) -> State
    decreases count,
{
    if count == 0 {
        state
    } else {
        pulled_times(state.pulled(), (count - 1) as nat)
    }
}

/// Pushing moves the stack pointer down by one for each byte, within eight bits.
proof fn lemma_pushed_all_stack_pointer(state: State, values: Seq<u8>)
    ensures
        pushed_all(state, values).stack_pointer == wrap8(state.stack_pointer - values.len()),
    decreases values.len(),
{
    if values.len() > 0 {
        lemma_pushed_all_stack_pointer(state, values.drop_last());
    }
}

/// Pulling moves the stack pointer up by one for each byte, within eight bits.
proof fn lemma_pulled_times_stack_pointer(state: State, count: nat)
    ensures
        pulled_times(state, count).stack_pointer == wrap8(state.stack_pointer + count),
    decreases count,
{
    if count > 0 {
        lemma_pulled_times_stack_pointer(state.pulled(), (count - 1) as nat);
    }
}

/// However many bytes are pushed, pulling as many leaves the stack pointer where it
/// stood at first.
pub proof fn lemma_balanced_stack_keeps_pointer(state: State, values: Seq<u8>)
    ensures
        pulled_times(pushed_all(state, values), values.len()).stack_pointer
            == state.stack_pointer,
{
    lemma_pushed_all_stack_pointer(state, values);
    lemma_pulled_times_stack_pointer(pushed_all(state, values), values.len());
}

} // verus!
