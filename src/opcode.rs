//! How many operands each instruction takes from the operand stack, and
//! whether it pushes a result.
use vstd::prelude::*;
use crate::instruction::Instruction;

verus! {

/// A call, whose arity depends on the callee.
pub open spec fn is_call(inst: Instruction) -> bool {
    matches!(
        inst,
        Instruction::Call(..)
        | Instruction::CallIndirect(..)
    )
}

/// Takes one operand and leaves nothing: a conditional branch, a drop, a write to a variable.
pub open spec fn is_consumer(inst: Instruction) -> bool {
    matches!(
        inst,
        Instruction::If(..)
        | Instruction::BrIf(..)
        | Instruction::BrTable(..)
        | Instruction::Drop
        | Instruction::SetLocal(..)
        | Instruction::SetGlobal(..)
    )
}

/// Writes a value to memory at an address: two operands, no result.
pub open spec fn is_store(inst: Instruction) -> bool {
    matches!(
        inst,
        Instruction::I32Store(..)
        | Instruction::I64Store(..)
        | Instruction::F32Store(..)
        | Instruction::F64Store(..)
        | Instruction::I32Store8(..)
        | Instruction::I32Store16(..)
        | Instruction::I64Store8(..)
        | Instruction::I64Store16(..)
        | Instruction::I64Store32(..)
    )
}

/// Pushes a value without taking any: a constant, a read of a variable, the memory size.
pub open spec fn is_producer(inst: Instruction) -> bool {
    matches!(
        inst,
        Instruction::GetLocal(..)
        | Instruction::GetGlobal(..)
        | Instruction::CurrentMemory(..)
        | Instruction::I32Const(..)
        | Instruction::I64Const(..)
        | Instruction::F32Const(..)
        | Instruction::F64Const(..)
    )
}

/// Takes one operand and pushes one result: tests, unary arithmetic, loads, conversions.
pub open spec fn is_unary(inst: Instruction) -> bool {
    matches!(
        inst,
        Instruction::TeeLocal(..)
        | Instruction::I32Load(..)
        | Instruction::I64Load(..)
        | Instruction::F32Load(..)
        | Instruction::F64Load(..)
        | Instruction::I32Load8S(..)
        | Instruction::I32Load8U(..)
        | Instruction::I32Load16S(..)
        | Instruction::I32Load16U(..)
        | Instruction::I64Load8S(..)
        | Instruction::I64Load8U(..)
        | Instruction::I64Load16S(..)
        | Instruction::I64Load16U(..)
        | Instruction::I64Load32S(..)
        | Instruction::I64Load32U(..)
        | Instruction::GrowMemory(..)
        | Instruction::I32Eqz
        | Instruction::I64Eqz
        | Instruction::I32Clz
        | Instruction::I32Ctz
        | Instruction::I32Popcnt
        | Instruction::I64Clz
        | Instruction::I64Ctz
        | Instruction::I64Popcnt
        | Instruction::F32Abs
        | Instruction::F32Neg
        | Instruction::F32Ceil
        | Instruction::F32Floor
        | Instruction::F32Trunc
        | Instruction::F32Nearest
        | Instruction::F32Sqrt
        | Instruction::F64Abs
        | Instruction::F64Neg
        | Instruction::F64Ceil
        | Instruction::F64Floor
        | Instruction::F64Trunc
        | Instruction::F64Nearest
        | Instruction::F64Sqrt
        | Instruction::I32WrapI64
        | Instruction::I32TruncSF32
        | Instruction::I32TruncUF32
        | Instruction::I32TruncSF64
        | Instruction::I32TruncUF64
        | Instruction::I64ExtendSI32
        | Instruction::I64ExtendUI32
        | Instruction::I64TruncSF32
        | Instruction::I64TruncUF32
        | Instruction::I64TruncSF64
        | Instruction::I64TruncUF64
        | Instruction::F32ConvertSI32
        | Instruction::F32ConvertUI32
        | Instruction::F32ConvertSI64
        | Instruction::F32ConvertUI64
        | Instruction::F32DemoteF64
        | Instruction::F64ConvertSI32
        | Instruction::F64ConvertUI32
        | Instruction::F64ConvertSI64
        | Instruction::F64ConvertUI64
        | Instruction::F64PromoteF32
        | Instruction::I32ReinterpretF32
        | Instruction::I64ReinterpretF64
        | Instruction::F32ReinterpretI32
        | Instruction::F64ReinterpretI64
    )
}

/// Takes two operands and pushes one result: comparisons and binary arithmetic.
pub open spec fn is_binary(inst: Instruction) -> bool {
    matches!(
        inst,
        Instruction::I32Eq
        | Instruction::I32Ne
        | Instruction::I32LtS
        | Instruction::I32LtU
        | Instruction::I32GtS
        | Instruction::I32GtU
        | Instruction::I32LeS
        | Instruction::I32LeU
        | Instruction::I32GeS
        | Instruction::I32GeU
        | Instruction::I64Eq
        | Instruction::I64Ne
        | Instruction::I64LtS
        | Instruction::I64LtU
        | Instruction::I64GtS
        | Instruction::I64GtU
        | Instruction::I64LeS
        | Instruction::I64LeU
        | Instruction::I64GeS
        | Instruction::I64GeU
        | Instruction::F32Eq
        | Instruction::F32Ne
        | Instruction::F32Lt
        | Instruction::F32Gt
        | Instruction::F32Le
        | Instruction::F32Ge
        | Instruction::F64Eq
        | Instruction::F64Ne
        | Instruction::F64Lt
        | Instruction::F64Gt
        | Instruction::F64Le
        | Instruction::F64Ge
        | Instruction::I32Add
        | Instruction::I32Sub
        | Instruction::I32Mul
        | Instruction::I32DivS
        | Instruction::I32DivU
        | Instruction::I32RemS
        | Instruction::I32RemU
        | Instruction::I32And
        | Instruction::I32Or
        | Instruction::I32Xor
        | Instruction::I32Shl
        | Instruction::I32ShrS
        | Instruction::I32ShrU
        | Instruction::I32Rotl
        | Instruction::I32Rotr
        | Instruction::I64Add
        | Instruction::I64Sub
        | Instruction::I64Mul
        | Instruction::I64DivS
        | Instruction::I64DivU
        | Instruction::I64RemS
        | Instruction::I64RemU
        | Instruction::I64And
        | Instruction::I64Or
        | Instruction::I64Xor
        | Instruction::I64Shl
        | Instruction::I64ShrS
        | Instruction::I64ShrU
        | Instruction::I64Rotl
        | Instruction::I64Rotr
        | Instruction::F32Add
        | Instruction::F32Sub
        | Instruction::F32Mul
        | Instruction::F32Div
        | Instruction::F32Min
        | Instruction::F32Max
        | Instruction::F32Copysign
        | Instruction::F64Add
        | Instruction::F64Sub
        | Instruction::F64Mul
        | Instruction::F64Div
        | Instruction::F64Min
        | Instruction::F64Max
        | Instruction::F64Copysign
    )
}

/// Picks one of two operands by a third.
pub open spec fn is_select(inst: Instruction) -> bool {
    matches!(
        inst,
        Instruction::Select
    )
}

/// The stack effect of an instruction: how many operands it pops, and
/// whether it pushes a result. Calls have none here: their arity depends
/// on the callee, so the caller states it.
pub open spec fn stack_effect(inst: Instruction) -> Option<(nat, bool)> {
    if is_call(inst) {
        None
    } else if is_select(inst) {
        Some((3, true))
    } else if is_binary(inst) {
        Some((2, true))
    } else if is_store(inst) {
        Some((2, false))
    } else if is_unary(inst) {
        Some((1, true))
    } else if is_consumer(inst) {
        Some((1, false))
    } else if is_producer(inst) {
        Some((0, true))
    } else {
        // structured control flow, branches and `nop`
        Some((0, false))
    }
}

/// The stack effect of `inst` as the pair `(pops, pushes)`, or `None` for a
/// call, whose arity must be given explicitly.
pub fn get_pops_and_pushes(inst: &Instruction) -> (r: Option<(u8, bool)>)
    ensures
        match r {
            None => stack_effect(*inst) is None,
            Some((pops, push)) => stack_effect(*inst) == Some((pops as nat, push)),
        },
{
    match inst {
        Instruction::Unreachable => Some((0, false)),
        Instruction::Nop => Some((0, false)),
        Instruction::Block(..) => Some((0, false)),
        Instruction::Loop(..) => Some((0, false)),
        Instruction::If(..) => Some((1, false)),
        Instruction::Else => Some((0, false)),
        Instruction::End => Some((0, false)),
        Instruction::Br(..) => Some((0, false)),
        Instruction::BrIf(..) => Some((1, false)),
        Instruction::BrTable(..) => Some((1, false)),
        Instruction::Return => Some((0, false)),
        Instruction::Call(..) | Instruction::CallIndirect(..) => None,
        Instruction::Drop => Some((1, false)),
        Instruction::Select => Some((3, true)),
        Instruction::GetLocal(..) => Some((0, true)),
        Instruction::SetLocal(..) => Some((1, false)),
        Instruction::TeeLocal(..) => Some((1, true)),
        Instruction::GetGlobal(..) => Some((0, true)),
        Instruction::SetGlobal(..) => Some((1, false)),
        Instruction::I32Load(..) => Some((1, true)),
        Instruction::I64Load(..) => Some((1, true)),
        Instruction::F32Load(..) => Some((1, true)),
        Instruction::F64Load(..) => Some((1, true)),
        Instruction::I32Load8S(..) => Some((1, true)),
        Instruction::I32Load8U(..) => Some((1, true)),
        Instruction::I32Load16S(..) => Some((1, true)),
        Instruction::I32Load16U(..) => Some((1, true)),
        Instruction::I64Load8S(..) => Some((1, true)),
        Instruction::I64Load8U(..) => Some((1, true)),
        Instruction::I64Load16S(..) => Some((1, true)),
        Instruction::I64Load16U(..) => Some((1, true)),
        Instruction::I64Load32S(..) => Some((1, true)),
        Instruction::I64Load32U(..) => Some((1, true)),
        Instruction::I32Store(..) => Some((2, false)),
        Instruction::I64Store(..) => Some((2, false)),
        Instruction::F32Store(..) => Some((2, false)),
        Instruction::F64Store(..) => Some((2, false)),
        Instruction::I32Store8(..) => Some((2, false)),
        Instruction::I32Store16(..) => Some((2, false)),
        Instruction::I64Store8(..) => Some((2, false)),
        Instruction::I64Store16(..) => Some((2, false)),
        Instruction::I64Store32(..) => Some((2, false)),
        Instruction::CurrentMemory(..) => Some((0, true)),
        Instruction::GrowMemory(..) => Some((1, true)),
        Instruction::I32Const(..) => Some((0, true)),
        Instruction::I64Const(..) => Some((0, true)),
        Instruction::F32Const(..) => Some((0, true)),
        Instruction::F64Const(..) => Some((0, true)),
        Instruction::I32Eqz => Some((1, true)),
        Instruction::I32Eq => Some((2, true)),
        Instruction::I32Ne => Some((2, true)),
        Instruction::I32LtS => Some((2, true)),
        Instruction::I32LtU => Some((2, true)),
        Instruction::I32GtS => Some((2, true)),
        Instruction::I32GtU => Some((2, true)),
        Instruction::I32LeS => Some((2, true)),
        Instruction::I32LeU => Some((2, true)),
        Instruction::I32GeS => Some((2, true)),
        Instruction::I32GeU => Some((2, true)),
        Instruction::I64Eqz => Some((1, true)),
        Instruction::I64Eq => Some((2, true)),
        Instruction::I64Ne => Some((2, true)),
        Instruction::I64LtS => Some((2, true)),
        Instruction::I64LtU => Some((2, true)),
        Instruction::I64GtS => Some((2, true)),
        Instruction::I64GtU => Some((2, true)),
        Instruction::I64LeS => Some((2, true)),
        Instruction::I64LeU => Some((2, true)),
        Instruction::I64GeS => Some((2, true)),
        Instruction::I64GeU => Some((2, true)),
        Instruction::F32Eq => Some((2, true)),
        Instruction::F32Ne => Some((2, true)),
        Instruction::F32Lt => Some((2, true)),
        Instruction::F32Gt => Some((2, true)),
        Instruction::F32Le => Some((2, true)),
        Instruction::F32Ge => Some((2, true)),
        Instruction::F64Eq => Some((2, true)),
        Instruction::F64Ne => Some((2, true)),
        Instruction::F64Lt => Some((2, true)),
        Instruction::F64Gt => Some((2, true)),
        Instruction::F64Le => Some((2, true)),
        Instruction::F64Ge => Some((2, true)),
        Instruction::I32Clz => Some((1, true)),
        Instruction::I32Ctz => Some((1, true)),
        Instruction::I32Popcnt => Some((1, true)),
        Instruction::I32Add => Some((2, true)),
        Instruction::I32Sub => Some((2, true)),
        Instruction::I32Mul => Some((2, true)),
        Instruction::I32DivS => Some((2, true)),
        Instruction::I32DivU => Some((2, true)),
        Instruction::I32RemS => Some((2, true)),
        Instruction::I32RemU => Some((2, true)),
        Instruction::I32And => Some((2, true)),
        Instruction::I32Or => Some((2, true)),
        Instruction::I32Xor => Some((2, true)),
        Instruction::I32Shl => Some((2, true)),
        Instruction::I32ShrS => Some((2, true)),
        Instruction::I32ShrU => Some((2, true)),
        Instruction::I32Rotl => Some((2, true)),
        Instruction::I32Rotr => Some((2, true)),
        Instruction::I64Clz => Some((1, true)),
        Instruction::I64Ctz => Some((1, true)),
        Instruction::I64Popcnt => Some((1, true)),
        Instruction::I64Add => Some((2, true)),
        Instruction::I64Sub => Some((2, true)),
        Instruction::I64Mul => Some((2, true)),
        Instruction::I64DivS => Some((2, true)),
        Instruction::I64DivU => Some((2, true)),
        Instruction::I64RemS => Some((2, true)),
        Instruction::I64RemU => Some((2, true)),
        Instruction::I64And => Some((2, true)),
        Instruction::I64Or => Some((2, true)),
        Instruction::I64Xor => Some((2, true)),
        Instruction::I64Shl => Some((2, true)),
        Instruction::I64ShrS => Some((2, true)),
        Instruction::I64ShrU => Some((2, true)),
        Instruction::I64Rotl => Some((2, true)),
        Instruction::I64Rotr => Some((2, true)),
        Instruction::F32Abs => Some((1, true)),
        Instruction::F32Neg => Some((1, true)),
        Instruction::F32Ceil => Some((1, true)),
        Instruction::F32Floor => Some((1, true)),
        Instruction::F32Trunc => Some((1, true)),
        Instruction::F32Nearest => Some((1, true)),
        Instruction::F32Sqrt => Some((1, true)),
        Instruction::F32Add => Some((2, true)),
        Instruction::F32Sub => Some((2, true)),
        Instruction::F32Mul => Some((2, true)),
        Instruction::F32Div => Some((2, true)),
        Instruction::F32Min => Some((2, true)),
        Instruction::F32Max => Some((2, true)),
        Instruction::F32Copysign => Some((2, true)),
        Instruction::F64Abs => Some((1, true)),
        Instruction::F64Neg => Some((1, true)),
        Instruction::F64Ceil => Some((1, true)),
        Instruction::F64Floor => Some((1, true)),
        Instruction::F64Trunc => Some((1, true)),
        Instruction::F64Nearest => Some((1, true)),
        Instruction::F64Sqrt => Some((1, true)),
        Instruction::F64Add => Some((2, true)),
        Instruction::F64Sub => Some((2, true)),
        Instruction::F64Mul => Some((2, true)),
        Instruction::F64Div => Some((2, true)),
        Instruction::F64Min => Some((2, true)),
        Instruction::F64Max => Some((2, true)),
        Instruction::F64Copysign => Some((2, true)),
        Instruction::I32WrapI64 => Some((1, true)),
        Instruction::I32TruncSF32 => Some((1, true)),
        Instruction::I32TruncUF32 => Some((1, true)),
        Instruction::I32TruncSF64 => Some((1, true)),
        Instruction::I32TruncUF64 => Some((1, true)),
        Instruction::I64ExtendSI32 => Some((1, true)),
        Instruction::I64ExtendUI32 => Some((1, true)),
        Instruction::I64TruncSF32 => Some((1, true)),
        Instruction::I64TruncUF32 => Some((1, true)),
        Instruction::I64TruncSF64 => Some((1, true)),
        Instruction::I64TruncUF64 => Some((1, true)),
        Instruction::F32ConvertSI32 => Some((1, true)),
        Instruction::F32ConvertUI32 => Some((1, true)),
        Instruction::F32ConvertSI64 => Some((1, true)),
        Instruction::F32ConvertUI64 => Some((1, true)),
        Instruction::F32DemoteF64 => Some((1, true)),
        Instruction::F64ConvertSI32 => Some((1, true)),
        Instruction::F64ConvertUI32 => Some((1, true)),
        Instruction::F64ConvertSI64 => Some((1, true)),
        Instruction::F64ConvertUI64 => Some((1, true)),
        Instruction::F64PromoteF32 => Some((1, true)),
        Instruction::I32ReinterpretF32 => Some((1, true)),
        Instruction::I64ReinterpretF64 => Some((1, true)),
        Instruction::F32ReinterpretI32 => Some((1, true)),
        Instruction::F64ReinterpretI64 => Some((1, true)),
    }
}

} // verus!
