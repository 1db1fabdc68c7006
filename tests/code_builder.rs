use wasm_codegen::code_builder::{CodeBuilder, CodeGenError, LocalId, Symbol, VirtualMachineSymbolState};
use wasm_codegen::instruction::{BlockType, BrTableData, Instruction, ValueType};
use wasm_codegen::opcode::get_pops_and_pushes;

use Instruction::{
    Block, BrTable, Call, CallIndirect, Drop, F64ConvertSI32, GetLocal, I32Add, I32Const, I32Eqz, I32Load, I32Mul, I32Store, I64Store, If, Nop, Select, SetGlobal, SetLocal, TeeLocal,
};
use VirtualMachineSymbolState::{NotYetPushed, Popped, Pushed};

fn finalize(b: &mut CodeBuilder) -> Vec<Instruction> {
    let mut out = Vec::new();
    b.finalize_into(&mut out);
    out
}

#[test]
fn classification_table_examples() {
    assert_eq!(get_pops_and_pushes(&I32Add), Some((2, true)));
    assert_eq!(get_pops_and_pushes(&I64Store(2, 8)), Some((2, false)));
    assert_eq!(get_pops_and_pushes(&Select), Some((3, true)));
    assert_eq!(get_pops_and_pushes(&GetLocal(3)), Some((0, true)));
    assert_eq!(get_pops_and_pushes(&TeeLocal(3)), Some((1, true)));
    assert_eq!(get_pops_and_pushes(&SetGlobal(0)), Some((1, false)));
    assert_eq!(get_pops_and_pushes(&Block(BlockType::Value(ValueType::I32))), Some((0, false)));
    assert_eq!(get_pops_and_pushes(&If(BlockType::NoResult)), Some((1, false)));
    assert_eq!(get_pops_and_pushes(&F64ConvertSI32), Some((1, true)));
    let table = BrTable(BrTableData { table: vec![0, 1], default: 2 });
    assert_eq!(get_pops_and_pushes(&table), Some((1, false)));
    assert_eq!(get_pops_and_pushes(&Call(4)), None);
    assert_eq!(get_pops_and_pushes(&CallIndirect(1, 0)), None);
}

#[test]
fn classification_is_deterministic() {
    let a = I32Load(2, 16);
    let b = I32Load(2, 16);
    assert_eq!(get_pops_and_pushes(&a), get_pops_and_pushes(&b));
    assert_eq!(get_pops_and_pushes(&a), get_pops_and_pushes(&a));
}

#[test]
fn depth_follows_pops_and_pushes() {
    let mut b = CodeBuilder::new();
    b.push(I32Const(1)).unwrap();
    b.push(I32Const(2)).unwrap();
    b.push(I32Const(3)).unwrap();
    assert_eq!(b.depth(), 3);
    b.push(Select).unwrap();
    assert_eq!(b.depth(), 1);
    b.push(I32Const(0)).unwrap();
    b.push(I32Store(2, 0)).unwrap();
    assert_eq!(b.depth(), 0);
    b.push(Nop).unwrap();
    assert_eq!(b.depth(), 0);
    assert_eq!(b.len(), 7);
}

#[test]
fn underflow_is_refused_and_changes_nothing() {
    let mut b = CodeBuilder::new();
    b.push(I32Const(1)).unwrap();
    match b.push(I32Add) {
        Err(CodeGenError::StackUnderflow { at, inst, stack }) => {
            assert_eq!(at, 1);
            assert_eq!(inst, I32Add);
            assert_eq!(stack, vec![None]);
        }
        other => panic!("unexpected {:?}", other),
    }
    assert_eq!(b.depth(), 1);
    assert_eq!(b.len(), 1);
}

#[test]
fn call_through_push_is_refused() {
    let mut b = CodeBuilder::new();
    assert!(matches!(
        b.push(Call(3)),
        Err(CodeGenError::CallWithoutArity { at: 0, inst: Call(3) })
    ));
    assert_eq!(b.len(), 0);
}

#[test]
fn push_call_pops_and_pushes() {
    let mut b = CodeBuilder::new();
    b.push(I32Const(1)).unwrap();
    b.push(I32Const(2)).unwrap();
    b.push_call(7, 2, true).unwrap();
    assert_eq!(b.depth(), 1);
    b.push_call(8, 1, false).unwrap();
    assert_eq!(b.depth(), 0);
    assert_eq!(
        finalize(&mut b),
        vec![I32Const(1), I32Const(2), Call(7), Call(8)]
    );
}

#[test]
fn call_arity_failure_leaves_depth_unchanged() {
    let mut b = CodeBuilder::new();
    b.push(I32Const(1)).unwrap();
    b.set_top_symbol(Symbol(9)).unwrap();
    let before = b.depth();
    match b.push_call(5, 2, true) {
        Err(CodeGenError::CallArity { function_index, pops, stack }) => {
            assert_eq!(function_index, 5);
            assert_eq!(pops, 2);
            assert_eq!(stack, vec![Some(Symbol(9))]);
        }
        other => panic!("unexpected {:?}", other),
    }
    assert_eq!(b.depth(), before);
    assert_eq!(b.len(), 1);
}

#[test]
fn batch_matches_one_by_one() {
    let insts = vec![I32Const(1), I32Const(2), I32Add, I32Const(3), I32Mul, Drop, I32Const(4)];
    let mut batch = CodeBuilder::new();
    batch.push(I32Const(0)).unwrap();
    batch.set_top_symbol(Symbol(1)).unwrap();
    batch.extend_from_slice(&insts).unwrap();
    let mut single = CodeBuilder::new();
    single.push(I32Const(0)).unwrap();
    single.set_top_symbol(Symbol(1)).unwrap();
    for i in insts.iter() {
        single.push(i.clone()).unwrap();
    }
    assert_eq!(batch.depth(), 2);
    assert_eq!(batch.depth(), single.depth());
    assert!(batch.verify_stack_match(&[Symbol(1)]) == false);
    assert_eq!(finalize(&mut batch), finalize(&mut single));
}

#[test]
fn batch_that_dips_below_keeps_lower_slots() {
    let mut b = CodeBuilder::new();
    b.push(I32Const(0)).unwrap();
    b.set_top_symbol(Symbol(1)).unwrap();
    b.push(I32Const(1)).unwrap();
    b.set_top_symbol(Symbol(2)).unwrap();
    b.extend_from_slice(&[I32Eqz, Drop, I32Const(5)]).unwrap();
    assert_eq!(b.depth(), 2);
    assert!(b.verify_stack_match(&[Symbol(1)]) == false);
    b.push(Drop).unwrap();
    assert!(b.verify_stack_match(&[Symbol(1)]));
}

#[test]
fn batch_reports_first_failure_and_changes_nothing() {
    let mut b = CodeBuilder::new();
    b.push(I32Const(1)).unwrap();
    match b.extend_from_slice(&[I32Const(2), I32Add, I32Add, I32Const(3)]) {
        Err(CodeGenError::StackUnderflow { at, inst, .. }) => {
            assert_eq!(at, 3);
            assert_eq!(inst, I32Add);
        }
        other => panic!("unexpected {:?}", other),
    }
    assert_eq!(b.depth(), 1);
    assert_eq!(b.len(), 1);
    assert!(matches!(
        b.extend_from_slice(&[Nop, Call(2)]),
        Err(CodeGenError::CallWithoutArity { at: 2, .. })
    ));
    assert_eq!(b.len(), 1);
}

#[test]
fn bind_on_empty_stack_is_refused() {
    let mut b = CodeBuilder::new();
    assert!(matches!(
        b.set_top_symbol(Symbol(3)),
        Err(CodeGenError::EmptyStack { symbol: Symbol(3), code_len: 0 })
    ));
}

#[test]
fn bind_reports_production_position() {
    let mut b = CodeBuilder::new();
    b.push(I32Const(1)).unwrap();
    b.push(I32Const(2)).unwrap();
    assert_eq!(b.set_top_symbol(Symbol(4)).unwrap(), Pushed { pushed_at: 2 });
    assert!(b.verify_stack_match(&[Symbol(4)]));
}

#[test]
fn verify_stack_match_checks_top_in_order() {
    let mut b = CodeBuilder::new();
    b.push(I32Const(1)).unwrap();
    b.set_top_symbol(Symbol(1)).unwrap();
    b.push(I32Const(2)).unwrap();
    b.set_top_symbol(Symbol(2)).unwrap();
    assert!(b.verify_stack_match(&[]));
    assert!(b.verify_stack_match(&[Symbol(1), Symbol(2)]));
    assert!(!b.verify_stack_match(&[Symbol(2), Symbol(1)]));
    assert!(!b.verify_stack_match(&[Symbol(1)]));
    assert!(!b.verify_stack_match(&[Symbol(0), Symbol(1), Symbol(2)]));
}

#[test]
fn zero_cost_load_emits_nothing() {
    let mut b = CodeBuilder::new();
    b.push(I32Const(7)).unwrap();
    let state = b.set_top_symbol(Symbol(1)).unwrap();
    let len_before = b.len();
    let r = b.load_symbol(Symbol(1), state, LocalId(0)).unwrap();
    assert_eq!(r, Some(Popped { pushed_at: 1 }));
    assert_eq!(b.len(), len_before);
    assert_eq!(finalize(&mut b), vec![I32Const(7)]);
}

#[test]
fn buried_value_spills_to_local() {
    let mut b = CodeBuilder::new();
    b.push(I32Const(7)).unwrap();
    let state = b.set_top_symbol(Symbol(1)).unwrap();
    b.push(I32Const(8)).unwrap();
    let r = b.load_symbol(Symbol(1), state, LocalId(3)).unwrap();
    assert_eq!(r, None);
    assert_eq!(b.len(), 4);
    assert_eq!(b.depth(), 2);
    assert!(b.verify_stack_match(&[Symbol(1)]));
    assert_eq!(
        finalize(&mut b),
        vec![I32Const(7), SetLocal(3), I32Const(8), GetLocal(3)]
    );
}

#[test]
fn second_use_keeps_a_copy() {
    let mut b = CodeBuilder::new();
    b.push(I32Const(7)).unwrap();
    let state = b.set_top_symbol(Symbol(1)).unwrap();
    let popped = b.load_symbol(Symbol(1), state, LocalId(0)).unwrap().unwrap();
    b.push(I32Eqz).unwrap();
    let r = b.load_symbol(Symbol(1), popped, LocalId(5)).unwrap();
    assert_eq!(r, None);
    assert_eq!(
        finalize(&mut b),
        vec![I32Const(7), TeeLocal(5), I32Eqz, GetLocal(5)]
    );
}

#[test]
fn end_to_end_add() {
    let a = Symbol(10);
    let bsym = Symbol(11);
    let mut b = CodeBuilder::new();
    b.push(I32Const(1)).unwrap();
    let a_state = b.set_top_symbol(a).unwrap();
    b.push(I32Const(2)).unwrap();
    b.set_top_symbol(bsym).unwrap();
    assert_eq!(b.load_symbol(a, a_state, LocalId(0)).unwrap(), None);
    b.push(I32Add).unwrap();
    assert_eq!(b.depth(), 1);
    assert!(!b.verify_stack_match(&[a]));
    assert!(!b.verify_stack_match(&[bsym]));
    assert_eq!(
        finalize(&mut b),
        vec![I32Const(1), SetLocal(0), I32Const(2), GetLocal(0), I32Add]
    );
}

#[test]
fn merge_places_each_insertion_before_its_anchor() {
    let mut b = CodeBuilder::new();
    b.push(I32Const(1)).unwrap();
    let s1 = b.set_top_symbol(Symbol(1)).unwrap();
    b.push(I32Const(2)).unwrap();
    let s2 = b.set_top_symbol(Symbol(2)).unwrap();
    b.push(I32Const(3)).unwrap();
    // Symbol 2 first, then symbol 1: the ledger is filled out of order.
    b.load_symbol(Symbol(2), s2, LocalId(0)).unwrap();
    b.load_symbol(Symbol(1), s1, LocalId(1)).unwrap();
    assert_eq!(b.len(), 7);
    assert_eq!(
        finalize(&mut b),
        vec![
            I32Const(1),
            SetLocal(1),
            I32Const(2),
            SetLocal(0),
            I32Const(3),
            GetLocal(0),
            GetLocal(1),
        ]
    );
    assert_eq!(b.len(), 0);
    assert_eq!(finalize(&mut b), vec![]);
}

#[test]
fn load_before_production_is_refused() {
    let mut b = CodeBuilder::new();
    assert!(matches!(
        b.load_symbol(Symbol(1), NotYetPushed, LocalId(0)),
        Err(CodeGenError::NoValueYet { symbol: Symbol(1) })
    ));
}

#[test]
fn load_of_missing_symbol_is_refused() {
    let mut b = CodeBuilder::new();
    b.push(I32Const(1)).unwrap();
    let state = Pushed { pushed_at: 1 };
    match b.load_symbol(Symbol(1), state, LocalId(0)) {
        Err(CodeGenError::NotOnStack { symbol, state: s, stack }) => {
            assert_eq!(symbol, Symbol(1));
            assert_eq!(s, state);
            assert_eq!(stack, vec![None]);
        }
        other => panic!("unexpected {:?}", other),
    }
    assert_eq!(b.len(), 1);
}

#[test]
fn load_with_position_beyond_code_is_refused() {
    let mut b = CodeBuilder::new();
    b.push(I32Const(1)).unwrap();
    assert!(matches!(
        b.load_symbol(Symbol(1), Popped { pushed_at: 5 }, LocalId(0)),
        Err(CodeGenError::UnreachedPosition { pushed_at: 5, code_len: 1, .. })
    ));
    assert_eq!(b.len(), 1);
}

#[test]
fn store_cannot_be_scheduled_twice_at_one_position() {
    let mut b = CodeBuilder::new();
    b.push(I32Const(1)).unwrap();
    let state = b.set_top_symbol(Symbol(1)).unwrap();
    b.push(I32Const(2)).unwrap();
    assert_eq!(b.load_symbol(Symbol(1), state, LocalId(0)).unwrap(), None);
    // A stale state for the same production site would turn the plain
    // store into a tee: refused.
    assert!(matches!(
        b.load_symbol(Symbol(1), Popped { pushed_at: 1 }, LocalId(1)),
        Err(CodeGenError::AlreadyScheduled { symbol: Symbol(1), pushed_at: 1 })
    ));
    assert_eq!(
        finalize(&mut b),
        vec![I32Const(1), SetLocal(0), I32Const(2), GetLocal(0)]
    );
}

#[test]
fn clear_empties_everything() {
    let mut b = CodeBuilder::new();
    b.push(I32Const(1)).unwrap();
    let s = b.set_top_symbol(Symbol(1)).unwrap();
    b.push(I32Const(2)).unwrap();
    b.load_symbol(Symbol(1), s, LocalId(0)).unwrap();
    b.clear();
    assert_eq!(b.len(), 0);
    assert_eq!(b.depth(), 0);
    assert_eq!(finalize(&mut b), vec![]);
}
