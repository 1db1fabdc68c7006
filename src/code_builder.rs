//! Builds the instruction stream of one function body for a stack machine.
//!
//! The builder simulates the operand stack, remembering which named value
//! (if any) each slot holds, and keeps a ledger of instructions to splice
//! into the stream at earlier positions once it turns out that a value has
//! to live in a local variable after all.
use vstd::prelude::*;
use std::collections::BTreeMap;
use crate::instruction::Instruction;
use crate::opcode::{get_pops_and_pushes, stack_effect};

verus! {

broadcast use vstd::std_specs::btree::group_btree_axioms;

/// A named intermediate value of the compiler.
#[derive(Debug, Clone, Copy, PartialEq, Eq, Structural)]
pub struct Symbol(pub u64);

/// The index of a local variable of the function being built.
#[derive(Debug, Clone, Copy, PartialEq, Eq, Structural)]
pub struct LocalId(pub u32);

/// Where a named value stands with respect to the operand stack.
#[derive(Debug, Clone, Copy, PartialEq, Eq, Structural)]
pub enum VirtualMachineSymbolState {
    /// The value does not exist yet.
    NotYetPushed,
    /// The value has been pushed and not yet popped. `pushed_at` is the
    /// position just after the instruction that produced it, where a store
    /// can be spliced in later.
    Pushed { pushed_at: usize },
    /// The value has been pushed and then consumed from the top of the
    /// stack. Using it again means keeping a copy in a local at `pushed_at`.
    Popped { pushed_at: usize },
}

/// A slot of the simulated operand stack: the value it holds, when named.
pub type Slot = Option<Symbol>;

/// Why the builder refused a request. Each of these is a defect of the pass
/// that drives the builder; none is an error in the program being compiled.
#[derive(Debug)]
pub enum CodeGenError {
    /// A call was given without its arity: calls go through `push_call`.
    /// `at` is the position the call would have had in the stream.
    CallWithoutArity { at: usize, inst: Instruction },
    /// The instruction at position `at` pops more values than the stack holds.
    StackUnderflow { at: usize, inst: Instruction, stack: Vec<Slot> },
    /// A call takes more arguments than the stack holds.
    CallArity { function_index: u32, pops: usize, stack: Vec<Slot> },
    /// A symbol was bound to the top of an empty stack.
    EmptyStack { symbol: Symbol, code_len: usize },
    /// A symbol was loaded before any instruction produced it.
    NoValueYet { symbol: Symbol },
    /// A symbol said to be on the stack is not there.
    NotOnStack { symbol: Symbol, state: VirtualMachineSymbolState, stack: Vec<Slot> },
    /// A symbol's production position lies beyond the instructions recorded.
    UnreachedPosition { symbol: Symbol, pushed_at: usize, code_len: usize },
    /// A store was already scheduled at the symbol's production position.
    AlreadyScheduled { symbol: Symbol, pushed_at: usize },
}

/// The stack after popping `pops` slots and pushing an anonymous one if
/// `push` holds.
pub open spec fn apply_effect(stack: Seq<Slot>, pops: nat, push: bool) -> Seq<Slot> {
    let kept = stack.take(stack.len() - pops);
    if push {
        kept.push(None)
    } else {
        kept
    }
}

/// The instructions of a function body in their final order: each one
/// preceded by the ledger's entry at its position, if there is one.
pub open spec fn merged(code: Seq<Instruction>, ledger: Map<usize, Instruction>) -> Seq<Instruction>
    decreases code.len(),
{
    if code.len() == 0 {
        Seq::empty()
    } else {
        let n = (code.len() - 1) as int;
        let before = merged(code.take(n), ledger);
        if ledger.contains_key(n as usize) {
            before.push(ledger[n as usize]).push(code[n])
        } else {
            before.push(code[n])
        }
    }
}

/// Runs the stack effects of `insts` one after the other from depth
/// `depth`. `None` when one of them is a call or pops more values than the
/// stack holds at that point; otherwise the lowest depth reached and the
/// depth at the end.
pub open spec fn simulate(depth: nat, insts: Seq<Instruction>) -> Option<(nat, nat)>
    decreases insts.len(),
{
    if insts.len() == 0 {
        Some((depth, depth))
    } else {
        match simulate(depth, insts.drop_last()) {
            None => None,
            Some((lowest, cur)) => match stack_effect(insts.last()) {
                None => None,
                Some((pops, push)) => if pops > cur {
                    None
                } else {
                    let after_pops = (cur - pops) as nat;
                    Some(
                        (
                            if after_pops < lowest {
                                after_pops
                            } else {
                                lowest
                            },
                            if push {
                                after_pops + 1
                            } else {
                                after_pops
                            },
                        ),
                    )
                },
            },
        }
    }
}

/// The stack after a batch whose lowest depth is `lowest` and final depth
/// `end`: the slots below `lowest` stay, the rest are anonymous.
pub open spec fn batch_stack(stack: Seq<Slot>, lowest: nat, end: nat) -> Seq<Slot> {
    stack.take(lowest as int) + Seq::new((end - lowest) as nat, |_i: int| None)
}

/// The stack after pushing `insts` one at a time onto `stack`; `None` when
/// one of them is refused.
pub open spec fn run_one_by_one(stack: Seq<Slot>, insts: Seq<Instruction>) -> Option<Seq<Slot>>
    decreases insts.len(),
{
    if insts.len() == 0 {
        Some(stack)
    } else {
        match run_one_by_one(stack, insts.drop_last()) {
            None => None,
            Some(before) => match stack_effect(insts.last()) {
                None => None,
                Some((pops, push)) => if pops > before.len() {
                    None
                } else {
                    Some(apply_effect(before, pops, push))
                },
            },
        }
    }
}

/// A batch has the net effect of its instructions pushed one at a time: it
/// is refused exactly when one of them would be, and otherwise leaves the
/// same stack.
pub proof fn lemma_batch_is_one_by_one(stack: Seq<Slot>, insts: Seq<Instruction>)
    ensures
        match simulate(stack.len(), insts) {
            None => run_one_by_one(stack, insts) is None,
            Some((lowest, end)) => lowest <= stack.len() && lowest <= end && run_one_by_one(
                stack,
                insts,
            ) == Some(batch_stack(stack, lowest, end)),
        },
    decreases insts.len(),
{
    if insts.len() == 0 {
        assert(batch_stack(stack, stack.len(), stack.len()) =~= stack);
    } else {
        lemma_batch_is_one_by_one(stack, insts.drop_last());
        match simulate(stack.len(), insts.drop_last()) {
            None => {},
            Some((lowest, cur)) => {
                let before = batch_stack(stack, lowest, cur);
                assert(before.len() == cur);
                match stack_effect(insts.last()) {
                    None => {},
                    Some((pops, push)) => {
                        if pops <= cur {
                            let after_pops = (cur - pops) as nat;
                            let low2 = if after_pops < lowest {
                                after_pops
                            } else {
                                lowest
                            };
                            let end2 = if push {
                                after_pops + 1
                            } else {
                                after_pops
                            };
                            assert(apply_effect(before, pops, push) =~= batch_stack(
                                stack,
                                low2,
                                end2,
                            ));
                        }
                    },
                }
            },
        }
    }
}

/// Once a prefix of a batch is refused, the whole batch is.
pub proof fn lemma_simulate_refused_prefix(depth: nat, insts: Seq<Instruction>, n: int)
    requires
        0 <= n <= insts.len(),
        simulate(depth, insts.take(n)) is None,
    ensures
        simulate(depth, insts) is None,
    decreases insts.len() - n,
{
    if n < insts.len() {
        let next = insts.take(n + 1);
        assert(next.drop_last() =~= insts.take(n));
        lemma_simulate_refused_prefix(depth, insts, n + 1);
    } else {
        assert(insts.take(n) =~= insts);
    }
}

/// Whether `sym` is on top of `stack`.
pub open spec fn on_top(stack: Seq<Slot>, sym: Symbol) -> bool {
    stack.len() > 0 && stack.last() == Some(sym)
}

/// The index of the topmost slot of `stack` that holds `sym`.
pub open spec fn last_position(stack: Seq<Slot>, sym: Symbol) -> Option<int>
    decreases stack.len(),
{
    if stack.len() == 0 {
        None
    } else if stack.last() == Some(sym) {
        Some(stack.len() - 1)
    } else {
        last_position(stack.drop_last(), sym)
    }
}

/// `last_position` names a slot of the stack that holds the symbol.
pub proof fn lemma_last_position_in_stack(stack: Seq<Slot>, sym: Symbol)
    ensures
        last_position(stack, sym) matches Some(i) ==> 0 <= i < stack.len() && stack[i] == Some(
            sym,
        ),
    decreases stack.len(),
{
    if stack.len() > 0 && stack.last() != Some(sym) {
        lemma_last_position_in_stack(stack.drop_last(), sym);
    }
}

/// What `load_symbol` does when the value has to move to a local: a store
/// `store` is scheduled at `pushed_at`, a `get_local` of the same local is
/// recorded, and the stack becomes `rest` with the value on top. Refused,
/// with nothing changed, when `pushed_at` lies beyond the recorded
/// instructions or already has an insertion.
pub open spec fn spill_outcome(
    pre: CodeBuilder,
    post: CodeBuilder,
    r: Result<Option<VirtualMachineSymbolState>, CodeGenError>,
    symbol: Symbol,
    pushed_at: usize,
    store: Instruction,
    rest: Seq<Slot>,
) -> bool {
    if pushed_at > pre.code().len() {
        r matches Err(CodeGenError::UnreachedPosition { symbol: s, pushed_at: p, code_len })
            && s == symbol && p == pushed_at && code_len == pre.code().len()
    } else if pre.ledger().contains_key(pushed_at) {
        r matches Err(CodeGenError::AlreadyScheduled { symbol: s, pushed_at: p }) && s == symbol
            && p == pushed_at
    } else {
        &&& r == Ok::<Option<VirtualMachineSymbolState>, CodeGenError>(None)
        &&& post.ledger() == pre.ledger().insert(pushed_at, store)
        &&& post.code() == pre.code().push(Instruction::GetLocal(local_index(store)))
        &&& post.stack() == rest.push(Some(symbol))
    }
}

/// The local that a `set_local` or `tee_local` writes.
pub open spec fn local_index(store: Instruction) -> u32 {
    match store {
        Instruction::SetLocal(l) => l,
        Instruction::TeeLocal(l) => l,
        _ => 0,
    }
}

/// What `CodeBuilder::push` does to `pre`, giving `post` and `r`.
pub open spec fn push_post(
    pre: CodeBuilder,
    post: CodeBuilder,
    inst: Instruction,
    r: Result<(), CodeGenError>,
) -> bool {
    match stack_effect(inst) {
        None => r matches Err(CodeGenError::CallWithoutArity { at, inst: i })
            && at == pre.code().len() && i == inst
            && post == pre,
        Some((pops, push)) => if pops <= pre.stack().len() {
            &&& r is Ok
            &&& post.code() == pre.code().push(inst)
            &&& post.ledger() == pre.ledger()
            &&& post.stack() == apply_effect(pre.stack(), pops, push)
        } else {
            &&& r matches Err(CodeGenError::StackUnderflow { at, inst: i, stack })
            &&& at == pre.code().len() && i == inst && stack@ == pre.stack()
            &&& post == pre
        },
    }
}

/// What `CodeBuilder::set_top_symbol` does to `pre`, giving `post` and `r`.
pub open spec fn set_top_post(
    pre: CodeBuilder,
    post: CodeBuilder,
    sym: Symbol,
    r: Result<VirtualMachineSymbolState, CodeGenError>,
) -> bool {
    &&& pre.stack().len() > 0 ==> {
        &&& r == Ok::<VirtualMachineSymbolState, CodeGenError>(
            VirtualMachineSymbolState::Pushed { pushed_at: pre.code().len() as usize },
        )
        &&& post.code() == pre.code()
        &&& post.ledger() == pre.ledger()
        &&& post.stack() == pre.stack().update(
            pre.stack().len() - 1,
            Some(sym),
        )
    }
    &&& pre.stack().len() == 0 ==> {
        &&& r matches Err(CodeGenError::EmptyStack { symbol, code_len })
        &&& symbol == sym && code_len == pre.code().len()
        &&& post == pre
    }
}

/// What `CodeBuilder::load_symbol` does to `pre`, giving `post` and `r`.
pub open spec fn load_post(
    pre: CodeBuilder,
    post: CodeBuilder,
    symbol: Symbol,
    vm_state: VirtualMachineSymbolState,
    next_local_id: LocalId,
    r: Result<Option<VirtualMachineSymbolState>, CodeGenError>,
) -> bool {
    &&& r is Err ==> post == pre
    &&& match vm_state {
        VirtualMachineSymbolState::NotYetPushed => r matches Err(
            CodeGenError::NoValueYet { symbol: s },
        ) && s == symbol,
        VirtualMachineSymbolState::Pushed { pushed_at } => if on_top(
            pre.stack(),
            symbol,
        ) {
            &&& r == Ok::<Option<VirtualMachineSymbolState>, CodeGenError>(
                Some(VirtualMachineSymbolState::Popped { pushed_at }),
            )
            &&& post == pre
        } else {
            match last_position(pre.stack(), symbol) {
                None => r matches Err(CodeGenError::NotOnStack { symbol: s, state, stack })
                    && s == symbol && state == vm_state && stack@ == pre.stack(),
                Some(i) => spill_outcome(
                    pre,
                    post,
                    r,
                    symbol,
                    pushed_at,
                    Instruction::SetLocal(next_local_id.0),
                    pre.stack().remove(i),
                ),
            }
        },
        VirtualMachineSymbolState::Popped { pushed_at } => spill_outcome(
            pre,
            post,
            r,
            symbol,
            pushed_at,
            Instruction::TeeLocal(next_local_id.0),
            pre.stack(),
        ),
    }
}

/// The number of ledger keys below `p`.
pub open spec fn keys_before(ledger: Map<usize, Instruction>, p: nat) -> nat
    decreases p,
{
    if p == 0 {
        0
    } else {
        keys_before(ledger, (p - 1) as nat) + if ledger.contains_key((p - 1) as usize) {
            1nat
        } else {
            0nat
        }
    }
}

/// Where the recorded instruction at position `p` lands in the output.
pub open spec fn output_index(ledger: Map<usize, Instruction>, p: nat) -> nat {
    p + keys_before(ledger, p) + if ledger.contains_key(p as usize) {
        1nat
    } else {
        0nat
    }
}

/// Two ledgers that agree below `code.len()` merge the same way.
pub proof fn lemma_merged_agree(
    code: Seq<Instruction>,
    l1: Map<usize, Instruction>,
    l2: Map<usize, Instruction>,
)
    requires
        forall|k: usize| #![trigger l1.contains_key(k)] #![trigger l2.contains_key(k)]
            k < code.len() ==> (l1.contains_key(k) == l2.contains_key(k) && (l1.contains_key(k)
                ==> l1[k] == l2[k])),
    ensures
        merged(code, l1) == merged(code, l2),
    decreases code.len(),
{
    if code.len() > 0 {
        lemma_merged_agree(code.take(code.len() - 1), l1, l2);
    }
}

/// Recording one more instruction extends the merge at its end.
pub proof fn lemma_merged_push(code: Seq<Instruction>, ledger: Map<usize, Instruction>, inst: Instruction)
    ensures
        merged(code.push(inst), ledger) == if ledger.contains_key(code.len() as usize) {
            merged(code, ledger).push(ledger[code.len() as usize]).push(inst)
        } else {
            merged(code, ledger).push(inst)
        },
{
    assert(code.push(inst).take(code.len() as int) =~= code);
}

/// The merge of a prefix of the instructions is a prefix of the merge, of
/// length `m` plus the number of keys below `m`.
pub proof fn lemma_merged_prefix(code: Seq<Instruction>, ledger: Map<usize, Instruction>, m: nat)
    requires
        m <= code.len(),
    ensures
        merged(code.take(m as int), ledger).len() == m + keys_before(ledger, m),
        merged(code, ledger).len() >= merged(code.take(m as int), ledger).len(),
        merged(code, ledger).take(merged(code.take(m as int), ledger).len() as int) == merged(
            code.take(m as int),
            ledger,
        ),
    decreases code.len(),
{
    if m == code.len() {
        assert(code.take(m as int) =~= code);
        if m > 0 {
            lemma_merged_prefix(code.take(m - 1), ledger, (m - 1) as nat);
            assert(code.take(m - 1).take(m - 1) =~= code.take(m - 1));
        }
        assert(merged(code, ledger).take(merged(code, ledger).len() as int) =~= merged(
            code,
            ledger,
        ));
    } else {
        let shorter = code.take(code.len() - 1);
        lemma_merged_prefix(shorter, ledger, m);
        assert(shorter.take(m as int) =~= code.take(m as int));
        let whole = merged(code, ledger);
        let front = merged(shorter, ledger);
        let len_m = merged(code.take(m as int), ledger).len() as int;
        assert(whole.take(len_m) =~= front.take(len_m));
    }
}

/// The ledger's keys below `p`, as a set.
pub open spec fn keys_below_set(ledger: Map<usize, Instruction>, p: nat) -> Set<usize> {
    Set::new(|k: usize| ledger.contains_key(k) && k < p)
}

/// `keys_before` counts the keys below `p`.
pub proof fn lemma_keys_before_counts(ledger: Map<usize, Instruction>, p: nat)
    requires
        ledger.dom().finite(),
        p <= usize::MAX + 1,
    ensures
        keys_below_set(ledger, p).finite(),
        keys_below_set(ledger, p).len() == keys_before(ledger, p),
    decreases p,
{
    let here = keys_below_set(ledger, p);
    assert(here.subset_of(ledger.dom()));
    vstd::set_lib::lemma_len_subset(here, ledger.dom());
    if p == 0 {
        assert(here =~= Set::<usize>::empty());
    } else {
        let q = (p - 1) as nat;
        lemma_keys_before_counts(ledger, q);
        let below = keys_below_set(ledger, q);
        if ledger.contains_key(q as usize) {
            assert(here =~= below.insert(q as usize));
        } else {
            assert(here =~= below);
        }
    }
}

/// Merge ordering: with all keys below `code.len()`, the output holds every
/// recorded instruction and every ledger entry once, each entry just before
/// the instruction at its key, and the recorded instructions in their
/// order.
pub proof fn lemma_merge_ordering(code: Seq<Instruction>, ledger: Map<usize, Instruction>)
    requires
        ledger.dom().finite(),
        code.len() <= usize::MAX,
        forall|k: usize| #[trigger] ledger.contains_key(k) ==> k < code.len(),
    ensures
        merged(code, ledger).len() == code.len() + ledger.len(),
        forall|p: nat| #![trigger output_index(ledger, p)]
            p < code.len() ==> output_index(ledger, p) < merged(code, ledger).len()
                && merged(code, ledger)[output_index(ledger, p) as int] == code[p as int],
        forall|p: nat| #![trigger output_index(ledger, p)]
            p < code.len() && ledger.contains_key(p as usize) ==> merged(
                code,
                ledger,
            )[output_index(ledger, p) - 1] == ledger[p as usize],
        forall|p: nat, q: nat|
            p < q < code.len() ==> #[trigger] output_index(ledger, p) < #[trigger] output_index(
                ledger,
                q,
            ),
{
    let n = code.len();
    lemma_merged_prefix(code, ledger, n);
    assert(code.take(n as int) =~= code);
    lemma_keys_before_counts(ledger, n);
    assert(keys_below_set(ledger, n) =~= ledger.dom());
    assert forall|p: nat| #![trigger output_index(ledger, p)] p < code.len() implies output_index(
        ledger,
        p,
    ) < merged(code, ledger).len() && merged(code, ledger)[output_index(ledger, p) as int]
        == code[p as int] && (ledger.contains_key(p as usize) ==> merged(code, ledger)[output_index(
        ledger,
        p,
    ) - 1] == ledger[p as usize]) by {
        lemma_merged_prefix(code, ledger, p + 1);
        let upto = code.take(p as int + 1);
        assert(upto.take(p as int) =~= code.take(p as int));
        lemma_merged_prefix(upto, ledger, p);
        assert(upto.take(p as int).len() == p);
    }
    assert forall|p: nat, q: nat| p < q < code.len() implies #[trigger] output_index(ledger, p)
        < #[trigger] output_index(ledger, q) by {
        lemma_keys_before_monotone(ledger, p + 1, q);
    }
}

/// `keys_before` grows with its bound.
pub proof fn lemma_keys_before_monotone(ledger: Map<usize, Instruction>, p: nat, q: nat)
    requires
        p <= q,
    ensures
        keys_before(ledger, p) <= keys_before(ledger, q),
    decreases q - p,
{
    if p < q {
        lemma_keys_before_monotone(ledger, p, (q - 1) as nat);
    }
}

/// Stack-depth law for one instruction: an accepted instruction leaves the
/// depth at the old depth, minus what it pops, plus one if it pushes.
pub proof fn lemma_depth_after_effect(stack: Seq<Slot>, pops: nat, push: bool)
    requires
        pops <= stack.len(),
    ensures
        apply_effect(stack, pops, push).len() == stack.len() - pops + if push {
            1int
        } else {
            0int
        },
{
}

/// Stack-depth law for a batch: when a batch is accepted, every one of its
/// instructions finds at least as many values on the stack as it pops, so
/// the depth never drops below zero at any point.
pub proof fn lemma_accepted_batch_never_underflows(depth: nat, insts: Seq<Instruction>, n: int)
    requires
        simulate(depth, insts) is Some,
        0 <= n < insts.len(),
    ensures
        simulate(depth, insts.take(n)) matches Some((_lowest, cur)) && stack_effect(
            insts[n],
        ) matches Some((pops, _push)) && pops <= cur,
{
    if simulate(depth, insts.take(n + 1)) is None {
        lemma_simulate_refused_prefix(depth, insts, n + 1);
    }
    assert(insts.take(n + 1).drop_last() =~= insts.take(n));
}

/// Zero-cost reuse: naming the value on top of the stack and then loading
/// it at once emits nothing and schedules nothing; the value is then
/// marked as popped at the same production position.
pub proof fn lemma_bind_then_load_is_free(
    b0: CodeBuilder,
    b1: CodeBuilder,
    b2: CodeBuilder,
    sym: Symbol,
    state: VirtualMachineSymbolState,
    local: LocalId,
    r2: Result<Option<VirtualMachineSymbolState>, CodeGenError>,
)
    requires
        set_top_post(b0, b1, sym, Ok(state)),
        load_post(b1, b2, sym, state, local, r2),
    ensures
        r2 == Ok::<Option<VirtualMachineSymbolState>, CodeGenError>(
            Some(VirtualMachineSymbolState::Popped { pushed_at: b0.code().len() as usize }),
        ),
        b2.code() == b0.code(),
        b2.ledger() == b0.ledger(),
{
}

/// Spilling a buried value: produce a value and name it, push another value
/// over it, then load it. Exactly one store is scheduled, at the position
/// after the producer; the output then reads: producer, store, the other
/// instruction, load of the local.
pub proof fn lemma_buried_value_spills_once(
    b0: CodeBuilder,
    b1: CodeBuilder,
    b2: CodeBuilder,
    b3: CodeBuilder,
    b4: CodeBuilder,
    produce: Instruction,
    other: Instruction,
    sym: Symbol,
    state: VirtualMachineSymbolState,
    local: LocalId,
    r1: Result<(), CodeGenError>,
    r3: Result<(), CodeGenError>,
    r4: Result<Option<VirtualMachineSymbolState>, CodeGenError>,
)
    requires
        b0.wf(),
        b0.code().len() + 3 <= usize::MAX,
        push_post(b0, b1, produce, r1),
        r1 is Ok,
        stack_effect(produce) matches Some((_pops, push)) && push,
        set_top_post(b1, b2, sym, Ok(state)),
        push_post(b2, b3, other, r3),
        stack_effect(other) == Some((0nat, true)),
        load_post(b3, b4, sym, state, local, r4),
    ensures
        r4 == Ok::<Option<VirtualMachineSymbolState>, CodeGenError>(None),
        !b0.ledger().contains_key((b0.code().len() + 1) as usize),
        b4.ledger() == b0.ledger().insert(
            (b0.code().len() + 1) as usize,
            Instruction::SetLocal(local.0),
        ),
        merged(b4.code(), b4.ledger()) == merged(b0.code(), b0.ledger()) + seq![
            produce,
            Instruction::SetLocal(local.0),
            other,
            Instruction::GetLocal(local.0),
        ],
{
    let s2 = b2.stack();
    assert(b1.stack().len() > 0);
    assert(s2.len() > 0 && s2.last() == Some(sym));
    assert(b3.stack() == s2.push(None));
    assert(s2.push(None).drop_last() =~= s2);
    assert(last_position(s2, sym) == Some(s2.len() - 1));
    assert(s2.push(None).last() == None::<Symbol>);
    assert(last_position(s2.push(None), sym) == last_position(s2, sym));
    let c0 = b0.code();
    let l4 = b4.ledger();
    assert(b4.code() == c0.push(produce).push(other).push(Instruction::GetLocal(local.0)));
    lemma_merged_push(c0.push(produce).push(other), l4, Instruction::GetLocal(local.0));
    lemma_merged_push(c0.push(produce), l4, other);
    lemma_merged_push(c0, l4, produce);
    lemma_merged_agree(c0, l4, b0.ledger());
    assert(merged(b4.code(), b4.ledger()) =~= merged(b0.code(), b0.ledger()) + seq![
        produce,
        Instruction::SetLocal(local.0),
        other,
        Instruction::GetLocal(local.0),
    ]);
}

/// Repeated reuse: once a value has been consumed from the top of the
/// stack, loading it again schedules a store that keeps the value on the
/// stack (`tee_local`) at its production position, never a plain store.
pub proof fn lemma_reuse_after_pop_keeps_copy(
    b0: CodeBuilder,
    b1: CodeBuilder,
    c0: CodeBuilder,
    c1: CodeBuilder,
    sym: Symbol,
    pushed_at: usize,
    first: LocalId,
    second: LocalId,
    state: VirtualMachineSymbolState,
    r: Result<Option<VirtualMachineSymbolState>, CodeGenError>,
)
    requires
        load_post(
            b0,
            b1,
            sym,
            VirtualMachineSymbolState::Pushed { pushed_at },
            first,
            Ok(Some(state)),
        ),
        load_post(c0, c1, sym, state, second, r),
    ensures
        state == (VirtualMachineSymbolState::Popped { pushed_at }),
        r is Ok ==> c1.ledger() == c0.ledger().insert(pushed_at, Instruction::TeeLocal(second.0)),
        r is Ok <==> pushed_at <= c0.code().len() && !c0.ledger().contains_key(pushed_at),
{
}

/// A store scheduled at a production position is never replaced: loading a
/// symbol keeps every ledger entry as it was, so a plain store can never
/// be turned into a `tee_local` afterwards.
pub proof fn lemma_scheduled_stores_are_never_replaced(
    pre: CodeBuilder,
    post: CodeBuilder,
    symbol: Symbol,
    vm_state: VirtualMachineSymbolState,
    local: LocalId,
    r: Result<Option<VirtualMachineSymbolState>, CodeGenError>,
    k: usize,
)
    requires
        load_post(pre, post, symbol, vm_state, local, r),
        pre.ledger().contains_key(k),
    ensures
        post.ledger().contains_key(k),
        post.ledger()[k] == pre.ledger()[k],
{
}

/// The builder of one function body.
#[derive(Debug)]
pub struct CodeBuilder {
    /// The instructions recorded so far, in order.
    code: Vec<Instruction>,
    /// Instructions to splice in at earlier positions: each one goes just
    /// before the instruction at its key.
    insertions: BTreeMap<usize, Instruction>,
    /// The simulated operand stack, bottom first.
    vm_stack: Vec<Slot>,
}

impl CodeBuilder {
    /// The instructions recorded so far.
    pub closed spec fn code(&self) -> Seq<Instruction> {
        self.code@
    }

    /// The pending insertions, by position.
    pub closed spec fn ledger(&self) -> Map<usize, Instruction> {
        self.insertions@
    }

    /// The simulated operand stack, bottom first.
    pub closed spec fn stack(&self) -> Seq<Slot> {
        self.vm_stack@
    }

    /// Every insertion is anchored at an instruction already recorded.
    pub closed spec fn wf(&self) -> bool {
        &&& self.insertions@.dom().finite()
        &&& forall|k: usize| #[trigger] self.insertions@.contains_key(k) ==> k < self.code@.len()
    }

    /// An empty builder.
    pub fn new() -> (r: Self)
        ensures
            r.wf(),
            r.code() == Seq::<Instruction>::empty(),
            r.ledger() == Map::<usize, Instruction>::empty(),
            r.stack() == Seq::<Slot>::empty(),
    {
        CodeBuilder { code: Vec::new(), insertions: BTreeMap::new(), vm_stack: Vec::new() }
    }

    /// Empties the builder for the next function body.
    pub fn clear(&mut self)
        ensures
            final(self).wf(),
            final(self).code() == Seq::<Instruction>::empty(),
            final(self).ledger() == Map::<usize, Instruction>::empty(),
            final(self).stack() == Seq::<Slot>::empty(),
    {
        self.code.clear();
        self.insertions.clear();
        self.vm_stack.clear();
    }

    /// The number of values on the simulated stack.
    pub fn depth(&self) -> (r: usize)
        ensures
            r == self.stack().len(),
    {
        self.vm_stack.len()
    }

    /// Records one instruction and applies its stack effect. Calls are
    /// refused (`push_call` takes them), and so is an instruction that pops
    /// more values than the stack holds; the builder is then unchanged.
    pub fn push(&mut self, inst: Instruction) -> (r: Result<(), CodeGenError>)
        requires
            old(self).wf(),
        ensures
            final(self).wf(),
            push_post(*old(self), *final(self), inst, r),

    {
        let at = self.code.len();
        match get_pops_and_pushes(&inst) {
            None => Err(CodeGenError::CallWithoutArity { at, inst }),
            Some((pops, push)) => {
                let depth = self.vm_stack.len();
                if pops as usize > depth {
                    let stack = self.stack_dump();
                    return Err(CodeGenError::StackUnderflow { at, inst, stack });
                }
                self.vm_stack.truncate(depth - pops as usize);
                if push {
                    self.vm_stack.push(None);
                }
                self.code.push(inst);
                Ok(())
            },
        }
    }

    /// Records a batch of instructions. The stack ends as if they had been
    /// pushed one by one; one pass tracks the depth and the lowest depth
    /// reached. A batch that one-by-one pushing would refuse is refused
    /// whole, at the same instruction, and changes nothing.
    pub fn extend_from_slice(&mut self, instructions: &[Instruction]) -> (r: Result<(), CodeGenError>)
        requires
            old(self).wf(),
            old(self).stack().len() + instructions@.len() <= usize::MAX,
            old(self).code().len() + instructions@.len() <= usize::MAX,
        ensures
            final(self).wf(),
            match simulate(old(self).stack().len(), instructions@) {
                Some((lowest, end)) => {
                    &&& r is Ok
                    &&& final(self).code().len() == old(self).code().len() + instructions@.len()
                    &&& final(self).code().take(old(self).code().len() as int) == old(self).code()
                    &&& forall|i: int|
                        0 <= i < instructions@.len() ==> cloned(
                            instructions@[i],
                            #[trigger] final(self).code()[old(self).code().len() + i],
                        )
                    &&& final(self).ledger() == old(self).ledger()
                    &&& final(self).stack() == batch_stack(old(self).stack(), lowest, end)
                },
                None => {
                    &&& r matches Err(e) && ({
                        let i = match e {
                            CodeGenError::CallWithoutArity { at, .. } => at - old(self).code().len(),
                            CodeGenError::StackUnderflow { at, .. } => at - old(self).code().len(),
                            _ => -1,
                        };
                        &&& 0 <= i < instructions@.len()
                        &&& simulate(old(self).stack().len(), instructions@.take(i)) is Some
                        &&& simulate(old(self).stack().len(), instructions@.take(i + 1)) is None
                        &&& e is CallWithoutArity <==> stack_effect(instructions@[i]) is None
                    })
                    &&& *final(self) == *old(self)
                },
            },
    {
        let depth = self.vm_stack.len();
        let at = self.code.len();
        let mut len: usize = depth;
        let mut min_len: usize = depth;
        let mut i: usize = 0;
        while i < instructions.len()
            invariant
                i <= instructions@.len(),
                *self == *old(self),
                self.wf(),
                depth == self.vm_stack@.len(),
                at == self.code@.len(),
                depth + instructions@.len() <= usize::MAX,
                at + instructions@.len() <= usize::MAX,
                len <= depth + i,
                min_len <= len,
                min_len <= depth,
                simulate(depth as nat, instructions@.take(i as int)) == Some(
                    (min_len as nat, len as nat),
                ),
            decreases instructions@.len() - i,
        {
            let ghost prefix = instructions@.take(i as int);
            assert(instructions@.take(i + 1).drop_last() =~= prefix);
            match get_pops_and_pushes(&instructions[i]) {
                None => {
                    proof {
                        lemma_simulate_refused_prefix(depth as nat, instructions@, i + 1);
                    }
                    return Err(
                        CodeGenError::CallWithoutArity { at: at + i, inst: instructions[i].clone() },
                    );
                },
                Some((pops, push)) => {
                    if pops as usize > len {
                        proof {
                            lemma_simulate_refused_prefix(depth as nat, instructions@, i + 1);
                        }
                        let stack = self.stack_dump();
                        return Err(
                            CodeGenError::StackUnderflow {
                                at: at + i,
                                inst: instructions[i].clone(),
                                stack,
                            },
                        );
                    }
                    len = len - pops as usize;
                    if len < min_len {
                        min_len = len;
                    }
                    if push {
                        len = len + 1;
                    }
                },
            }
            i += 1;
        }
        assert(instructions@.take(i as int) =~= instructions@);
        self.vm_stack.truncate(min_len);
        let ghost kept = self.vm_stack@;
        while self.vm_stack.len() < len
            invariant
                self.code@ == old(self).code@,
                self.insertions@ == old(self).insertions@,
                at == self.code@.len(),
                min_len <= len,
                kept.len() == min_len,
                min_len <= self.vm_stack@.len() <= len,
                self.vm_stack@.take(min_len as int) == kept,
                forall|j: int| min_len <= j < self.vm_stack@.len() ==> self.vm_stack@[j] == None::<Symbol>,
            decreases len - self.vm_stack@.len(),
        {
            self.vm_stack.push(None);
            assert(self.vm_stack@.take(min_len as int) =~= kept);
        }
        assert(self.vm_stack@ =~= batch_stack(old(self).vm_stack@, min_len as nat, len as nat));
        self.code.extend_from_slice(instructions);
        assert(self.code@.take(at as int) =~= old(self).code@);
        Ok(())
    }

    /// Records a call of the function `function_index` that pops `pops`
    /// arguments and pushes a result if `push` holds. A call with more
    /// arguments than the stack holds is refused and changes nothing.
    pub fn push_call(&mut self, function_index: u32, pops: usize, push: bool) -> (r: Result<
        (),
        CodeGenError,
    >)
        requires
            old(self).wf(),
        ensures
            final(self).wf(),
            pops <= old(self).stack().len() ==> {
                &&& r is Ok
                &&& final(self).code() == old(self).code().push(Instruction::Call(function_index))
                &&& final(self).ledger() == old(self).ledger()
                &&& final(self).stack() == apply_effect(old(self).stack(), pops as nat, push)
            },
            pops > old(self).stack().len() ==> {
                &&& r matches Err(CodeGenError::CallArity { function_index: f, pops: p, stack })
                &&& f == function_index && p == pops && stack@ == old(self).stack()
                &&& *final(self) == *old(self)
            },
    {
        let depth = self.vm_stack.len();
        if pops > depth {
            let stack = self.stack_dump();
            return Err(CodeGenError::CallArity { function_index, pops, stack });
        }
        self.vm_stack.truncate(depth - pops);
        if push {
            self.vm_stack.push(None);
        }
        self.code.push(Instruction::Call(function_index));
        Ok(())
    }

    /// Appends the function body to `final_code`: the recorded instructions
    /// in order, each preceded by the ledger's entry at its position. The
    /// instructions and the ledger are used up; the stack is left as it is.
    pub fn finalize_into(&mut self, final_code: &mut Vec<Instruction>)
        requires
            old(self).wf(),
        ensures
            final(self).wf(),
            final(final_code)@ == old(final_code)@ + merged(old(self).code(), old(self).ledger()),
            final(self).code() == Seq::<Instruction>::empty(),
            final(self).ledger() == Map::<usize, Instruction>::empty(),
            final(self).stack() == old(self).stack(),
    {
        let ghost code0 = self.code@;
        let ghost ledger0 = self.insertions@;
        let ghost out0 = final_code@;
        let n = self.code.len();
        // Reversed, so that popping hands the instructions out in order.
        let mut rev: Vec<Instruction> = Vec::new();
        while self.code.len() > 0
            invariant
                self.code@.len() + rev@.len() == n,
                n == code0.len(),
                self.code@ == code0.take(self.code@.len() as int),
                forall|j: int| 0 <= j < rev@.len() ==> rev@[j] == code0[n - 1 - j],
                self.insertions@ == ledger0,
                self.vm_stack@ == old(self).vm_stack@,
                final_code@ == out0,
            decreases self.code@.len(),
        {
            let inst = self.code.pop().unwrap();
            rev.push(inst);
            assert(self.code@ =~= code0.take(self.code@.len() as int));
        }
        let mut pos: usize = 0;
        while pos < n
            invariant
                pos <= n,
                n == code0.len(),
                self.code@.len() == 0,
                rev@.len() == n - pos,
                forall|j: int| 0 <= j < rev@.len() ==> rev@[j] == code0[n - 1 - j],
                forall|k: usize| #[trigger] ledger0.contains_key(k) ==> k < n,
                forall|k: usize| #[trigger]
                    self.insertions@.contains_key(k) == (ledger0.contains_key(k) && k >= pos),
                forall|k: usize| #[trigger]
                    self.insertions@.contains_key(k) ==> self.insertions@[k] == ledger0[k],
                self.vm_stack@ == old(self).vm_stack@,
                final_code@ == out0 + merged(code0.take(pos as int), ledger0),
            decreases n - pos,
        {
            let inst = rev.pop().unwrap();
            assert(code0.take(pos + 1).take(pos as int) =~= code0.take(pos as int));
            assert(code0.take(pos + 1).last() == code0[pos as int]);
            let ghost before = final_code@;
            match self.insertions.remove(&pos) {
                Some(extra) => {
                    final_code.push(extra);
                },
                None => {},
            }
            final_code.push(inst);
            assert(final_code@ =~= out0 + merged(code0.take(pos + 1), ledger0));
            pos += 1;
        }
        assert(self.insertions@ =~= Map::<usize, Instruction>::empty());
        assert(code0.take(n as int) =~= code0);
    }

    /// The index of the topmost slot that holds `sym`.
    fn find_symbol(&self, sym: Symbol) -> (r: Option<usize>)
        ensures
            match r {
                None => last_position(self.stack(), sym) is None,
                Some(i) => last_position(self.stack(), sym) == Some(i as int),
            },
    {
        let mut i: usize = self.vm_stack.len();
        assert(self.vm_stack@.take(i as int) =~= self.vm_stack@);
        while i > 0
            invariant
                i <= self.vm_stack@.len(),
                last_position(self.vm_stack@, sym) == last_position(
                    self.vm_stack@.take(i as int),
                    sym,
                ),
            decreases i,
        {
            let ghost prefix = self.vm_stack@.take(i as int);
            assert(prefix.drop_last() =~= self.vm_stack@.take(i - 1));
            let same = match self.vm_stack[i - 1] {
                Some(s) => s == sym,
                None => false,
            };
            if same {
                return Some(i - 1);
            }
            i -= 1;
        }
        None
    }

    /// Makes the value `symbol` the next operand, given its state
    /// `vm_state`, at the lowest cost:
    ///
    /// - already on top of the stack: nothing is emitted, and the new state
    ///   is `Popped` at the same position;
    /// - pushed but buried: a `set_local` of `next_local_id` is scheduled
    ///   where the value was produced, its slot leaves the stack, and a
    ///   `get_local` pushes it again now;
    /// - popped: it is used a second time, so a `tee_local` (keeping the
    ///   copy on the stack for the first use) is scheduled where it was
    ///   produced, and a `get_local` pushes it now.
    ///
    /// `Ok(None)` says that the value now lives in the local. A request that
    /// contradicts the builder's state is refused and changes nothing.
    pub fn load_symbol(
        &mut self,
        symbol: Symbol,
        vm_state: VirtualMachineSymbolState,
        next_local_id: LocalId,
    ) -> (r: Result<Option<VirtualMachineSymbolState>, CodeGenError>)
        requires
            old(self).wf(),
        ensures
            final(self).wf(),
            load_post(*old(self), *final(self), symbol, vm_state, next_local_id, r),

    {
        let (pushed_at, store) = match vm_state {
            VirtualMachineSymbolState::NotYetPushed => {
                return Err(CodeGenError::NoValueYet { symbol });
            },
            VirtualMachineSymbolState::Pushed { pushed_at } => {
                let len = self.vm_stack.len();
                if len > 0 {
                    let on_top = match self.vm_stack[len - 1] {
                        Some(s) => s == symbol,
                        None => false,
                    };
                    if on_top {
                        // The value is where its user wants it: no code at all.
                        return Ok(Some(VirtualMachineSymbolState::Popped { pushed_at }));
                    }
                }
                (pushed_at, Instruction::SetLocal(next_local_id.0))
            },
            VirtualMachineSymbolState::Popped { pushed_at } => {
                (pushed_at, Instruction::TeeLocal(next_local_id.0))
            },
        };
        let found = match vm_state {
            VirtualMachineSymbolState::Pushed { .. } => match self.find_symbol(symbol) {
                None => {
                    let stack = self.stack_dump();
                    return Err(CodeGenError::NotOnStack { symbol, state: vm_state, stack });
                },
                Some(i) => Some(i),
            },
            _ => None,
        };
        let code_len = self.code.len();
        if pushed_at > code_len {
            return Err(CodeGenError::UnreachedPosition { symbol, pushed_at, code_len });
        }
        if self.insertions.contains_key(&pushed_at) {
            return Err(CodeGenError::AlreadyScheduled { symbol, pushed_at });
        }
        proof {
            lemma_last_position_in_stack(self.vm_stack@, symbol);
        }
        match found {
            Some(i) => {
                self.vm_stack.remove(i);
            },
            None => {},
        }
        self.insertions.insert(pushed_at, store);
        self.code.push(Instruction::GetLocal(next_local_id.0));
        self.vm_stack.push(Some(symbol));
        Ok(None)
    }

    /// The number of instructions that finalizing would produce now.
    pub fn len(&self) -> (r: usize)
        requires
            self.wf(),
            self.code().len() + self.ledger().len() <= usize::MAX,
        ensures
            r == self.code().len() + self.ledger().len(),
    {
        self.code.len() + self.insertions.len()
    }

    /// Names the value on top of the stack `sym`, and returns its state:
    /// pushed, with the current position as its production point.
    pub fn set_top_symbol(&mut self, sym: Symbol) -> (r: Result<VirtualMachineSymbolState, CodeGenError>)
        requires
            old(self).wf(),
        ensures
            final(self).wf(),
            set_top_post(*old(self), *final(self), sym, r),

    {
        let len = self.vm_stack.len();
        let pushed_at = self.code.len();
        if len == 0 {
            return Err(CodeGenError::EmptyStack { symbol: sym, code_len: pushed_at });
        }
        self.vm_stack.set(len - 1, Some(sym));
        Ok(VirtualMachineSymbolState::Pushed { pushed_at })
    }

    /// Whether the top `symbols.len()` slots of the stack hold `symbols`,
    /// in order.
    pub fn verify_stack_match(&self, symbols: &[Symbol]) -> (r: bool)
        ensures
            r == (symbols@.len() <= self.stack().len() && forall|i: int|
                0 <= i < symbols@.len() ==> self.stack()[self.stack().len() - symbols@.len() + i]
                    == Some(symbols@[i])),
    {
        let n_symbols = symbols.len();
        let stack_depth = self.vm_stack.len();
        if n_symbols > stack_depth {
            return false;
        }
        let offset = stack_depth - n_symbols;
        let mut i: usize = 0;
        while i < n_symbols
            invariant
                n_symbols == symbols@.len(),
                stack_depth == self.vm_stack@.len(),
                offset + n_symbols == stack_depth,
                i <= n_symbols,
                forall|j: int| 0 <= j < i ==> self.vm_stack@[offset + j] == Some(symbols@[j]),
            decreases n_symbols - i,
        {
            let same = match self.vm_stack[offset + i] {
                Some(s) => s == symbols[i],
                None => false,
            };
            if !same {
                assert(self.stack()[self.stack().len() - symbols@.len() + i] != Some(symbols@[i as int]));
                return false;
            }
            i += 1;
        }
        true
    }

    /// A copy of the simulated stack, for diagnostics.
    fn stack_dump(&self) -> (r: Vec<Slot>)
        ensures
            r@ == self.stack(),
    {
        let mut r: Vec<Slot> = Vec::new();
        let mut i: usize = 0;
        while i < self.vm_stack.len()
            invariant
                i <= self.vm_stack@.len(),
                r@ == self.vm_stack@.take(i as int),
            decreases self.vm_stack@.len() - i,
        {
            r.push(self.vm_stack[i]);
            i += 1;
            assert(r@ =~= self.vm_stack@.take(i as int));
        }
        assert(self.vm_stack@.take(i as int) =~= self.vm_stack@);
        r
    }
}

} // verus!
