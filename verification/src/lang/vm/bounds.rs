//! The program counter stays within the code.

use super::compile::is_compiled;
use super::evaluated;
use super::evaluation_effect;
use super::executed;
use super::instruction_effect;
use super::primitive_called;
use super::ran;
use super::stepped;
use super::Machine;
use super::Primitive;
use super::Vm;
use super::VmErrorReason;
use super::VmExecutionState;
use crate::lang::tokenizer::ValueToken;
use crate::lang::value::Address;
use crate::lang::value::CodeAddress;
use crate::lang::value::Instruction;
use crate::lang::value::Value;
use crate::lang::word::Dictionary;
use vstd::prelude::*;

verus! {

/// Whether `a` is the root address or an index into a code of the length
/// `len`, or the index behind its last instruction.
pub open spec fn within(a: CodeAddress, len: nat) -> bool {
    a.0 matches Address::Entity(i) ==> i <= len
}

/// Whether `v` is no code address, or one within a code of the length
/// `len`.
pub open spec fn value_within<T>(v: Value<T>, len: nat) -> bool {
    v matches Value::CodeAddress(a) ==> within(a, len)
}

/// Whether the address or the value that `inst` holds is within a code of
/// the length `len`.
pub open spec fn operand_within<T, P>(inst: Instruction<T, P>, len: nat) -> bool {
    match inst {
        Instruction::Call(a) => within(a, len),
        Instruction::Jump(a) => within(a, len),
        Instruction::Branch(a) => within(a, len),
        Instruction::SetJump(a) => within(a, len),
        Instruction::Push(v) => value_within(*v, len),
        _ => true,
    }
}

/// Whether the program counter of `m`, every address to return or to jump
/// to that its stacks keep, and every code address on its data stack and
/// its environment stack are within a code of the length `len`.
pub open spec fn machine_within<T>(m: Machine<T>, len: nat) -> bool {
    &&& within(m.pc, len)
    &&& forall|i: int| 0 <= i < m.calls.len() ==> within((#[trigger] m.calls[i]).return_address, len)
    &&& forall|i: int| 0 <= i < m.jumps.len() ==> within((#[trigger] m.jumps[i]).return_address, len)
    &&& forall|i: int| 0 <= i < m.data.len() ==> value_within(*(#[trigger] m.data[i]), len)
    &&& forall|i: int| 0 <= i < m.env.len() ==> value_within(*(#[trigger] m.env[i]), len)
}

/// Whether the body of every word of `d`, the reserved one too, starts
/// within a code of the length `len`.
pub open spec fn words_within(d: Dictionary, len: nat) -> bool {
    &&& forall|n: Seq<char>|
        d.committed().contains_key(n) ==> within((#[trigger] d.committed()[n]).code, len)
    &&& d.reserved_word() matches Some(w) ==> within(w.code, len)
}

/// Whether the machine is within its code: the program counter, every
/// address that the code, the stacks, the waiting scripts and the
/// dictionary keep, and every code address on the data stack and the
/// environment stack are the root address or at most the length of the
/// code; and where tokens are read, here or in a waiting script, the
/// program counter is the root address.
pub open spec fn within_code<T, E, R, P>(vm: Vm<T, E, R, P>) -> bool {
    let len = vm.code_buffer@.len();
    &&& machine_within(vm.machine(), len)
    &&& vm.execution_state is TokenIteration ==> vm.program_counter.0 is Root
    &&& forall|i: int| 0 <= i < len ==> operand_within(#[trigger] vm.code_buffer@[i], len)
    &&& forall|i: int|
        0 <= i < vm.script_call_stack@.len() ==> {
            let waiting = #[trigger] vm.script_call_stack@[i];
            within(waiting.3, len) && (waiting.2 is TokenIteration ==> waiting.3.0 is Root)
        }
    &&& words_within(vm.word_dictionary, len)
}

/// An instruction that calls no primitive, holds nothing beyond the code and
/// is executed within the code, or while the program counter is the root
/// address, leaves the machine within the code.
pub proof fn instruction_stays_within<T, P, E>(m: Machine<T>, inst: Instruction<T, P>, len: nat)
    requires
        machine_within(m, len),
        operand_within(inst, len),
        m.pc.0 matches Address::Entity(i) ==> i < len,
    ensures
        machine_within(instruction_effect::<T, P, E>(m, inst).0, len),
        machine_within(evaluation_effect::<T, P, E>(m, inst).0, len),
        instruction_effect::<T, P, E>(m, inst).0.execution_state == m.execution_state,
        m.pc.0 is Root && !(inst is Return) && !(inst is Jump) && !(inst is Branch) && !(inst
            is LongJump) && !(inst is Exec) && !(inst is Call) ==> instruction_effect::<T, P, E>(
            m,
            inst,
        ).0.pc.0 is Root,
{
    let after = instruction_effect::<T, P, E>(m, inst).0;
    assert(machine_within(after, len));
    let called = evaluation_effect::<T, P, E>(m, inst).0;
    assert(machine_within(called, len));
}

/// Whether every call of a primitive leaves a machine within its code
/// that was within it.
pub open spec fn primitives_stay_within<T, E, R, P: Primitive<T, E, R>>() -> bool {
    forall|a: Vm<T, E, R, P>, f: P, b: Vm<T, E, R, P>, res: Result<(), VmErrorReason<E>>|
        within_code(a) && #[trigger] primitive_called(a, f, b, res) ==> within_code(b)
}

/// Executing an instruction that holds nothing beyond the code, within the
/// code, leaves the machine within its code.
proof fn applied_stays_within<T, E, R, P: Primitive<T, E, R>>(
    before: Vm<T, E, R, P>,
    inst: Instruction<T, P>,
    after: Vm<T, E, R, P>,
    r: Result<(), VmErrorReason<E>>,
)
    requires
        super::applied(before, inst, after, r),
        within_code(before),
        operand_within(inst, before.code_buffer@.len()),
        before.program_counter.0 matches Address::Entity(i) ==> i < before.code_buffer@.len(),
        before.execution_state is CodeExecution,
        primitives_stay_within::<T, E, R, P>(),
    ensures
        within_code(after),
        !(inst is CallPrimitive) ==> after.execution_state is CodeExecution,
{
    match inst {
        Instruction::CallPrimitive(f) => {
            if super::can_advance(before.program_counter) {
                assert(primitive_called(before, f, after, r));
            }
        },
        _ => {
            instruction_stays_within::<T, P, E>(before.machine(), inst, before.code_buffer@.len());
            assert(after.machine() == instruction_effect::<T, P, E>(before.machine(), inst).0);
            assert(before.same_surroundings(&after));
        },
    }
}

/// Executing the instruction at the program counter leaves the machine
/// within its code.
proof fn executed_stays_within<T, E, R, P: Primitive<T, E, R>>(
    before: Vm<T, E, R, P>,
    after: Vm<T, E, R, P>,
    r: Result<(), VmErrorReason<E>>,
)
    requires
        executed(before, after, r),
        within_code(before),
        before.execution_state is CodeExecution,
        primitives_stay_within::<T, E, R, P>(),
    ensures
        within_code(after),
{
    match before.program_counter.0 {
        Address::Root => {
            assert(after.machine() == (Machine {
                execution_state: VmExecutionState::TokenIteration,
                ..before.machine()
            }));
        },
        Address::Entity(i) => {
            if i < before.code_buffer@.len() {
                let inst = before.code_buffer@[i as int];
                let mid = choose|mid: Vm<T, E, R, P>|
                    #[trigger] super::applied(before, inst, mid, r) && after == if r is Ok && (
                    mid.program_counter.0 is Root || mid.execution_state
                        != VmExecutionState::CodeExecution) {
                        Vm { execution_state: VmExecutionState::TokenIteration, ..mid }
                    } else {
                        mid
                    };
                applied_stays_within(before, inst, mid, r);
                if r is Ok && (mid.program_counter.0 is Root || mid.execution_state
                    != VmExecutionState::CodeExecution) {
                    assert(after.machine() == (Machine {
                        execution_state: VmExecutionState::TokenIteration,
                        ..mid.machine()
                    }));
                }
            }
        },
    }
}

/// Evaluating what a token was compiled to, while tokens are read, leaves
/// the machine within its code.
proof fn evaluated_stays_within<T, E, R, P: Primitive<T, E, R>>(
    before: Vm<T, E, R, P>,
    token: ValueToken,
    recursable: bool,
    inst: Instruction<T, P>,
    immediate: bool,
    after: Vm<T, E, R, P>,
    r: Result<(), VmErrorReason<E>>,
)
    requires
        is_compiled::<T, P, E>(
            before.local_dictionary,
            before.word_dictionary,
            token,
            recursable,
            Ok((inst, immediate)),
        ),
        evaluated(before, inst, after, r),
        within_code(before),
        before.execution_state is TokenIteration,
    ensures
        within_code(after),
        operand_within(inst, before.code_buffer@.len()),
{
    let len = before.code_buffer@.len();
    assert(inst is Push || inst is LocalRef || inst is Call);
    assert(operand_within(inst, len));
    instruction_stays_within::<T, P, E>(before.machine(), inst, len);
    assert(before.same_surroundings(&after));
    match inst {
        Instruction::Call(_) => {
            assert(after.machine() == evaluation_effect::<T, P, E>(before.machine(), inst).0);
        },
        _ => {
            assert(after.machine() == instruction_effect::<T, P, E>(before.machine(), inst).0);
        },
    }
}

/// A round of work leaves a machine within its code that was within it,
/// where every call of a primitive does.
pub proof fn step_stays_within_code<T, E, R, P: Primitive<T, E, R>>(
    before: Vm<T, E, R, P>,
    after: Vm<T, E, R, P>,
    r: Result<bool, VmErrorReason<E>>,
)
    requires
        stepped(before, after, r),
        within_code(before),
        primitives_stay_within::<T, E, R, P>(),
    ensures
        within_code(after),
{
    match before.execution_state {
        VmExecutionState::CodeExecution => {
            let res = choose|res: Result<(), VmErrorReason<E>>| #[trigger]
                executed(before, after, res) && r == super::going_on(res);
            executed_stays_within(before, after, res);
        },
        VmExecutionState::TokenIteration => match before.state {
            super::VmState::Interpretation => {
                let res = choose|res: Result<(), VmErrorReason<E>>| #[trigger]
                    super::token_interpreted(before, after, res) && r == super::going_on(res);
                token_stays_within(before, false, true, after, res);
            },
            super::VmState::Compilation => {
                let res = choose|res: Result<(), VmErrorReason<E>>| #[trigger]
                    super::token_compiled(before, false, after, res) && r == super::going_on(res);
                token_stays_within(before, false, false, after, res);
            },
            super::VmState::RecursableCompilation => {
                let res = choose|res: Result<(), VmErrorReason<E>>| #[trigger]
                    super::token_compiled(before, true, after, res) && r == super::going_on(res);
                token_stays_within(before, true, false, after, res);
            },
            super::VmState::Return => {
                assert(super::returned(before, after));
                if before.script_call_stack@.len() > 0 {
                    let top = before.script_call_stack@.last();
                    assert(top == before.script_call_stack@[before.script_call_stack@.len() - 1]);
                    assert forall|i: int| 0 <= i < after.script_call_stack@.len() implies {
                        let waiting = #[trigger] after.script_call_stack@[i];
                        within(waiting.3, after.code_buffer@.len()) && (waiting.2
                            is TokenIteration ==> waiting.3.0 is Root)
                    } by {
                        assert(after.script_call_stack@[i] == before.script_call_stack@[i]);
                    }
                }
                assert(after.machine() == (Machine {
                    pc: after.program_counter,
                    execution_state: after.execution_state,
                    ..before.machine()
                }));
            },
            super::VmState::Stop => {
                assert(after.machine() == before.machine());
            },
        },
    }
}

/// Reading a token and interpreting or compiling it leaves the machine
/// within its code.
proof fn token_stays_within<T, E, R, P: Primitive<T, E, R>>(
    before: Vm<T, E, R, P>,
    recursable: bool,
    interpreting: bool,
    after: Vm<T, E, R, P>,
    r: Result<(), VmErrorReason<E>>,
)
    requires
        within_code(before),
        before.execution_state is TokenIteration,
        if interpreting {
            super::token_interpreted(before, after, r) && !recursable
        } else {
            super::token_compiled(before, recursable, after, r)
        },
    ensures
        within_code(after),
{
    let (input, token) = if interpreting {
        choose|input: crate::lang::tokenizer::TokenStream, token: Option<crate::lang::tokenizer::Token>|
            super::token_read(before.input, input, token) && #[trigger] super::interpreted(
                super::reading_from(before, input),
                token,
                after,
                r,
            )
    } else {
        choose|input: crate::lang::tokenizer::TokenStream, token: Option<crate::lang::tokenizer::Token>|
            super::token_read(before.input, input, token) && #[trigger] super::compiled(
                super::reading_from(before, input),
                token,
                recursable,
                after,
                r,
            )
    };
    let read = super::reading_from(before, input);
    assert(read.machine() == before.machine());
    assert(within_code(read));
    match token {
        None => {
            assert(after.machine() == read.machine());
        },
        Some(t) => {
            let placed = Vm {
                current_line_number: t.line_number,
                current_column_number: t.column_number,
                ..read
            };
            assert(placed.machine() == read.machine());
            assert(within_code(placed));
            match t.value_token {
                Err(_) => {},
                Ok(v) => {
                    let c = choose|c: Result<(Instruction<T, P>, bool), VmErrorReason<E>>|
                        #[trigger] is_compiled(
                            read.local_dictionary,
                            read.word_dictionary,
                            v,
                            recursable,
                            c,
                        ) && match c {
                            Err(e) => after == placed && r == Err::<(), VmErrorReason<E>>(e),
                            Ok((inst, immediate)) => if interpreting || immediate {
                                evaluated(placed, inst, after, r)
                            } else {
                                super::emitted(placed, inst, after) && r is Ok
                            },
                        };
                    match c {
                        Err(_) => {},
                        Ok((inst, immediate)) => {
                            if interpreting || immediate {
                                evaluated_stays_within(
                                    placed,
                                    v,
                                    recursable,
                                    inst,
                                    immediate,
                                    after,
                                    r,
                                );
                            } else {
                                assert(inst is Push || inst is LocalRef || inst is Call);
                                assert(operand_within(inst, placed.code_buffer@.len()));
                                assert(after.machine() == placed.machine());
                                let len = after.code_buffer@.len();
                                assert forall|i: int| 0 <= i < len implies operand_within(
                                    #[trigger] after.code_buffer@[i],
                                    len,
                                ) by {
                                    if i < len - 1 {
                                        assert(after.code_buffer@[i] == placed.code_buffer@[i]);
                                        assert(operand_within(
                                            placed.code_buffer@[i],
                                            placed.code_buffer@.len(),
                                        ));
                                    }
                                }
                            }
                        },
                    }
                },
            }
        },
    }
}

/// A run leaves a machine within its code that was within it, where every
/// call of a primitive does: at every round of the run, and when it ends,
/// the program counter is the root address or at most the length of the
/// code.
pub proof fn run_stays_within_code<T, E, R, P: Primitive<T, E, R>>(
    before: Vm<T, E, R, P>,
    after: Vm<T, E, R, P>,
    rounds: nat,
    r: Result<bool, VmErrorReason<E>>,
)
    requires
        ran(before, after, rounds, r),
        within_code(before),
        primitives_stay_within::<T, E, R, P>(),
    ensures
        within_code(after),
        within(after.program_counter, after.code_buffer@.len()),
    decreases rounds,
{
    if rounds > 0 {
        let (mid, first) = choose|mid: Vm<T, E, R, P>, first: Result<bool, VmErrorReason<E>>|
            #[trigger] stepped(before, mid, first) && if first == Ok::<bool, VmErrorReason<E>>(
                false,
            ) {
                ran(mid, after, (rounds - 1) as nat, r)
            } else {
                after == mid && r == first
            };
        step_stays_within_code(before, mid, first);
        if first == Ok::<bool, VmErrorReason<E>>(false) {
            run_stays_within_code(mid, after, (rounds - 1) as nat, r);
        }
    }
}

} // verus!
