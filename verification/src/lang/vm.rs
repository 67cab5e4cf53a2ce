//! The virtual machine.
//!
//! The machine reads tokens and either evaluates them or compiles them into
//! the code buffer, and it executes the code of the words that it calls.
//! Every round of this work is one call of [`Vm::step`].

pub mod bounds;
pub mod compile;
pub mod dump;

use super::debug::DebugInfoStore;
use super::mem::BufferErrorReason;
use super::mem::CodeBuffer;
use super::mem::CodeBufferErrorReason;
use super::mem::ControlflowStack;
use super::mem::ControlflowStackErrorReason;
use super::mem::DataBuffer;
use super::mem::DataBufferErrorReason;
use super::mem::DataStack;
use super::mem::DataStackErrorReason;
use super::mem::EnvironmentStack;
use super::mem::EnvironmentStackErrorReason;
use super::mem::LongJumpStack;
use super::mem::LongJumpStackErrorReason;
use super::mem::ReturnStack;
use super::mem::ReturnStackErrorReason;
use super::text::Text;
use super::resource::ResourceErrorReason;
use super::resource::Resources;
use super::resource::ScriptCallStack;
use super::tokenizer::token_read;
use super::tokenizer::TokenStream;
use super::tokenizer::ColumnNumber;
use super::tokenizer::LineNumber;
use super::tokenizer::Token;
use super::tokenizer::TokenIterator;
use super::tokenizer::TokenizerError;
use super::tokenizer::ValueToken;
use super::value::Address;
use super::value::AddressAccess;
use super::value::CallFrame;
use super::value::CodeAddress;
use super::value::DataStackAddress;
use super::value::DebugLabel;
use super::value::EnvironmentStackAddress;
use super::value::EnvironmentStackRelativeAddress;
use super::value::Instruction;
use super::value::LongJumpFrame;
use super::value::ReturnStackAddress;
use super::value::TrapReason;
use super::value::TypeMismatchError;
use super::value::Value;
use super::word::Dictionary;
use super::word::LocalDictionary;
use super::word::WordErrorReason;
use self::compile::is_compiled;
use std::rc::Rc;
use vstd::prelude::*;
use vstd::std_specs::convert::FromSpecImpl;
use vstd::string::StringExecFns;

verus! {

/// Why the virtual machine stopped.
#[derive(Debug)]
pub enum VmErrorReason<E> {
    /// An access to the code buffer failed.
    CodeBufferAccessError(CodeBufferErrorReason),
    /// An access to the data buffer failed.
    DataBufferAccessError(DataBufferErrorReason),
    /// An access to the data stack failed.
    DataStackAccessError(DataStackErrorReason),
    /// An access to the return stack failed.
    ReturnStackAccessError(ReturnStackErrorReason),
    /// An access to the environment stack failed.
    EnvironmentStackAccessError(EnvironmentStackErrorReason),
    /// An access to the control-flow stack failed.
    ControlflowStackAccessError(ControlflowStackErrorReason),
    /// An access to the long-jump stack failed.
    LongJumpStackAccessError(LongJumpStackErrorReason),
    /// The dictionary could not do what was asked of it.
    WordError(WordErrorReason),
    /// No token could be cut from the input.
    TokenError(TokenizerError),
    /// A resource could not be had.
    ResourceError(ResourceErrorReason),
    /// A primitive of the host failed.
    ExtraPrimitiveWordError(E),
    /// A value was not of the kind that was needed.
    TypeMismatchError(TypeMismatchError),
    /// A `Trap` instruction was executed.
    TrapError(TrapReason),
    /// An instruction could not be executed.
    InstructionError(&'static str),
}

/// What the virtual machine does with the tokens it reads.
#[derive(Debug, Clone, Copy, PartialEq, Eq, Structural)]
pub enum VmState {
    /// Tokens are compiled into the code buffer.
    Compilation,
    /// Tokens are compiled, and the word under definition may be named.
    RecursableCompilation,
    /// Tokens are evaluated.
    Interpretation,
    /// The script is left.
    Return,
    /// The machine stops.
    Stop,
}

/// Where the virtual machine takes its next piece of work from.
#[derive(Debug, Clone, Copy, PartialEq, Eq, Structural)]
pub enum VmExecutionState {
    /// From the code buffer.
    CodeExecution,
    /// From the tokens of the script.
    TokenIteration,
}

/// A primitive of the host: what a `CallPrimitive` instruction carries. The
/// primitive may use everything that the machine offers.
pub trait Primitive<T, E, R>: Sized + Copy {
    /// What the call does to the machine: whether the call may take the
    /// machine from `before` to `after` and hand back `result`. A primitive
    /// of which nothing is stated may do anything.
    open spec fn effect(
        &self,
        before: Vm<T, E, R, Self>,
        after: Vm<T, E, R, Self>,
        result: Result<(), VmErrorReason<E>>,
    ) -> bool {
        true
    }

    fn invoke(&self, vm: &mut Vm<T, E, R, Self>) -> (r: Result<(), VmErrorReason<E>>)
        ensures
            self.effect(*old(vm), *final(vm), r),
    ;
}

/// The virtual machine with all its state.
pub struct Vm<T, E, R, P> {
    /// What is done with the tokens.
    pub state: VmState,
    /// Where the next piece of work comes from.
    pub execution_state: VmExecutionState,
    /// The script that is being read.
    pub input: TokenStream,
    /// The line at which the script stood before the token read last.
    pub current_line_number: LineNumber,
    /// The column at which the script stood before the token read last.
    pub current_column_number: ColumnNumber,
    pub word_dictionary: Dictionary,
    pub local_dictionary: LocalDictionary,
    pub data_stack: DataStack<T>,
    pub return_stack: ReturnStack,
    pub env_stack: EnvironmentStack<T>,
    pub controlflow_stack: ControlflowStack<T>,
    pub long_jump_stack: LongJumpStack,
    pub code_buffer: CodeBuffer<T, P>,
    pub data_buffer: DataBuffer<T>,
    /// The address of the instruction to be executed next.
    pub program_counter: CodeAddress,
    /// The scripts that wait for the return of the one being read.
    pub script_call_stack: ScriptCallStack,
    pub debug_info_store: DebugInfoStore,
    /// What the host offers.
    pub resources: R,
    /// Everything that has been handed to the standard output of the host
    /// through [`Vm::write_out`], in the order in which it was handed over.
    pub written: Ghost<Seq<char>>,
    /// The kind of failure that primitives of the host report.
    pub failure: core::marker::PhantomData<E>,
}

impl<E> From<CodeBufferErrorReason> for VmErrorReason<E> {
    fn from(e: CodeBufferErrorReason) -> (r: Self) {
        VmErrorReason::CodeBufferAccessError(e)
    }
}

impl<E> FromSpecImpl<CodeBufferErrorReason> for VmErrorReason<E> {
    open spec fn obeys_from_spec() -> bool {
        true
    }

    open spec fn from_spec(e: CodeBufferErrorReason) -> Self {
        VmErrorReason::CodeBufferAccessError(e)
    }
}

impl<E> From<DataBufferErrorReason> for VmErrorReason<E> {
    fn from(e: DataBufferErrorReason) -> (r: Self) {
        VmErrorReason::DataBufferAccessError(e)
    }
}

impl<E> FromSpecImpl<DataBufferErrorReason> for VmErrorReason<E> {
    open spec fn obeys_from_spec() -> bool {
        true
    }

    open spec fn from_spec(e: DataBufferErrorReason) -> Self {
        VmErrorReason::DataBufferAccessError(e)
    }
}

impl<E> From<DataStackErrorReason> for VmErrorReason<E> {
    fn from(e: DataStackErrorReason) -> (r: Self) {
        VmErrorReason::DataStackAccessError(e)
    }
}

impl<E> FromSpecImpl<DataStackErrorReason> for VmErrorReason<E> {
    open spec fn obeys_from_spec() -> bool {
        true
    }

    open spec fn from_spec(e: DataStackErrorReason) -> Self {
        VmErrorReason::DataStackAccessError(e)
    }
}

impl<E> From<ReturnStackErrorReason> for VmErrorReason<E> {
    fn from(e: ReturnStackErrorReason) -> (r: Self) {
        VmErrorReason::ReturnStackAccessError(e)
    }
}

impl<E> FromSpecImpl<ReturnStackErrorReason> for VmErrorReason<E> {
    open spec fn obeys_from_spec() -> bool {
        true
    }

    open spec fn from_spec(e: ReturnStackErrorReason) -> Self {
        VmErrorReason::ReturnStackAccessError(e)
    }
}

impl<E> From<EnvironmentStackErrorReason> for VmErrorReason<E> {
    fn from(e: EnvironmentStackErrorReason) -> (r: Self) {
        VmErrorReason::EnvironmentStackAccessError(e)
    }
}

impl<E> FromSpecImpl<EnvironmentStackErrorReason> for VmErrorReason<E> {
    open spec fn obeys_from_spec() -> bool {
        true
    }

    open spec fn from_spec(e: EnvironmentStackErrorReason) -> Self {
        VmErrorReason::EnvironmentStackAccessError(e)
    }
}

impl<E> From<ControlflowStackErrorReason> for VmErrorReason<E> {
    fn from(e: ControlflowStackErrorReason) -> (r: Self) {
        VmErrorReason::ControlflowStackAccessError(e)
    }
}

impl<E> FromSpecImpl<ControlflowStackErrorReason> for VmErrorReason<E> {
    open spec fn obeys_from_spec() -> bool {
        true
    }

    open spec fn from_spec(e: ControlflowStackErrorReason) -> Self {
        VmErrorReason::ControlflowStackAccessError(e)
    }
}

impl<E> From<LongJumpStackErrorReason> for VmErrorReason<E> {
    fn from(e: LongJumpStackErrorReason) -> (r: Self) {
        VmErrorReason::LongJumpStackAccessError(e)
    }
}

impl<E> FromSpecImpl<LongJumpStackErrorReason> for VmErrorReason<E> {
    open spec fn obeys_from_spec() -> bool {
        true
    }

    open spec fn from_spec(e: LongJumpStackErrorReason) -> Self {
        VmErrorReason::LongJumpStackAccessError(e)
    }
}

impl<E> From<WordErrorReason> for VmErrorReason<E> {
    fn from(e: WordErrorReason) -> (r: Self) {
        VmErrorReason::WordError(e)
    }
}

impl<E> FromSpecImpl<WordErrorReason> for VmErrorReason<E> {
    open spec fn obeys_from_spec() -> bool {
        true
    }

    open spec fn from_spec(e: WordErrorReason) -> Self {
        VmErrorReason::WordError(e)
    }
}

impl<E> From<TokenizerError> for VmErrorReason<E> {
    fn from(e: TokenizerError) -> (r: Self) {
        VmErrorReason::TokenError(e)
    }
}

impl<E> FromSpecImpl<TokenizerError> for VmErrorReason<E> {
    open spec fn obeys_from_spec() -> bool {
        true
    }

    open spec fn from_spec(e: TokenizerError) -> Self {
        VmErrorReason::TokenError(e)
    }
}

impl<E> From<ResourceErrorReason> for VmErrorReason<E> {
    fn from(e: ResourceErrorReason) -> (r: Self) {
        VmErrorReason::ResourceError(e)
    }
}

impl<E> FromSpecImpl<ResourceErrorReason> for VmErrorReason<E> {
    open spec fn obeys_from_spec() -> bool {
        true
    }

    open spec fn from_spec(e: ResourceErrorReason) -> Self {
        VmErrorReason::ResourceError(e)
    }
}

impl<E> From<TypeMismatchError> for VmErrorReason<E> {
    fn from(e: TypeMismatchError) -> (r: Self) {
        VmErrorReason::TypeMismatchError(e)
    }
}

impl<E> FromSpecImpl<TypeMismatchError> for VmErrorReason<E> {
    open spec fn obeys_from_spec() -> bool {
        true
    }

    open spec fn from_spec(e: TypeMismatchError) -> Self {
        VmErrorReason::TypeMismatchError(e)
    }
}
/// The part of the virtual machine that instructions work on.
pub struct Machine<T> {
    /// The program counter.
    pub pc: CodeAddress,
    /// The data stack, the top last.
    pub data: Seq<Rc<Value<T>>>,
    /// The return stack, the top last.
    pub calls: Seq<CallFrame>,
    /// The environment stack, the top last.
    pub env: Seq<Rc<Value<T>>>,
    /// The long-jump stack, the top last.
    pub jumps: Seq<LongJumpFrame>,
    /// Where the next piece of work comes from.
    pub execution_state: VmExecutionState,
}

/// The address that follows `pc`; the root address is followed by itself.
pub open spec fn next_pc(pc: CodeAddress) -> CodeAddress {
    match pc.0 {
        Address::Root => pc,
        Address::Entity(i) => CodeAddress(Address::Entity((i + 1) as usize)),
    }
}

/// Whether an address follows `pc` that the machine can hold.
pub open spec fn can_advance(pc: CodeAddress) -> bool {
    pc.0 matches Address::Entity(i) ==> i < usize::MAX
}

/// The failure of an access to the data stack that found it empty.
pub open spec fn data_underflow<E>() -> VmErrorReason<E> {
    VmErrorReason::DataStackAccessError(
        DataStackErrorReason::BufferAccessError(BufferErrorReason::UnderflowAccessError),
    )
}

/// The failure of an access to the return stack that found it empty.
pub open spec fn calls_underflow<E>() -> VmErrorReason<E> {
    VmErrorReason::ReturnStackAccessError(
        ReturnStackErrorReason::BufferAccessError(BufferErrorReason::UnderflowAccessError),
    )
}

/// The failure of an access to the long-jump stack that found it empty.
pub open spec fn jumps_underflow<E>() -> VmErrorReason<E> {
    VmErrorReason::LongJumpStackAccessError(
        LongJumpStackErrorReason::BufferAccessError(BufferErrorReason::UnderflowAccessError),
    )
}

/// The failure of an instruction that has to go on to the next address
/// where the program counter has none that the machine can hold.
pub open spec fn stuck<E>() -> VmErrorReason<E> {
    VmErrorReason::InstructionError("the program counter cannot advance")
}

/// What pushing the value of a slot of the current environment on the data
/// stack does. Where the slot is there and the program counter cannot go
/// on, nothing is done.
pub open spec fn local_ref_effect<T, E>(m: Machine<T>, adr: EnvironmentStackRelativeAddress) -> (
    Machine<T>,
    Result<(), VmErrorReason<E>>,
) {
    if m.calls.len() == 0 {
        (m, Err(calls_underflow()))
    } else if m.calls.last().stack_address.0 + adr.0 >= m.env.len() {
        (
            m,
            Err(
                VmErrorReason::EnvironmentStackAccessError(
                    EnvironmentStackErrorReason::BufferAccessError(
                        BufferErrorReason::OutOfRangeAccess(
                            m.env.len() as usize,
                            EnvironmentStack::<T>::slot(m.calls.last().stack_address, adr),
                        ),
                    ),
                ),
            ),
        )
    } else if !can_advance(m.pc) {
        (m, Err(stuck()))
    } else {
        (
            Machine {
                data: m.data.push(m.env[m.calls.last().stack_address.0 + adr.0]),
                pc: next_pc(m.pc),
                ..m
            },
            Ok(()),
        )
    }
}

/// What calling the word at `adr` does: the call is recorded with the
/// address to return to and the depth of the environment stack.
pub open spec fn call_effect<T>(m: Machine<T>, adr: CodeAddress, return_to: CodeAddress) -> Machine<
    T,
> {
    Machine {
        calls: m.calls.push(
            CallFrame {
                return_address: return_to,
                stack_address: EnvironmentStackAddress(m.env.len() as usize),
            },
        ),
        pc: adr,
        ..m
    }
}

/// What returning from a word does: the call is taken off the return
/// stack, the environment stack is cut down to the depth it had at the
/// call, and execution goes on behind the call.
pub open spec fn return_effect<T, E>(m: Machine<T>) -> (Machine<T>, Result<(), VmErrorReason<E>>) {
    if m.calls.len() == 0 {
        (m, Err(calls_underflow()))
    } else {
        let frame = m.calls.last();
        let popped = Machine { calls: m.calls.drop_last(), ..m };
        if frame.stack_address.0 > m.env.len() {
            (
                popped,
                Err(
                    VmErrorReason::EnvironmentStackAccessError(
                        EnvironmentStackErrorReason::BufferAccessError(
                            BufferErrorReason::InvalidRollbackPosition(
                                m.env.len() as usize,
                                frame.stack_address.0,
                            ),
                        ),
                    ),
                ),
            )
        } else {
            (
                Machine {
                    env: m.env.take(frame.stack_address.0 as int),
                    pc: frame.return_address,
                    ..popped
                },
                Ok(()),
            )
        }
    }
}

/// What a long jump does: the target recorded last is taken off, the
/// return, environment and data stacks are cut down to the depths that
/// were recorded with it, the value that was on top of the data stack is
/// put on it again, and execution goes on at the target. A stack that is
/// lower than recorded stops the jump where it stands.
pub open spec fn long_jump_effect<T, E>(m: Machine<T>) -> (Machine<T>, Result<(), VmErrorReason<E>>) {
    if m.jumps.len() == 0 {
        (m, Err(jumps_underflow()))
    } else {
        let frame = m.jumps.last();
        let popped = Machine { jumps: m.jumps.drop_last(), ..m };
        if m.data.len() == 0 {
            (popped, Err(data_underflow()))
        } else {
            let top = m.data.last();
            let jumped = Machine { pc: frame.return_address, ..popped };
            if frame.return_stack_address.0 > m.calls.len() {
                (
                    jumped,
                    Err(
                        VmErrorReason::ReturnStackAccessError(
                            ReturnStackErrorReason::BufferAccessError(
                                BufferErrorReason::InvalidRollbackPosition(
                                    m.calls.len() as usize,
                                    frame.return_stack_address.0,
                                ),
                            ),
                        ),
                    ),
                )
            } else {
                let unwound = Machine {
                    calls: m.calls.take(frame.return_stack_address.0 as int),
                    ..jumped
                };
                if frame.env_stack_address.0 > m.env.len() {
                    (
                        unwound,
                        Err(
                            VmErrorReason::EnvironmentStackAccessError(
                                EnvironmentStackErrorReason::BufferAccessError(
                                    BufferErrorReason::InvalidRollbackPosition(
                                        m.env.len() as usize,
                                        frame.env_stack_address.0,
                                    ),
                                ),
                            ),
                        ),
                    )
                } else {
                    let freed = Machine {
                        env: m.env.take(frame.env_stack_address.0 as int),
                        ..unwound
                    };
                    if frame.data_stack_address.0 > m.data.len() {
                        (
                            freed,
                            Err(
                                VmErrorReason::DataStackAccessError(
                                    DataStackErrorReason::BufferAccessError(
                                        BufferErrorReason::InvalidRollbackPosition(
                                            m.data.len() as usize,
                                            frame.data_stack_address.0,
                                        ),
                                    ),
                                ),
                            ),
                        )
                    } else {
                        (
                            Machine {
                                data: m.data.take(frame.data_stack_address.0 as int).push(top),
                                ..freed
                            },
                            Ok(()),
                        )
                    }
                }
            }
        }
    }
}

/// What `Exec` does: the value on top of the data stack is taken off. A
/// code address is called and a slot of the environment is read; any other
/// value is put back and nothing else is done. A call, and a value that is
/// put back, need the next address: where the program counter has none,
/// nothing is done.
pub open spec fn exec_effect<T, E>(m: Machine<T>) -> (Machine<T>, Result<(), VmErrorReason<E>>) {
    if m.data.len() == 0 {
        (m, Err(data_underflow()))
    } else {
        let popped = Machine { data: m.data.drop_last(), ..m };
        match *m.data.last() {
            Value::CodeAddress(adr) => if can_advance(m.pc) {
                (call_effect(popped, adr, next_pc(m.pc)), Ok(()))
            } else {
                (m, Err(stuck()))
            },
            Value::EnvAddress(adr) => local_ref_effect(popped, adr),
            _ => if can_advance(m.pc) {
                (Machine { pc: next_pc(m.pc), ..m }, Ok(()))
            } else {
                (m, Err(stuck()))
            },
        }
    }
}

/// What an instruction that calls no primitive does to the machine, and
/// what it hands back. An instruction that goes on to the next address
/// does nothing, and fails, where the program counter has no successor
/// that the machine can hold; one that fails for another reason fails for
/// that reason there too, and a return, a jump, a branch that is taken and
/// a long jump need no next address.
pub open spec fn instruction_effect<T, P, E>(m: Machine<T>, inst: Instruction<T, P>) -> (
    Machine<T>,
    Result<(), VmErrorReason<E>>,
) {
    match inst {
        Instruction::Push(v) => if can_advance(m.pc) {
            (Machine { data: m.data.push(v), pc: next_pc(m.pc), ..m }, Ok(()))
        } else {
            (m, Err(stuck()))
        },
        Instruction::Call(adr) => if can_advance(m.pc) {
            (call_effect(m, adr, next_pc(m.pc)), Ok(()))
        } else {
            (m, Err(stuck()))
        },
        Instruction::CallPrimitive(_) => if can_advance(m.pc) {
            (m, Ok(()))
        } else {
            (m, Err(stuck()))
        },
        Instruction::Return => return_effect(m),
        Instruction::LocalRef(adr) => local_ref_effect(m, adr),
        Instruction::Nop => if can_advance(m.pc) {
            (Machine { pc: next_pc(m.pc), ..m }, Ok(()))
        } else {
            (m, Err(stuck()))
        },
        Instruction::Trap(v) => if can_advance(m.pc) {
            (Machine { pc: next_pc(m.pc), ..m }, Err(VmErrorReason::TrapError(v)))
        } else {
            (m, Err(stuck()))
        },
        Instruction::DebugLabel(_) => if can_advance(m.pc) {
            (Machine { pc: next_pc(m.pc), ..m }, Ok(()))
        } else {
            (m, Err(stuck()))
        },
        Instruction::Branch(adr) => if m.data.len() == 0 {
            (m, Err(data_underflow()))
        } else if *m.data.last() == Value::<T>::IntValue(0) {
            if can_advance(m.pc) {
                (Machine { data: m.data.drop_last(), pc: next_pc(m.pc), ..m }, Ok(()))
            } else {
                (m, Err(stuck()))
            }
        } else {
            (Machine { data: m.data.drop_last(), pc: adr, ..m }, Ok(()))
        },
        Instruction::Jump(adr) => (Machine { pc: adr, ..m }, Ok(())),
        Instruction::Exec => exec_effect(m),
        Instruction::SetJump(adr) => if can_advance(m.pc) {
            (
                Machine {
                    jumps: m.jumps.push(
                        LongJumpFrame {
                            return_address: adr,
                            return_stack_address: ReturnStackAddress(m.calls.len() as usize),
                            env_stack_address: EnvironmentStackAddress(m.env.len() as usize),
                            data_stack_address: DataStackAddress(m.data.len() as usize),
                        },
                    ),
                    pc: next_pc(m.pc),
                    ..m
                },
                Ok(()),
            )
        } else {
            (m, Err(stuck()))
        },
        Instruction::LongJump => long_jump_effect(m),
        Instruction::PopJump => if m.jumps.len() == 0 {
            (m, Err(jumps_underflow()))
        } else if can_advance(m.pc) {
            (Machine { jumps: m.jumps.drop_last(), pc: next_pc(m.pc), ..m }, Ok(()))
        } else {
            (m, Err(stuck()))
        },
    }
}

/// What evaluating an instruction that calls no primitive does, as when a
/// token is interpreted: a call starts the execution of code, to which
/// there is nothing to return but the reading of tokens; every other
/// instruction does what it does when it is executed.
pub open spec fn evaluation_effect<T, P, E>(m: Machine<T>, inst: Instruction<T, P>) -> (
    Machine<T>,
    Result<(), VmErrorReason<E>>,
) {
    match inst {
        Instruction::Call(adr) => (
            Machine {
                execution_state: VmExecutionState::CodeExecution,
                ..call_effect(m, adr, CodeAddress(Address::Root))
            },
            Ok(()),
        ),
        _ => instruction_effect(m, inst),
    }
}

/// Whether the primitive `f` may take the machine from `before` to `mid`
/// and hand back `res`, after which the machine moves on to `after` and
/// hands back `r`: where the primitive did not fail, the program counter
/// moves to the next instruction if it can.
pub open spec fn primitive_step<T, E, R, P: Primitive<T, E, R>>(
    before: Vm<T, E, R, P>,
    f: P,
    mid: Vm<T, E, R, P>,
    res: Result<(), VmErrorReason<E>>,
    after: Vm<T, E, R, P>,
    r: Result<(), VmErrorReason<E>>,
) -> bool {
    &&& f.effect(before, mid, res)
    &&& r == res
    &&& after == if res is Ok && can_advance(mid.program_counter) {
        Vm { program_counter: next_pc(mid.program_counter), ..mid }
    } else {
        mid
    }
}

/// Whether the instruction that calls the primitive `f` may take the
/// machine from `before` to `after` and hand back `r`.
pub open spec fn primitive_called<T, E, R, P: Primitive<T, E, R>>(
    before: Vm<T, E, R, P>,
    f: P,
    after: Vm<T, E, R, P>,
    r: Result<(), VmErrorReason<E>>,
) -> bool {
    exists|mid: Vm<T, E, R, P>, res: Result<(), VmErrorReason<E>>|
        primitive_step(before, f, mid, res, after, r)
}

/// Whether executing `inst` may take the machine from `before` to `after`
/// and hand back `r`.
pub open spec fn applied<T, E, R, P: Primitive<T, E, R>>(
    before: Vm<T, E, R, P>,
    inst: Instruction<T, P>,
    after: Vm<T, E, R, P>,
    r: Result<(), VmErrorReason<E>>,
) -> bool {
    match inst {
        Instruction::CallPrimitive(f) => if !can_advance(before.program_counter) {
            after == before && r == instruction_effect::<T, P, E>(before.machine(), inst).1
        } else {
            primitive_called(before, f, after, r)
        },
        _ => (after.machine(), r) == instruction_effect::<T, P, E>(before.machine(), inst)
            && before.same_surroundings(&after),
    }
}

/// Whether evaluating `inst`, as when a token is interpreted, may take the
/// machine from `before` to `after` and hand back `r`.
pub open spec fn evaluated<T, E, R, P: Primitive<T, E, R>>(
    before: Vm<T, E, R, P>,
    inst: Instruction<T, P>,
    after: Vm<T, E, R, P>,
    r: Result<(), VmErrorReason<E>>,
) -> bool {
    match inst {
        Instruction::Call(_) => (after.machine(), r) == evaluation_effect::<T, P, E>(
            before.machine(),
            inst,
        ) && before.same_surroundings(&after),
        _ => applied(before, inst, after, r),
    }
}

/// The machine `vm` with `input` as the script that is being read.
pub open spec fn reading_from<T, E, R, P>(vm: Vm<T, E, R, P>, input: TokenStream) -> Vm<
    T,
    E,
    R,
    P,
> {
    Vm { input, ..vm }
}

/// Whether reading `token` while tokens are interpreted may take the
/// machine from `before` to `after` and hand back `r`. At the end of the
/// tokens the script is left. Else the token is compiled, past the word
/// under definition, and what it is compiled to is evaluated.
pub open spec fn interpreted<T, E, R, P: Primitive<T, E, R>>(
    before: Vm<T, E, R, P>,
    token: Option<Token>,
    after: Vm<T, E, R, P>,
    r: Result<(), VmErrorReason<E>>,
) -> bool {
    match token {
        None => after == (Vm { state: VmState::Return, ..before }) && r is Ok,
        Some(t) => {
            let placed = Vm {
                current_line_number: t.line_number,
                current_column_number: t.column_number,
                ..before
            };
            match t.value_token {
                Err(e) => after == placed && r == Err::<(), VmErrorReason<E>>(
                    VmErrorReason::TokenError(e),
                ),
                Ok(v) => exists|c: Result<(Instruction<T, P>, bool), VmErrorReason<E>>|
                    #[trigger] is_compiled(
                        before.local_dictionary,
                        before.word_dictionary,
                        v,
                        false,
                        c,
                    ) && match c {
                        Err(e) => after == placed && r == Err::<(), VmErrorReason<E>>(e),
                        Ok((inst, _)) => evaluated(placed, inst, after, r),
                    },
            }
        },
    }
}

/// What the code buffer and the record of its origin are after `inst` has
/// been compiled at the line and the column at which the machine stands.
pub open spec fn emitted<T, E, R, P>(before: Vm<T, E, R, P>, inst: Instruction<T, P>, after: Vm<
    T,
    E,
    R,
    P,
>) -> bool {
    &&& after.code_buffer@ == before.code_buffer@.push(inst)
    &&& after.debug_info_store.names() == before.debug_info_store.names()
    &&& after.debug_info_store.chain() == before.debug_info_store.chain()
    &&& after.debug_info_store.current() == before.debug_info_store.current()
    &&& after.debug_info_store.infos() == if before.code_buffer@.len() < usize::MAX {
        super::debug::padded(
            before.debug_info_store.infos(),
            before.code_buffer@.len() as int + 1,
        ).update(
            before.code_buffer@.len() as int,
            Some(
                super::debug::CodeDebugInfo {
                    script_name_handle: before.debug_info_store.current(),
                    line_number: before.current_line_number,
                    column_number: before.current_column_number,
                },
            ),
        )
    } else {
        before.debug_info_store.infos()
    }
    &&& after.machine() == before.machine()
    &&& after.state == before.state
    &&& after.input == before.input
    &&& after.current_line_number == before.current_line_number
    &&& after.current_column_number == before.current_column_number
    &&& after.word_dictionary == before.word_dictionary
    &&& after.local_dictionary == before.local_dictionary
    &&& after.controlflow_stack == before.controlflow_stack
    &&& after.data_buffer == before.data_buffer
    &&& after.script_call_stack == before.script_call_stack
    &&& after.resources == before.resources
    &&& after.written == before.written
}

/// Whether reading `token` while a word is compiled may take the machine
/// from `before` to `after` and hand back `r`. At the end of the tokens the
/// script is left. Else the token is compiled; what it is compiled to is
/// evaluated where it is an immediate word, and appended to the code
/// buffer where not.
pub open spec fn compiled<T, E, R, P: Primitive<T, E, R>>(
    before: Vm<T, E, R, P>,
    token: Option<Token>,
    recursable: bool,
    after: Vm<T, E, R, P>,
    r: Result<(), VmErrorReason<E>>,
) -> bool {
    match token {
        None => after == (Vm { state: VmState::Return, ..before }) && r is Ok,
        Some(t) => {
            let placed = Vm {
                current_line_number: t.line_number,
                current_column_number: t.column_number,
                ..before
            };
            match t.value_token {
                Err(e) => after == placed && r == Err::<(), VmErrorReason<E>>(
                    VmErrorReason::TokenError(e),
                ),
                Ok(v) => exists|c: Result<(Instruction<T, P>, bool), VmErrorReason<E>>|
                    #[trigger] is_compiled(
                        before.local_dictionary,
                        before.word_dictionary,
                        v,
                        recursable,
                        c,
                    ) && match c {
                        Err(e) => after == placed && r == Err::<(), VmErrorReason<E>>(e),
                        Ok((inst, immediate)) => if immediate {
                            evaluated(placed, inst, after, r)
                        } else {
                            emitted(placed, inst, after) && r is Ok
                        },
                    },
            }
        },
    }
}

/// Whether leaving a script takes the machine from `before` to `after`:
/// the script that called it is read again, in the mode, the state of
/// execution and at the program counter of the call. Where no script
/// called it, the machine stops.
pub open spec fn returned<T, E, R, P>(before: Vm<T, E, R, P>, after: Vm<T, E, R, P>) -> bool {
    &&& after.current_line_number == before.current_line_number
    &&& after.current_column_number == before.current_column_number
    &&& after.word_dictionary == before.word_dictionary
    &&& after.local_dictionary == before.local_dictionary
    &&& after.data_stack == before.data_stack
    &&& after.return_stack == before.return_stack
    &&& after.env_stack == before.env_stack
    &&& after.controlflow_stack == before.controlflow_stack
    &&& after.long_jump_stack == before.long_jump_stack
    &&& after.code_buffer == before.code_buffer
    &&& after.data_buffer == before.data_buffer
    &&& after.resources == before.resources
    &&& after.written == before.written
    &&& if before.script_call_stack@.len() == 0 {
        &&& after.state == VmState::Stop
        &&& after.input == before.input
        &&& after.execution_state == before.execution_state
        &&& after.program_counter == before.program_counter
        &&& after.script_call_stack@ == before.script_call_stack@
        &&& after.debug_info_store == before.debug_info_store
    } else {
        let top = before.script_call_stack@.last();
        &&& after.input == top.0
        &&& after.state == top.1
        &&& after.execution_state == top.2
        &&& after.program_counter == top.3
        &&& after.script_call_stack@ == before.script_call_stack@.drop_last()
        &&& after.debug_info_store.names() == before.debug_info_store.names()
        &&& after.debug_info_store.infos() == before.debug_info_store.infos()
        &&& after.debug_info_store.chain() == if before.debug_info_store.chain().len() > 0 {
            before.debug_info_store.chain().drop_last()
        } else {
            before.debug_info_store.chain()
        }
        &&& after.debug_info_store.current() == if after.debug_info_store.chain().len() > 0 {
            after.debug_info_store.chain().last()
        } else {
            0
        }
    }
}

/// Whether executing the instruction at the program counter may take the
/// machine from `before` to `after` and hand back `r`. An instruction is
/// executed only where the program counter is an index into the code
/// buffer. When the program counter is the root address afterwards, or the
/// instruction has asked for tokens, tokens are read next.
pub open spec fn executed<T, E, R, P: Primitive<T, E, R>>(
    before: Vm<T, E, R, P>,
    after: Vm<T, E, R, P>,
    r: Result<(), VmErrorReason<E>>,
) -> bool {
    match before.program_counter.0 {
        Address::Root => after == (Vm {
            execution_state: VmExecutionState::TokenIteration,
            ..before
        }) && r is Ok,
        Address::Entity(i) => if i >= before.code_buffer@.len() {
            after == before && r == Err::<(), VmErrorReason<E>>(
                VmErrorReason::CodeBufferAccessError(
                    CodeBufferErrorReason::BufferAccessError(
                        BufferErrorReason::OutOfRangeAccess(before.code_buffer@.len() as usize, i),
                    ),
                ),
            )
        } else {
            exists|mid: Vm<T, E, R, P>|
                #[trigger] applied(before, before.code_buffer@[i as int], mid, r) && after == if r
                    is Ok && (mid.program_counter.0 is Root || mid.execution_state
                    != VmExecutionState::CodeExecution) {
                    Vm { execution_state: VmExecutionState::TokenIteration, ..mid }
                } else {
                    mid
                }
        },
    }
}

/// Whether reading the next token of the script and interpreting it may
/// take the machine from `before` to `after` and hand back `r`.
pub open spec fn token_interpreted<T, E, R, P: Primitive<T, E, R>>(
    before: Vm<T, E, R, P>,
    after: Vm<T, E, R, P>,
    r: Result<(), VmErrorReason<E>>,
) -> bool {
    exists|input: TokenStream, token: Option<Token>|
        token_read(before.input, input, token) && #[trigger] interpreted(
            reading_from(before, input),
            token,
            after,
            r,
        )
}

/// Whether reading the next token of the script and compiling it may take
/// the machine from `before` to `after` and hand back `r`.
pub open spec fn token_compiled<T, E, R, P: Primitive<T, E, R>>(
    before: Vm<T, E, R, P>,
    recursable: bool,
    after: Vm<T, E, R, P>,
    r: Result<(), VmErrorReason<E>>,
) -> bool {
    exists|input: TokenStream, token: Option<Token>|
        token_read(before.input, input, token) && #[trigger] compiled(
            reading_from(before, input),
            token,
            recursable,
            after,
            r,
        )
}

/// What a round of work hands back for what the piece of work handed
/// back: the machine has not stopped.
pub open spec fn going_on<E>(r: Result<(), VmErrorReason<E>>) -> Result<bool, VmErrorReason<E>> {
    match r {
        Ok(_) => Ok(false),
        Err(e) => Err(e),
    }
}

/// Whether one round of work may take the machine from `before` to `after`
/// and hand back `r`. In a round the machine executes one instruction, or
/// reads one token and interprets or compiles it, or leaves a script. A
/// machine that is to stop is made ready to interpret tokens again instead,
/// and only then the round hands back that the machine has stopped.
pub open spec fn stepped<T, E, R, P: Primitive<T, E, R>>(
    before: Vm<T, E, R, P>,
    after: Vm<T, E, R, P>,
    r: Result<bool, VmErrorReason<E>>,
) -> bool {
    match before.execution_state {
        VmExecutionState::CodeExecution => exists|res: Result<(), VmErrorReason<E>>| #[trigger]
            executed(before, after, res) && r == going_on(res),
        VmExecutionState::TokenIteration => match before.state {
            VmState::Interpretation => exists|res: Result<(), VmErrorReason<E>>| #[trigger]
                token_interpreted(before, after, res) && r == going_on(res),
            VmState::Compilation => exists|res: Result<(), VmErrorReason<E>>| #[trigger]
                token_compiled(before, false, after, res) && r == going_on(res),
            VmState::RecursableCompilation => exists|res: Result<(), VmErrorReason<E>>| #[trigger]
                token_compiled(before, true, after, res) && r == going_on(res),
            VmState::Return => returned(before, after) && r == Ok::<bool, VmErrorReason<E>>(false),
            VmState::Stop => after == (Vm {
                execution_state: VmExecutionState::TokenIteration,
                state: VmState::Interpretation,
                ..before
            }) && r == Ok::<bool, VmErrorReason<E>>(true),
        },
    }
}

/// Whether at most `rounds` rounds of work may take the machine from
/// `before` to `after` and hand back `r`: the rounds go on until one hands
/// back that the machine has stopped, or fails, or until there have been
/// `rounds` of them.
pub open spec fn ran<T, E, R, P: Primitive<T, E, R>>(
    before: Vm<T, E, R, P>,
    after: Vm<T, E, R, P>,
    rounds: nat,
    r: Result<bool, VmErrorReason<E>>,
) -> bool
    decreases rounds,
{
    if rounds == 0 {
        after == before && r == Ok::<bool, VmErrorReason<E>>(false)
    } else {
        exists|mid: Vm<T, E, R, P>, first: Result<bool, VmErrorReason<E>>| #[trigger]
            stepped(before, mid, first) && if first == Ok::<bool, VmErrorReason<E>>(false) {
                ran(mid, after, (rounds - 1) as nat, r)
            } else {
                after == mid && r == first
            }
    }
}

/// Whether `after` is the code `before` with the bodies of `n` words behind
/// it that are primitives: each body calls a primitive, returns, and ends
/// with the mark that ends a word.
pub open spec fn bodies_added<T, P>(
    before: Seq<Instruction<T, P>>,
    after: Seq<Instruction<T, P>>,
    n: nat,
) -> bool {
    &&& after.len() == before.len() + 3 * n
    &&& after.take(before.len() as int) == before
    &&& forall|k: int|
        0 <= k < n ==> (#[trigger] after[before.len() + 3 * k]) is CallPrimitive && after[before.len()
            + 3 * k + 1] == Instruction::<T, P>::Return && after[before.len() + 3 * k + 2]
            == Instruction::<T, P>::DebugLabel(DebugLabel::WordTerminator)
}

/// The body of one more primitive behind the bodies of `n`.
pub proof fn one_more_body<T, P>(
    start: Seq<Instruction<T, P>>,
    before: Seq<Instruction<T, P>>,
    f: P,
    n: nat,
)
    requires
        bodies_added(start, before, n),
    ensures
        bodies_added(
            start,
            before.push(Instruction::CallPrimitive(f)).push(Instruction::Return).push(
                Instruction::DebugLabel(DebugLabel::WordTerminator),
            ),
            n + 1,
        ),
{
    let after = before.push(Instruction::CallPrimitive(f)).push(Instruction::Return).push(
        Instruction::DebugLabel(DebugLabel::WordTerminator),
    );
    assert(after.take(start.len() as int) =~= before.take(start.len() as int));
}

/// The bodies of `m` primitives behind the bodies of `n` are the bodies of
/// `n + m`.
pub proof fn more_bodies<T, P>(
    start: Seq<Instruction<T, P>>,
    mid: Seq<Instruction<T, P>>,
    after: Seq<Instruction<T, P>>,
    n: nat,
    m: nat,
)
    requires
        bodies_added(start, mid, n),
        bodies_added(mid, after, m),
    ensures
        bodies_added(start, after, n + m),
{
    assert(after.take(start.len() as int) =~= mid.take(start.len() as int));
    assert forall|k: int| 0 <= k < n + m implies (#[trigger] after[start.len() + 3 * k])
        is CallPrimitive && after[start.len() + 3 * k + 1] == Instruction::<T, P>::Return
        && after[start.len() + 3 * k + 2] == Instruction::<T, P>::DebugLabel(
        DebugLabel::WordTerminator,
    ) by {
        if k < n {
            assert(mid[start.len() + 3 * k] is CallPrimitive);
        } else {
            let j = k - n;
            assert(after[mid.len() + 3 * j] is CallPrimitive);
        }
    }
}

/// Whether `after` is `before` with `script` as the script that is read:
/// the script that was being read, the mode, the state of execution and
/// the program counter are kept on the stack of script calls, and the name
/// of `script` is the current one among the script names.
pub open spec fn script_called<T, E, R, P>(
    before: Vm<T, E, R, P>,
    after: Vm<T, E, R, P>,
    script: TokenStream,
) -> bool {
    &&& after.input == script
    &&& after.script_call_stack@ == before.script_call_stack@.push(
        (before.input, before.state, before.execution_state, before.program_counter),
    )
    &&& after.debug_info_store.names().len() == before.debug_info_store.names().len() + 1
    &&& after.debug_info_store.names().last()@ == script.name()
    &&& after.debug_info_store.names().drop_last() == before.debug_info_store.names()
    &&& after.debug_info_store.current() == before.debug_info_store.names().len()
    &&& after.debug_info_store.chain() == before.debug_info_store.chain().push(
        before.debug_info_store.names().len() as usize,
    )
    &&& after.debug_info_store.infos() == before.debug_info_store.infos()
    &&& after.machine() == before.machine()
    &&& after.state == before.state
    &&& after.current_line_number == before.current_line_number
    &&& after.current_column_number == before.current_column_number
    &&& after.word_dictionary == before.word_dictionary
    &&& after.local_dictionary == before.local_dictionary
    &&& after.controlflow_stack == before.controlflow_stack
    &&& after.code_buffer == before.code_buffer
    &&& after.data_buffer == before.data_buffer
    &&& after.resources == before.resources
    &&& after.written == before.written
}

/// Whether `loaded` is `before` with `args` pushed on the environment
/// stack as strings, the first first, and nothing else changed.
pub open spec fn args_loaded<T, E, R, P>(
    before: Vm<T, E, R, P>,
    loaded: Vm<T, E, R, P>,
    args: Seq<String>,
) -> bool {
    &&& loaded.env_stack@.len() == before.env_stack@.len() + args.len()
    &&& loaded.env_stack@.take(before.env_stack@.len() as int) == before.env_stack@
    &&& forall|k: int|
        0 <= k < args.len() ==> *(#[trigger] loaded.env_stack@[before.env_stack@.len() + k])
            == Value::<T>::StrValue(args[k])
    &&& loaded.machine().data == before.machine().data
    &&& loaded.machine().calls == before.machine().calls
    &&& loaded.machine().jumps == before.machine().jumps
    &&& loaded.program_counter == before.program_counter
    &&& loaded.execution_state == before.execution_state
    &&& before.same_surroundings(&loaded)
}

/// Whether running `before` with the arguments `args` for at most `limit`
/// rounds may end in `after` with the result `r`: the arguments are
/// loaded, and the machine is run from there.
pub open spec fn ran_with_args<T, E, R, P: Primitive<T, E, R>>(
    before: Vm<T, E, R, P>,
    after: Vm<T, E, R, P>,
    args: Seq<String>,
    limit: nat,
    r: Result<bool, VmErrorReason<E>>,
) -> bool {
    exists|loaded: Vm<T, E, R, P>| #[trigger]
        args_loaded(before, loaded, args) && ran(loaded, after, limit, r)
}

impl<T, E, R, P> Vm<T, E, R, P> {
    /// The part of the machine that instructions work on.
    pub open spec fn machine(&self) -> Machine<T> {
        Machine {
            pc: self.program_counter,
            data: self.data_stack@,
            calls: self.return_stack@,
            env: self.env_stack@,
            jumps: self.long_jump_stack@,
            execution_state: self.execution_state,
        }
    }

    /// Whether `other` differs from this machine in nothing but the part
    /// that instructions work on.
    pub open spec fn same_surroundings(&self, other: &Self) -> bool {
        &&& other.state == self.state
        &&& other.input == self.input
        &&& other.current_line_number == self.current_line_number
        &&& other.current_column_number == self.current_column_number
        &&& other.word_dictionary == self.word_dictionary
        &&& other.local_dictionary == self.local_dictionary
        &&& other.controlflow_stack == self.controlflow_stack
        &&& other.code_buffer == self.code_buffer
        &&& other.data_buffer == self.data_buffer
        &&& other.script_call_stack == self.script_call_stack
        &&& other.debug_info_store == self.debug_info_store
        &&& other.resources == self.resources
        &&& other.written == self.written
    }
}

impl<T, E, R: Resources, P> Vm<T, E, R, P> {
    /// Hands `data` to the standard output of the host, and records that
    /// it has been handed over.
    pub fn write_out(&mut self, data: &str)
        ensures
            final(self).written@ == old(self).written@ + data@,
            *final(self) == (Vm { written: final(self).written, ..*old(self) }),
    {
        self.resources.write_stdout(data);
        self.written = Ghost(self.written@ + data@);
    }
}

impl<T, E, R, P: Copy> Vm<T, E, R, P> {
    /// A machine that interprets tokens and has none to read, with empty
    /// stacks, buffers and dictionaries.
    pub fn new(resources: R) -> (r: Self)
        ensures
            r.state == VmState::Interpretation,
            r.execution_state == VmExecutionState::TokenIteration,
            r.program_counter == CodeAddress(Address::Root),
            r.current_line_number == 0,
            r.current_column_number == 0,
            r.data_stack@.len() == 0,
            r.return_stack@.len() == 0,
            r.env_stack@.len() == 0,
            r.controlflow_stack@.len() == 0,
            r.long_jump_stack@.len() == 0,
            r.code_buffer@.len() == 0,
            r.data_buffer@.len() == 0,
            r.script_call_stack@.len() == 0,
            r.word_dictionary.count() == 0,
            r.word_dictionary.committed() == Map::<Seq<char>, super::word::Word>::empty(),
            r.word_dictionary.names_by_code() == Map::<CodeAddress, Seq<char>>::empty(),
            r.word_dictionary.reserved_name() is None,
            r.word_dictionary.reserved_word() is None,
            r.word_dictionary.names_are_distinct(),
            r.word_dictionary.listed() == Seq::<(String, super::word::Word)>::empty(),
            r.local_dictionary.count() == 0,
            r.local_dictionary.slots() == Map::<
                Seq<char>,
                EnvironmentStackRelativeAddress,
            >::empty(),
            r.local_dictionary.next_slot() == EnvironmentStackRelativeAddress(0),
            r.local_dictionary.listed() == Seq::<(String, EnvironmentStackRelativeAddress)>::empty(),
            r.input.reading() == (super::tokenizer::Reading {
                upcoming: Seq::<super::utility::CharItem>::empty(),
                ahead: 0,
                line: 1,
                column: 0,
            }),
            r.input.name() == "###DUMMY###"@,
            r.debug_info_store.infos() == Seq::<Option<super::debug::CodeDebugInfo>>::empty(),
            r.debug_info_store.names() == Seq::<String>::empty(),
            r.debug_info_store.chain() == Seq::<super::debug::ScriptNameHandle>::empty(),
            r.debug_info_store.current() == 0,
            r.resources == resources,
            r.written@ == Seq::<char>::empty(),
            bounds::within_code(r),
    {
        let input = super::tokenizer::empty_token_stream();
        Vm {
            state: VmState::Interpretation,
            execution_state: VmExecutionState::TokenIteration,
            input,
            current_line_number: 0,
            current_column_number: 0,
            word_dictionary: Dictionary::new(),
            local_dictionary: LocalDictionary::new(),
            data_stack: DataStack::new(),
            return_stack: ReturnStack::new(),
            env_stack: EnvironmentStack::new(),
            controlflow_stack: ControlflowStack::new(),
            long_jump_stack: LongJumpStack::new(),
            code_buffer: CodeBuffer::new(),
            data_buffer: DataBuffer::new(),
            program_counter: CodeAddress(Address::Root),
            script_call_stack: ScriptCallStack::new(),
            debug_info_store: DebugInfoStore::new(),
            resources,
            written: Ghost(Seq::empty()),
            failure: core::marker::PhantomData,
        }
    }

    /// Whether the program counter has no successor that the machine can
    /// hold.
    fn is_stuck(&self) -> (r: bool)
        ensures
            r == !can_advance(self.program_counter),
    {
        match self.program_counter.0 {
            Address::Entity(i) => i == usize::MAX,
            Address::Root => false,
        }
    }

    /// Moves the program counter to the address that follows it.
    fn advance(&mut self)
        requires
            can_advance(old(self).program_counter),
        ensures
            *final(self) == (Vm { program_counter: next_pc(old(self).program_counter), ..*old(self) }),
    {
        self.program_counter = self.program_counter.next();
    }

    /// Pushes the value of the slot `adr` of the current environment on the
    /// data stack.
    fn apply_local_ref(&mut self, adr: EnvironmentStackRelativeAddress) -> (r: Result<
        (),
        VmErrorReason<E>,
    >)
        ensures
            (final(self).machine(), r) == local_ref_effect::<T, E>(old(self).machine(), adr),
            old(self).same_surroundings(final(self)),
    {
        let base = match self.return_stack.peek() {
            Ok(b) => b,
            Err(e) => {
                return Err(VmErrorReason::ReturnStackAccessError(e));
            },
        };
        let val = match self.env_stack.get(base.stack_address(), adr) {
            Ok(v) => v,
            Err(e) => {
                return Err(VmErrorReason::EnvironmentStackAccessError(e));
            },
        };
        if self.is_stuck() {
            return Err(VmErrorReason::InstructionError("the program counter cannot advance"));
        }
        self.data_stack.push(val);
        self.advance();
        Ok(())
    }

    /// Returns from the word that is being executed.
    fn apply_return(&mut self) -> (r: Result<(), VmErrorReason<E>>)
        ensures
            (final(self).machine(), r) == return_effect::<T, E>(old(self).machine()),
            old(self).same_surroundings(final(self)),
    {
        let frame = match self.return_stack.pop() {
            Ok(f) => f,
            Err(e) => {
                return Err(VmErrorReason::ReturnStackAccessError(e));
            },
        };
        match self.env_stack.rollback(frame.stack_address()) {
            Ok(_) => {},
            Err(e) => {
                return Err(VmErrorReason::EnvironmentStackAccessError(e));
            },
        }
        self.program_counter = frame.return_address();
        Ok(())
    }

    /// Unwinds to the target that was recorded last.
    fn apply_long_jump(&mut self) -> (r: Result<(), VmErrorReason<E>>)
        ensures
            (final(self).machine(), r) == long_jump_effect::<T, E>(old(self).machine()),
            old(self).same_surroundings(final(self)),
    {
        let top = match self.long_jump_stack.pop() {
            Ok(f) => f,
            Err(e) => {
                return Err(VmErrorReason::LongJumpStackAccessError(e));
            },
        };
        let data = match self.data_stack.peek() {
            Ok(v) => v,
            Err(e) => {
                return Err(VmErrorReason::DataStackAccessError(e));
            },
        };
        self.program_counter = top.return_address();
        match self.return_stack.rollback(top.return_stack_address()) {
            Ok(_) => {},
            Err(e) => {
                return Err(VmErrorReason::ReturnStackAccessError(e));
            },
        }
        match self.env_stack.rollback(top.env_stack_address()) {
            Ok(_) => {},
            Err(e) => {
                return Err(VmErrorReason::EnvironmentStackAccessError(e));
            },
        }
        match self.data_stack.rollback(top.data_stack_address()) {
            Ok(_) => {},
            Err(e) => {
                return Err(VmErrorReason::DataStackAccessError(e));
            },
        }
        self.data_stack.push(data);
        Ok(())
    }

    /// Takes the value on top of the data stack off and runs what it
    /// designates.
    fn apply_exec(&mut self) -> (r: Result<(), VmErrorReason<E>>)
        ensures
            (final(self).machine(), r) == exec_effect::<T, E>(old(self).machine()),
            old(self).same_surroundings(final(self)),
    {
        let top = match self.data_stack.pop() {
            Ok(v) => v,
            Err(e) => {
                return Err(VmErrorReason::DataStackAccessError(e));
            },
        };
        match &*top {
            Value::CodeAddress(adr) => {
                let target: CodeAddress = *adr;
                if self.is_stuck() {
                    self.data_stack.push(top);
                    assert(self.data_stack@ =~= old(self).data_stack@);
                    return Err(
                        VmErrorReason::InstructionError("the program counter cannot advance"),
                    );
                }
                self.return_stack.push(self.program_counter.next(), self.env_stack.here());
                self.program_counter = target;
                Ok(())
            },
            Value::EnvAddress(adr) => {
                let slot: EnvironmentStackRelativeAddress = *adr;
                self.apply_local_ref(slot)
            },
            _ => {
                self.data_stack.push(top);
                assert(self.data_stack@ =~= old(self).data_stack@);
                if self.is_stuck() {
                    return Err(
                        VmErrorReason::InstructionError("the program counter cannot advance"),
                    );
                }
                self.advance();
                Ok(())
            },
        }
    }

    /// Compiles `token`.
    pub fn compile_token(&self, token: ValueToken, recursable: bool) -> (r: Result<
        (Instruction<T, P>, bool),
        VmErrorReason<E>,
    >)
        ensures
            is_compiled(self.local_dictionary, self.word_dictionary, token, recursable, r),
    {
        compile::compile_token(self, token, recursable)
    }

    /// Appends `inst` to the code buffer and records the line and the
    /// column at which the machine stands as its origin.
    fn emit(&mut self, inst: Instruction<T, P>)
        ensures
            emitted(*old(self), inst, *final(self)),
    {
        let here = self.code_buffer.here();
        let room = match here.0 {
            Address::Entity(i) => i < usize::MAX,
            Address::Root => false,
        };
        if room {
            self.debug_info_store.put(here, self.current_line_number, self.current_column_number);
        }
        self.code_buffer.push(inst);
    }

    /// Leaves the script that is being read.
    pub fn exec_return(&mut self) -> (r: Result<(), VmErrorReason<E>>)
        ensures
            r is Ok,
            returned(*old(self), *final(self)),
    {
        match self.script_call_stack.pop() {
            Some((i, s, e, p)) => {
                self.input = i;
                self.state = s;
                self.execution_state = e;
                self.program_counter = p;
                self.debug_info_store.return_script();
            },
            None => {
                self.state = VmState::Stop;
            },
        };
        Ok(())
    }

    /// Makes the machine interpret tokens.
    pub fn reset_vm_state(&mut self)
        ensures
            *final(self) == (Vm {
                execution_state: VmExecutionState::TokenIteration,
                state: VmState::Interpretation,
                ..*old(self)
            }),
    {
        self.execution_state = VmExecutionState::TokenIteration;
        self.state = VmState::Interpretation;
    }

    /// Has `script` read from now on. The script that was being read, the
    /// mode, the state of execution and the program counter are kept for
    /// the return from `script`.
    pub fn call_script(&mut self, script: TokenStream)
        ensures
            script_called(*old(self), *final(self), script),
    {
        self.debug_info_store.call_script(script.script_name());
        let mut previous = script;
        std::mem::swap(&mut self.input, &mut previous);
        self.script_call_stack.push(
            previous,
            self.state,
            self.execution_state,
            self.program_counter,
        );
        assert(self.debug_info_store.names().drop_last() =~= old(self).debug_info_store.names());
    }

    /// Defines the word `name` as the primitive `f`: its body calls the
    /// primitive and returns.
    pub fn define_primitive_word(&mut self, name: String, immidiate: bool, doc: String, f: P)
        ensures
            final(self).code_buffer@ == old(self).code_buffer@.push(
                Instruction::CallPrimitive(f),
            ).push(Instruction::Return).push(Instruction::DebugLabel(DebugLabel::WordTerminator)),
            final(self).word_dictionary.committed() == old(
                self,
            ).word_dictionary.committed().insert(
                name@,
                super::word::Word {
                    code: CodeAddress(Address::Entity(old(self).code_buffer@.len() as usize)),
                    immediate: immidiate,
                    document: doc,
                },
            ),
            final(self).word_dictionary.names_by_code() == old(
                self,
            ).word_dictionary.names_by_code().insert(
                CodeAddress(Address::Entity(old(self).code_buffer@.len() as usize)),
                name@,
            ),
            final(self).word_dictionary.reserved_name() == Some(name@),
            final(self).word_dictionary.reserved_word() is None,
            bounds::within_code(*old(self)) && old(self).code_buffer@.len() <= usize::MAX
                ==> bounds::within_code(*final(self)),
            final(self).machine() == old(self).machine(),
            final(self).state == old(self).state,
            final(self).input == old(self).input,
            final(self).local_dictionary == old(self).local_dictionary,
            final(self).controlflow_stack == old(self).controlflow_stack,
            final(self).data_buffer == old(self).data_buffer,
            final(self).script_call_stack == old(self).script_call_stack,
            final(self).debug_info_store == old(self).debug_info_store,
            final(self).resources == old(self).resources,
            final(self).written == old(self).written,
    {
        self.word_dictionary.reserve_word_def(name, super::word::Word::new(self.code_buffer.here()));
        self.code_buffer.push(compile::compile_call_primitive(f));
        self.code_buffer.push(compile::compile_return());
        self.code_buffer.push(compile::compile_word_terminator());
        if immidiate {
            self.word_dictionary.last_word_change_immidiate();
        }
        self.word_dictionary.last_word_set_document(doc);
        let _ = self.word_dictionary.complate_word_def();
    }
}

impl<T, E, R, P: Primitive<T, E, R>> Vm<T, E, R, P> {

    /// Hands the machine to the primitive `f` and then moves on to the next
    /// instruction, unless the primitive fails.
    fn apply_primitive(&mut self, f: P) -> (r: Result<(), VmErrorReason<E>>)
        ensures
            primitive_called(*old(self), f, *final(self), r),
    {
        let res = f.invoke(self);
        let ghost mid = *self;
        let stuck_now = match self.program_counter.0 {
            Address::Entity(i) => i == usize::MAX,
            Address::Root => false,
        };
        if res.is_ok() && !stuck_now {
            self.advance();
        }
        assert(primitive_step(*old(self), f, mid, res, *self, res));
        res
    }

    /// Does what one instruction says. An instruction that calls a
    /// primitive hands the machine to the primitive and then moves on to
    /// the next instruction, unless the primitive fails; what the
    /// primitive did stays done either way. Every other instruction does
    /// what [`instruction_effect`] says, to the part of the machine that
    /// [`Vm::machine`] shows and to nothing else.
    pub fn apply_instruction(&mut self, inst: Instruction<T, P>) -> (r: Result<
        (),
        VmErrorReason<E>,
    >)
        ensures
            match inst {
                Instruction::CallPrimitive(f) => if !can_advance(old(self).program_counter) {
                    *final(self) == *old(self) && r == instruction_effect::<T, P, E>(
                        old(self).machine(),
                        inst,
                    ).1
                } else {
                    primitive_called(*old(self), f, *final(self), r)
                },
                _ => (final(self).machine(), r) == instruction_effect::<T, P, E>(
                    old(self).machine(),
                    inst,
                ) && old(self).same_surroundings(final(self)),
            },
    {
        let stuck = self.is_stuck();
        match inst {
            Instruction::Push(v) => {
                if stuck {
                    return Err(VmErrorReason::InstructionError("the program counter cannot advance"));
                }
                self.data_stack.push(v);
                self.advance();
                Ok(())
            },
            Instruction::Call(adr) => {
                if stuck {
                    return Err(VmErrorReason::InstructionError("the program counter cannot advance"));
                }
                self.return_stack.push(self.program_counter.next(), self.env_stack.here());
                self.program_counter = adr;
                Ok(())
            },
            Instruction::CallPrimitive(f) => {
                if stuck {
                    return Err(VmErrorReason::InstructionError("the program counter cannot advance"));
                }
                self.apply_primitive(f)
            },
            Instruction::Return => self.apply_return(),
            Instruction::LocalRef(adr) => self.apply_local_ref(adr),
            Instruction::Nop => {
                if stuck {
                    return Err(VmErrorReason::InstructionError("the program counter cannot advance"));
                }
                self.advance();
                Ok(())
            },
            Instruction::Trap(v) => {
                if stuck {
                    return Err(VmErrorReason::InstructionError("the program counter cannot advance"));
                }
                self.advance();
                Err(VmErrorReason::TrapError(v))
            },
            Instruction::DebugLabel(_) => {
                if stuck {
                    return Err(VmErrorReason::InstructionError("the program counter cannot advance"));
                }
                self.advance();
                Ok(())
            },
            Instruction::Branch(adr) => {
                let top = match self.data_stack.peek() {
                    Ok(v) => v,
                    Err(e) => {
                        return Err(VmErrorReason::DataStackAccessError(e));
                    },
                };
                let zero = match &*top {
                    Value::IntValue(v) => *v == 0,
                    _ => false,
                };
                if zero && stuck {
                    return Err(VmErrorReason::InstructionError("the program counter cannot advance"));
                }
                let _ = self.data_stack.pop();
                if zero {
                    self.advance();
                } else {
                    self.program_counter = adr;
                }
                Ok(())
            },
            Instruction::Jump(adr) => {
                self.program_counter = adr;
                Ok(())
            },
            Instruction::Exec => self.apply_exec(),
            Instruction::SetJump(adr) => {
                if stuck {
                    return Err(VmErrorReason::InstructionError("the program counter cannot advance"));
                }
                self.long_jump_stack.push(
                    adr,
                    self.return_stack.here(),
                    self.env_stack.here(),
                    self.data_stack.here(),
                );
                self.advance();
                Ok(())
            },
            Instruction::LongJump => self.apply_long_jump(),
            Instruction::PopJump => {
                match self.long_jump_stack.peek() {
                    Ok(_) => {},
                    Err(e) => {
                        return Err(VmErrorReason::LongJumpStackAccessError(e));
                    },
                }
                if stuck {
                    return Err(VmErrorReason::InstructionError("the program counter cannot advance"));
                }
                let _ = self.long_jump_stack.pop();
                self.advance();
                Ok(())
            },
        }
    }
}

impl<T, E, R, P: Primitive<T, E, R>> Vm<T, E, R, P> {
    /// Evaluates an instruction, as when a token is interpreted.
    pub fn eval_instruction(&mut self, inst: Instruction<T, P>) -> (r: Result<(), VmErrorReason<E>>)
        ensures
            evaluated(*old(self), inst, *final(self), r),
    {
        match inst {
            Instruction::Call(adr) => {
                self.return_stack.push(CodeAddress(Address::Root), self.env_stack.here());
                self.program_counter = adr;
                self.execution_state = VmExecutionState::CodeExecution;
                Ok(())
            },
            _ => self.apply_instruction(inst),
        }
    }

    /// Executes the instruction at the program counter.
    pub fn exec_execution(&mut self) -> (r: Result<(), VmErrorReason<E>>)
        ensures
            executed(*old(self), *final(self), r),
    {
        match self.program_counter.0 {
            Address::Entity(_) => {
                let inst = match self.code_buffer.get(self.program_counter) {
                    Ok(i) => i,
                    Err(e) => {
                        return Err(VmErrorReason::CodeBufferAccessError(e));
                    },
                };
                let res = self.apply_instruction(inst);
                let ghost mid = *self;
                let leave = res.is_ok() && match self.program_counter.0 {
                    Address::Root => true,
                    Address::Entity(_) => match self.execution_state {
                        VmExecutionState::CodeExecution => false,
                        VmExecutionState::TokenIteration => true,
                    },
                };
                if leave {
                    self.execution_state = VmExecutionState::TokenIteration;
                }
                assert(applied(*old(self), inst, mid, res));
                res
            },
            Address::Root => {
                self.execution_state = VmExecutionState::TokenIteration;
                Ok(())
            },
        }
    }

    /// Does with `next_token` what is done with a token that is read while
    /// tokens are interpreted.
    pub fn interpret_token(&mut self, next_token: Option<Token>) -> (r: Result<
        (),
        VmErrorReason<E>,
    >)
        ensures
            interpreted(*old(self), next_token, *final(self), r),
    {
        match next_token {
            Some(next_token) => {
                self.current_line_number = next_token.line_number;
                self.current_column_number = next_token.column_number;
                let token = match next_token.value_token {
                    Ok(t) => t,
                    Err(e) => {
                        return Err(VmErrorReason::TokenError(e));
                    },
                };
                let c = self.compile_token(token, false);
                match c {
                    Ok((inst, _)) => self.eval_instruction(inst),
                    Err(e) => Err(e),
                }
            },
            None => {
                self.state = VmState::Return;
                Ok(())
            },
        }
    }

    /// Does with `next_token` what is done with a token that is read while
    /// a word is compiled.
    pub fn compile_next_token(&mut self, next_token: Option<Token>, recursable: bool) -> (r: Result<
        (),
        VmErrorReason<E>,
    >)
        ensures
            compiled(*old(self), next_token, recursable, *final(self), r),
    {
        match next_token {
            Some(next_token) => {
                self.current_line_number = next_token.line_number;
                self.current_column_number = next_token.column_number;
                let token = match next_token.value_token {
                    Ok(t) => t,
                    Err(e) => {
                        return Err(VmErrorReason::TokenError(e));
                    },
                };
                let c = self.compile_token(token, recursable);
                match c {
                    Ok((inst, immidiate)) => {
                        if immidiate {
                            self.eval_instruction(inst)
                        } else {
                            self.emit(inst);
                            Ok(())
                        }
                    },
                    Err(e) => Err(e),
                }
            },
            None => {
                self.state = VmState::Return;
                Ok(())
            },
        }
    }

    /// Reads a token and interprets it.
    pub fn exec_interpretation(&mut self) -> (r: Result<(), VmErrorReason<E>>)
        ensures
            token_interpreted(*old(self), *final(self), r),
    {
        let token = self.input.next_token();
        let ghost read = *self;
        assert(read == reading_from(*old(self), read.input));
        let r = self.interpret_token(token);
        r
    }

    /// Reads a token and compiles it.
    pub fn exec_compilation(&mut self, recursable: bool) -> (r: Result<(), VmErrorReason<E>>)
        ensures
            token_compiled(*old(self), recursable, *final(self), r),
    {
        let token = self.input.next_token();
        let ghost read = *self;
        assert(read == reading_from(*old(self), read.input));
        let r = self.compile_next_token(token, recursable);
        r
    }

}

impl<T, E, R, P: Primitive<T, E, R>> Vm<T, E, R, P> {
    /// Does one round of work and returns whether the machine has stopped.
    pub fn step(&mut self) -> (r: Result<bool, VmErrorReason<E>>)
        ensures
            stepped(*old(self), *final(self), r),
    {
        match self.execution_state {
            VmExecutionState::TokenIteration => match self.state {
                VmState::Interpretation => {
                    let res = self.exec_interpretation();
                    match res {
                        Ok(_) => Ok(false),
                        Err(e) => Err(e),
                    }
                },
                VmState::Compilation => {
                    let res = self.exec_compilation(false);
                    match res {
                        Ok(_) => Ok(false),
                        Err(e) => Err(e),
                    }
                },
                VmState::RecursableCompilation => {
                    let res = self.exec_compilation(true);
                    match res {
                        Ok(_) => Ok(false),
                        Err(e) => Err(e),
                    }
                },
                VmState::Return => {
                    let _ = self.exec_return();
                    Ok(false)
                },
                VmState::Stop => {
                    self.reset_vm_state();
                    Ok(true)
                },
            },
            VmExecutionState::CodeExecution => {
                let res = self.exec_execution();
                match res {
                    Ok(_) => Ok(false),
                    Err(e) => Err(e),
                }
            },
        }
    }

    /// Does rounds of work until the machine has stopped or fails, but at
    /// most `limit` of them. Returns whether the machine has stopped; a
    /// machine that has not, or that has failed, goes on where it stands
    /// when it is run again.
    pub fn exec(&mut self, limit: usize) -> (r: Result<bool, VmErrorReason<E>>)
        ensures
            ran(*old(self), *final(self), limit as nat, r),
    {
        let mut n: usize = 0;
        let ghost mut left: nat = limit as nat;
        while n < limit
            invariant
                n <= limit,
                left == limit - n,
                forall|after: Self, r: Result<bool, VmErrorReason<E>>| #[trigger]
                    ran(*self, after, left, r) ==> ran(*old(self), after, limit as nat, r),
            decreases limit - n,
        {
            let ghost here = *self;
            let ghost less = (left - 1) as nat;
            let first = self.step();
            let ghost there = *self;
            match first {
                Ok(false) => {
                    proof {
                        assert forall|after: Self, r: Result<bool, VmErrorReason<E>>| #[trigger]
                            ran(there, after, less, r) implies ran(
                            *old(self),
                            after,
                            limit as nat,
                            r,
                        ) by {
                            assert(ran(here, after, left, r));
                        }
                        left = less;
                    }
                    n = n + 1;
                },
                other => {
                    proof {
                        assert(ran(here, there, left, first));
                    }
                    return other;
                },
            }
        }
        assert(ran(*self, *self, left, Ok::<bool, VmErrorReason<E>>(false)));
        Ok(false)
    }

    /// Pushes `args` on the environment stack, the first first, and then
    /// runs the machine as `exec` does.
    pub fn exec_with_args(&mut self, args: &Vec<String>, limit: usize) -> (r: Result<
        bool,
        VmErrorReason<E>,
    >)
        ensures
            ran_with_args(*old(self), *final(self), args@, limit as nat, r),
    {
        let mut i: usize = 0;
        while i < args.len()
            invariant
                i <= args@.len(),
                self.env_stack@.len() == old(self).env_stack@.len() + i,
                self.env_stack@.take(old(self).env_stack@.len() as int) == old(self).env_stack@,
                forall|k: int|
                    0 <= k < i ==> *(#[trigger] self.env_stack@[old(self).env_stack@.len() + k])
                        == Value::<T>::StrValue(args@[k]),
                self.machine().data == old(self).machine().data,
                self.machine().calls == old(self).machine().calls,
                self.machine().jumps == old(self).machine().jumps,
                self.program_counter == old(self).program_counter,
                self.execution_state == old(self).execution_state,
                old(self).same_surroundings(self),
            decreases args@.len() - i,
        {
            self.env_stack.push(Rc::new(Value::StrValue(args[i].clone())));
            i = i + 1;
        }
        let ghost loaded = *self;
        let r = self.exec(limit);
        assert(args_loaded(*old(self), loaded, args@) && ran(loaded, *self, limit as nat, r));
        r
    }

}

impl<T, E, R, P> Vm<T, E, R, P> {
    /// The data stack.
    pub fn data_stack(&self) -> (r: &DataStack<T>)
        ensures
            *r == self.data_stack,
    {
        &self.data_stack
    }

    /// The data stack, to be changed in place.
    pub fn data_stack_mut(&mut self) -> (r: &mut DataStack<T>)
        ensures
            *r == old(self).data_stack,
            *final(self) == (Vm { data_stack: *final(r), ..*old(self) }),
    {
        &mut self.data_stack
    }

    /// The return stack.
    pub fn return_stack(&self) -> (r: &ReturnStack)
        ensures
            *r == self.return_stack,
    {
        &self.return_stack
    }

    /// The return stack, to be changed in place.
    pub fn return_stack_mut(&mut self) -> (r: &mut ReturnStack)
        ensures
            *r == old(self).return_stack,
            *final(self) == (Vm { return_stack: *final(r), ..*old(self) }),
    {
        &mut self.return_stack
    }

    /// The environment stack.
    pub fn env_stack(&self) -> (r: &EnvironmentStack<T>)
        ensures
            *r == self.env_stack,
    {
        &self.env_stack
    }

    /// The environment stack, to be changed in place.
    pub fn env_stack_mut(&mut self) -> (r: &mut EnvironmentStack<T>)
        ensures
            *r == old(self).env_stack,
            *final(self) == (Vm { env_stack: *final(r), ..*old(self) }),
    {
        &mut self.env_stack
    }

    /// The control-flow stack.
    pub fn controlflow_stack(&self) -> (r: &ControlflowStack<T>)
        ensures
            *r == self.controlflow_stack,
    {
        &self.controlflow_stack
    }

    /// The control-flow stack, to be changed in place.
    pub fn controlflow_stack_mut(&mut self) -> (r: &mut ControlflowStack<T>)
        ensures
            *r == old(self).controlflow_stack,
            *final(self) == (Vm { controlflow_stack: *final(r), ..*old(self) }),
    {
        &mut self.controlflow_stack
    }

    /// The code buffer.
    pub fn code_buffer(&self) -> (r: &CodeBuffer<T, P>)
        ensures
            *r == self.code_buffer,
    {
        &self.code_buffer
    }

    /// The code buffer, to be changed in place.
    pub fn code_buffer_mut(&mut self) -> (r: &mut CodeBuffer<T, P>)
        ensures
            *r == old(self).code_buffer,
            *final(self) == (Vm { code_buffer: *final(r), ..*old(self) }),
    {
        &mut self.code_buffer
    }

    /// The data buffer.
    pub fn data_buffer(&self) -> (r: &DataBuffer<T>)
        ensures
            *r == self.data_buffer,
    {
        &self.data_buffer
    }

    /// The data buffer, to be changed in place.
    pub fn data_buffer_mut(&mut self) -> (r: &mut DataBuffer<T>)
        ensures
            *r == old(self).data_buffer,
            *final(self) == (Vm { data_buffer: *final(r), ..*old(self) }),
    {
        &mut self.data_buffer
    }

    /// The dictionary of the words.
    pub fn word_dictionary(&self) -> (r: &Dictionary)
        ensures
            *r == self.word_dictionary,
    {
        &self.word_dictionary
    }

    /// The dictionary of the words, to be changed in place.
    pub fn word_dictionary_mut(&mut self) -> (r: &mut Dictionary)
        ensures
            *r == old(self).word_dictionary,
            *final(self) == (Vm { word_dictionary: *final(r), ..*old(self) }),
    {
        &mut self.word_dictionary
    }

    /// The dictionary of the local variables.
    pub fn local_dictionary(&self) -> (r: &LocalDictionary)
        ensures
            *r == self.local_dictionary,
    {
        &self.local_dictionary
    }

    /// The dictionary of the local variables, to be changed in place.
    pub fn local_dictionary_mut(&mut self) -> (r: &mut LocalDictionary)
        ensures
            *r == old(self).local_dictionary,
            *final(self) == (Vm { local_dictionary: *final(r), ..*old(self) }),
    {
        &mut self.local_dictionary
    }

    /// The long-jump stack.
    pub fn long_jump_stack(&self) -> (r: &LongJumpStack)
        ensures
            *r == self.long_jump_stack,
    {
        &self.long_jump_stack
    }

    /// The long-jump stack, to be changed in place.
    pub fn long_jump_stack_mut(&mut self) -> (r: &mut LongJumpStack)
        ensures
            *r == old(self).long_jump_stack,
            *final(self) == (Vm { long_jump_stack: *final(r), ..*old(self) }),
    {
        &mut self.long_jump_stack
    }

    /// What the host offers.
    pub fn resources(&self) -> (r: &R)
        ensures
            *r == self.resources,
    {
        &self.resources
    }

    /// What the host offers, to be changed in place.
    pub fn resources_mut(&mut self) -> (r: &mut R)
        ensures
            *r == old(self).resources,
            *final(self) == (Vm { resources: *final(r), ..*old(self) }),
    {
        &mut self.resources
    }

    /// The script that is being read.
    pub fn input_stream(&self) -> (r: &TokenStream)
        ensures
            *r == self.input,
    {
        &self.input
    }

    /// The script that is being read, to be read from.
    pub fn input_stream_mut(&mut self) -> (r: &mut TokenStream)
        ensures
            *r == old(self).input,
            *final(self) == (Vm { input: *final(r), ..*old(self) }),
    {
        &mut self.input
    }

    /// What is known of the origin of the compiled code.
    pub fn debug_info_store(&self) -> (r: &DebugInfoStore)
        ensures
            *r == self.debug_info_store,
    {
        &self.debug_info_store
    }

    /// What is done with the tokens.
    pub fn state(&self) -> (r: VmState)
        ensures
            r == self.state,
    {
        self.state
    }

    /// Sets what is done with the tokens and returns what was done before.
    pub fn set_state(&mut self, new_state: VmState) -> (r: VmState)
        ensures
            r == old(self).state,
            *final(self) == (Vm { state: new_state, ..*old(self) }),
    {
        let before = self.state;
        self.state = new_state;
        before
    }

    /// Where the next piece of work comes from.
    pub fn exec_state(&self) -> (r: VmExecutionState)
        ensures
            r == self.execution_state,
    {
        self.execution_state
    }

    /// Sets where the next piece of work comes from and returns where it
    /// came from before.
    pub fn set_exec_state(&mut self, new_state: VmExecutionState) -> (r: VmExecutionState)
        ensures
            r == old(self).execution_state,
            *final(self) == (Vm { execution_state: new_state, ..*old(self) }),
    {
        let before = self.execution_state;
        self.execution_state = new_state;
        before
    }

    /// The address of the instruction to be executed next.
    pub fn program_counter(&self) -> (r: CodeAddress)
        ensures
            r == self.program_counter,
    {
        self.program_counter
    }

    /// Sets the address of the instruction to be executed next and returns
    /// the one that was set before.
    pub fn set_program_counter(&mut self, new_program_counter: CodeAddress) -> (r: CodeAddress)
        ensures
            r == old(self).program_counter,
            *final(self) == (Vm { program_counter: new_program_counter, ..*old(self) }),
    {
        let before = self.program_counter;
        self.program_counter = new_program_counter;
        before
    }

    /// The line at which the script stood before the token read last.
    pub fn line_number(&self) -> (r: LineNumber)
        ensures
            r == self.current_line_number,
    {
        self.current_line_number
    }

    /// The column at which the script stood before the token read last.
    pub fn column_number(&self) -> (r: ColumnNumber)
        ensures
            r == self.current_column_number,
    {
        self.current_column_number
    }
}

/// An instruction is executed only at a program counter that is an index
/// into the code buffer: a round of work that executes code and does not
/// fail has found the program counter to be the root address, or an index
/// below the size of the code buffer.
pub proof fn executed_within_code<T, E, R, P: Primitive<T, E, R>>(
    before: Vm<T, E, R, P>,
    after: Vm<T, E, R, P>,
    r: Result<(), VmErrorReason<E>>,
)
    requires
        executed(before, after, r),
        r is Ok,
    ensures
        before.program_counter.0 matches Address::Entity(i) ==> i < before.code_buffer@.len(),
{
}

/// The instruction that calls a primitive does to the data stack what the
/// primitive does to it, and to everything else but the program counter:
/// there is a call of the primitive that leaves the machine as the
/// instruction leaves it, up to the program counter.
pub proof fn primitive_instruction_is_the_primitive<T, E, R, P: Primitive<T, E, R>>(
    before: Vm<T, E, R, P>,
    f: P,
    after: Vm<T, E, R, P>,
    r: Result<(), VmErrorReason<E>>,
)
    requires
        applied(before, Instruction::CallPrimitive(f), after, r),
        can_advance(before.program_counter),
    ensures
        exists|called: Vm<T, E, R, P>| #[trigger]
            f.effect(before, called, r) && after.data_stack == called.data_stack && after == (Vm {
                program_counter: after.program_counter,
                ..called
            }),
{
    let (mid, res) = choose|mid: Vm<T, E, R, P>, res: Result<(), VmErrorReason<E>>|
        primitive_step(before, f, mid, res, after, r);
}

/// The call of a word and the return from it leave the data stack alone,
/// whether the word is called from code or from a token that is
/// interpreted. So a word whose body calls a primitive and returns does to
/// the data stack what the primitive does to it.
pub proof fn call_and_return_keep_data<T, P, E>(m: Machine<T>, adr: CodeAddress)
    ensures
        instruction_effect::<T, P, E>(m, Instruction::Call(adr)).0.data == m.data,
        evaluation_effect::<T, P, E>(m, Instruction::Call(adr)).0.data == m.data,
        instruction_effect::<T, P, E>(m, Instruction::Return).0.data == m.data,
{
}

/// Whether every call of the primitive `f` leaves the program counter, the
/// return stack, the code and where the work comes from as they are, and
/// the environment stack no lower than it is: the primitive works on the
/// data stack and on what else it likes, but it does not leave its word.
pub open spec fn stays_in_its_word<T, E, R, P: Primitive<T, E, R>>(f: P) -> bool {
    forall|a: Vm<T, E, R, P>, b: Vm<T, E, R, P>, res: Result<(), VmErrorReason<E>>| #[trigger]
        f.effect(a, b, res) ==> b.program_counter == a.program_counter && b.return_stack@
            == a.return_stack@ && b.code_buffer@ == a.code_buffer@ && b.execution_state
            == a.execution_state && b.env_stack@.len() >= a.env_stack@.len()
}

/// A word whose body calls a primitive and returns, run from its name in a
/// script, leaves the data stack as a call of the primitive leaves it. The
/// name is interpreted, which calls the word; the next round calls the
/// primitive, on the machine as the call of the word has left it, and hands
/// back what the primitive hands back; where that is no failure, the round
/// after it returns, and the machine reads tokens again, with the return
/// stack as it was and the data stack as the primitive has left it. This is
/// stated of primitives that do not leave their word.
pub proof fn primitive_word_is_the_primitive<T, E, R, P: Primitive<T, E, R>>(
    before: Vm<T, E, R, P>,
    token: Token,
    name: String,
    word: super::word::Word,
    f: P,
    called: Vm<T, E, R, P>,
    r1: Result<(), VmErrorReason<E>>,
    done: Vm<T, E, R, P>,
    r2: Result<(), VmErrorReason<E>>,
    back: Vm<T, E, R, P>,
    r3: Result<(), VmErrorReason<E>>,
)
    requires
        token.value_token == Ok::<ValueToken, TokenizerError>(ValueToken::Symbol(name)),
        !before.local_dictionary.slots().contains_key(name@),
        before.word_dictionary.committed().contains_key(name@),
        before.word_dictionary.committed()[name@] == word,
        word.code.0 matches Address::Entity(c) && c + 1 < before.code_buffer@.len()
            && before.code_buffer@[c as int] == Instruction::<T, P>::CallPrimitive(f)
            && before.code_buffer@[c + 1] == Instruction::<T, P>::Return,
        before.env_stack@.len() <= usize::MAX,
        before.code_buffer@.len() <= usize::MAX,
        stays_in_its_word::<T, E, R, P>(f),
        interpreted(before, Some(token), called, r1),
        executed(called, done, r2),
        executed(done, back, r3),
    ensures
        r1 is Ok,
        called.data_stack@ == before.data_stack@,
        exists|left: Vm<T, E, R, P>| #[trigger]
            f.effect(called, left, r2) && done.data_stack@ == left.data_stack@,
        r2 is Ok ==> r3 is Ok && back.data_stack@ == done.data_stack@ && back.return_stack@
            == before.return_stack@ && back.program_counter == CodeAddress(Address::Root)
            && back.execution_state == VmExecutionState::TokenIteration,
{
    let placed = Vm {
        current_line_number: token.line_number,
        current_column_number: token.column_number,
        ..before
    };
    let c = word.code.0->Entity_0;
    let inst = Instruction::<T, P>::Call(word.code);
    let compiled = choose|compiled: Result<(Instruction<T, P>, bool), VmErrorReason<E>>|
        #[trigger] is_compiled(
            before.local_dictionary,
            before.word_dictionary,
            ValueToken::Symbol(name),
            false,
            compiled,
        ) && match compiled {
            Err(e) => called == placed && r1 == Err::<(), VmErrorReason<E>>(e),
            Ok((inst, _)) => evaluated(placed, inst, called, r1),
        };
    assert(compiled == Ok::<(Instruction<T, P>, bool), VmErrorReason<E>>((inst, word.immediate)));
    assert(evaluated(placed, inst, called, r1));
    assert(called.program_counter == word.code);
    assert(called.code_buffer@ == before.code_buffer@);
    assert(called.return_stack@.last().return_address == CodeAddress(Address::Root));
    let mid = choose|mid: Vm<T, E, R, P>|
        #[trigger] applied(called, called.code_buffer@[c as int], mid, r2) && done == if r2
            is Ok && (mid.program_counter.0 is Root || mid.execution_state
            != VmExecutionState::CodeExecution) {
            Vm { execution_state: VmExecutionState::TokenIteration, ..mid }
        } else {
            mid
        };
    assert(primitive_called(called, f, mid, r2));
    let (left, res) = choose|left: Vm<T, E, R, P>, res: Result<(), VmErrorReason<E>>|
        primitive_step(called, f, left, res, mid, r2);
    assert(f.effect(called, left, r2));
    assert(done.data_stack@ == left.data_stack@);
    if r2 is Ok {
        assert(done.program_counter == next_pc(word.code));
        assert(done.execution_state == VmExecutionState::CodeExecution);
        let last = choose|last: Vm<T, E, R, P>|
            #[trigger] applied(done, done.code_buffer@[c + 1], last, r3) && back == if r3 is Ok
                && (last.program_counter.0 is Root || last.execution_state
                != VmExecutionState::CodeExecution) {
                Vm { execution_state: VmExecutionState::TokenIteration, ..last }
            } else {
                last
            };
        assert(done.return_stack@.drop_last() =~= before.return_stack@);
    }
}

/// A return from a call leaves the environment stack as deep as it was at
/// the call: whatever has been done since the call and wherever the
/// program counter stands at the return, if the call is on top of the
/// return stack and the environment stack is no lower than it was, the
/// return cuts the environment stack down to the depth at the call and goes
/// on behind the call.
pub proof fn return_restores_environment<T, P, E>(
    at_call: Machine<T>,
    adr: CodeAddress,
    at_return: Machine<T>,
)
    requires
        can_advance(at_call.pc),
        at_return.calls == instruction_effect::<T, P, E>(at_call, Instruction::Call(adr)).0.calls,
        at_return.env.len() >= at_call.env.len(),
        at_call.env.len() <= usize::MAX,
    ensures
        instruction_effect::<T, P, E>(at_call, Instruction::Call(adr)).1 is Ok,
        instruction_effect::<T, P, E>(at_call, Instruction::Call(adr)).0.pc == adr,
        instruction_effect::<T, P, E>(at_return, Instruction::Return) == return_effect::<T, E>(
            at_return,
        ),
        return_effect::<T, E>(at_return).1 is Ok,
        return_effect::<T, E>(at_return).0.env.len() == at_call.env.len(),
        return_effect::<T, E>(at_return).0.env == at_return.env.take(at_call.env.len() as int),
        return_effect::<T, E>(at_return).0.calls == at_call.calls,
        return_effect::<T, E>(at_return).0.pc == next_pc(at_call.pc),
{
}

/// A long jump leaves the return stack and the environment stack as deep
/// as they were when the target was recorded, and the data stack one value
/// deeper: it keeps the value that was on top at the jump. This holds
/// whatever has been done since and wherever the program counter stands
/// at the jump, if the target is on top of the long-jump stack, no stack is
/// lower than it was, and the data stack holds a value.
pub proof fn long_jump_restores_depths<T, P, E>(
    at_set: Machine<T>,
    target: CodeAddress,
    at_jump: Machine<T>,
)
    requires
        can_advance(at_set.pc),
        at_jump.jumps == instruction_effect::<T, P, E>(
            at_set,
            Instruction::SetJump(target),
        ).0.jumps,
        at_jump.calls.len() >= at_set.calls.len(),
        at_jump.env.len() >= at_set.env.len(),
        at_jump.data.len() >= at_set.data.len(),
        at_jump.data.len() >= 1,
        at_set.calls.len() <= usize::MAX,
        at_set.env.len() <= usize::MAX,
        at_set.data.len() <= usize::MAX,
    ensures
        instruction_effect::<T, P, E>(at_jump, Instruction::LongJump) == long_jump_effect::<T, E>(
            at_jump,
        ),
        long_jump_effect::<T, E>(at_jump).1 is Ok,
        long_jump_effect::<T, E>(at_jump).0.calls.len() == at_set.calls.len(),
        long_jump_effect::<T, E>(at_jump).0.env.len() == at_set.env.len(),
        long_jump_effect::<T, E>(at_jump).0.data.len() == at_set.data.len() + 1,
        long_jump_effect::<T, E>(at_jump).0.data.last() == at_jump.data.last(),
        long_jump_effect::<T, E>(at_jump).0.data.drop_last() == at_jump.data.take(
            at_set.data.len() as int,
        ),
        long_jump_effect::<T, E>(at_jump).0.jumps == at_set.jumps,
        long_jump_effect::<T, E>(at_jump).0.pc == target,
{
}

/// A branch is taken on every value but the integer zero, wherever the
/// program counter stands, and the value is taken off the data stack. On
/// the integer zero the value is taken off and execution goes on with the
/// next instruction, where there is one.
pub proof fn branch_is_taken_unless_zero<T, P, E>(m: Machine<T>, adr: CodeAddress)
    requires
        m.data.len() >= 1,
    ensures
        *m.data.last() != Value::<T>::IntValue(0) ==> instruction_effect::<T, P, E>(
            m,
            Instruction::Branch(adr),
        ) == (Machine { data: m.data.drop_last(), pc: adr, ..m }, Ok::<(), VmErrorReason<E>>(())),
        *m.data.last() is StrValue ==> instruction_effect::<T, P, E>(
            m,
            Instruction::Branch(adr),
        ).0.pc == adr,
        *m.data.last() == Value::<T>::IntValue(0) && can_advance(m.pc) ==> instruction_effect::<
            T,
            P,
            E,
        >(m, Instruction::Branch(adr)) == (
            Machine { data: m.data.drop_last(), pc: next_pc(m.pc), ..m },
            Ok::<(), VmErrorReason<E>>(()),
        ),
{
}

/// `Exec` leaves a value alone that designates nothing to run: the data
/// stack is what it was, and execution goes on with the next instruction.
pub proof fn exec_leaves_other_values<T, P, E>(m: Machine<T>)
    requires
        can_advance(m.pc),
        m.data.len() >= 1,
        !(*m.data.last() is CodeAddress),
        !(*m.data.last() is EnvAddress),
    ensures
        instruction_effect::<T, P, E>(m, Instruction::Exec).1 is Ok,
        instruction_effect::<T, P, E>(m, Instruction::Exec).0.data == m.data,
        instruction_effect::<T, P, E>(m, Instruction::Exec).0.pc == next_pc(m.pc),
        instruction_effect::<T, P, E>(m, Instruction::Exec).0 == (Machine {
            pc: next_pc(m.pc),
            ..m
        }),
{
}

/// A machine that has run until it stopped is ready to interpret tokens.
pub proof fn stopped_machine_is_ready<T, E, R, P: Primitive<T, E, R>>(
    before: Vm<T, E, R, P>,
    after: Vm<T, E, R, P>,
    rounds: nat,
)
    requires
        ran(before, after, rounds, Ok::<bool, VmErrorReason<E>>(true)),
    ensures
        after.state == VmState::Interpretation,
        after.execution_state == VmExecutionState::TokenIteration,
    decreases rounds,
{
    if rounds > 0 {
        let (mid, first) = choose|mid: Vm<T, E, R, P>, first: Result<bool, VmErrorReason<E>>|
            #[trigger] stepped(before, mid, first) && if first == Ok::<bool, VmErrorReason<E>>(
                false,
            ) {
                ran(mid, after, (rounds - 1) as nat, Ok::<bool, VmErrorReason<E>>(true))
            } else {
                after == mid && Ok::<bool, VmErrorReason<E>>(true) == first
            };
        if first == Ok::<bool, VmErrorReason<E>>(false) {
            stopped_machine_is_ready(mid, after, (rounds - 1) as nat);
        }
    }
}

impl Text for VmState {
    open spec fn text(&self) -> Seq<char> {
        match self {
            VmState::Compilation => "Compilation"@,
            VmState::RecursableCompilation => "RecursableCompilation"@,
            VmState::Interpretation => "Interpretation"@,
            VmState::Return => "Return"@,
            VmState::Stop => "Stop"@,
        }
    }

    fn write_text(&self, f: &mut String) {
        match self {
            VmState::Compilation => f.append("Compilation"),
            VmState::RecursableCompilation => f.append("RecursableCompilation"),
            VmState::Interpretation => f.append("Interpretation"),
            VmState::Return => f.append("Return"),
            VmState::Stop => f.append("Stop"),
        }
    }
}

impl Text for VmExecutionState {
    open spec fn text(&self) -> Seq<char> {
        match self {
            VmExecutionState::CodeExecution => "CodeExecution"@,
            VmExecutionState::TokenIteration => "TokenIteration"@,
        }
    }

    fn write_text(&self, f: &mut String) {
        match self {
            VmExecutionState::CodeExecution => f.append("CodeExecution"),
            VmExecutionState::TokenIteration => f.append("TokenIteration"),
        }
    }
}

} // verus!
