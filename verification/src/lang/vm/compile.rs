//! Making instructions: one function for each kind of instruction, and the
//! instruction that a token is compiled to.

use super::super::tokenizer::ValueToken;
use super::super::value::CodeAddress;
use super::super::value::DebugLabel;
use super::super::value::EnvironmentStackRelativeAddress;
use super::super::value::Instruction;
use super::super::value::TrapReason;
use super::super::value::Value;
use super::super::word::Dictionary;
use super::super::word::LocalDictionary;
use super::super::word::Word;
use super::super::word::WordErrorReason;
use super::Vm;
use super::VmErrorReason;
use std::rc::Rc;
use vstd::prelude::*;

verus! {

/// The instruction that pushes `value`.
pub fn compile_push_value<T, P>(value: Rc<Value<T>>) -> (r: Instruction<T, P>)
    ensures
        r == Instruction::<T, P>::Push(value),
{
    Instruction::Push(value)
}

/// The instruction that calls the word at `adr`.
pub fn compile_call_code_address<T, P>(adr: CodeAddress) -> (r: Instruction<T, P>)
    ensures
        r == Instruction::<T, P>::Call(adr),
{
    Instruction::Call(adr)
}

/// The instruction that reads the local variable in the slot `adr`.
pub fn compile_local_ref<T, P>(adr: EnvironmentStackRelativeAddress) -> (r: Instruction<T, P>)
    ensures
        r == Instruction::<T, P>::LocalRef(adr),
{
    Instruction::LocalRef(adr)
}

/// The trap that a program asks for.
pub fn compile_user_trap<T, P>() -> (r: Instruction<T, P>)
    ensures
        r == Instruction::<T, P>::Trap(TrapReason::UserTrap),
{
    Instruction::Trap(TrapReason::UserTrap)
}

/// The trap that holds the place of an instruction still to be compiled.
pub fn compile_dummy_instruction<T, P>() -> (r: Instruction<T, P>)
    ensures
        r == Instruction::<T, P>::Trap(TrapReason::DummyInstructionExecution),
{
    Instruction::Trap(TrapReason::DummyInstructionExecution)
}

/// The instruction that does nothing.
pub fn compile_nop<T, P>() -> (r: Instruction<T, P>)
    ensures
        r == Instruction::<T, P>::Nop,
{
    Instruction::Nop
}

/// The instruction that returns from a word.
pub fn compile_return<T, P>() -> (r: Instruction<T, P>)
    ensures
        r == Instruction::<T, P>::Return,
{
    Instruction::Return
}

/// The mark that ends the body of a word.
pub fn compile_word_terminator<T, P>() -> (r: Instruction<T, P>)
    ensures
        r == Instruction::<T, P>::DebugLabel(DebugLabel::WordTerminator),
{
    Instruction::DebugLabel(DebugLabel::WordTerminator)
}

/// The instruction that branches to `adr`.
pub fn compile_branch<T, P>(adr: CodeAddress) -> (r: Instruction<T, P>)
    ensures
        r == Instruction::<T, P>::Branch(adr),
{
    Instruction::Branch(adr)
}

/// The instruction that runs what is on top of the data stack.
pub fn compile_exec<T, P>() -> (r: Instruction<T, P>)
    ensures
        r == Instruction::<T, P>::Exec,
{
    Instruction::Exec
}

/// The instruction that records `adr` as the target of a long jump.
pub fn compile_set_jump<T, P>(adr: CodeAddress) -> (r: Instruction<T, P>)
    ensures
        r == Instruction::<T, P>::SetJump(adr),
{
    Instruction::SetJump(adr)
}

/// The instruction that jumps to the target recorded last.
pub fn compile_longjump<T, P>() -> (r: Instruction<T, P>)
    ensures
        r == Instruction::<T, P>::LongJump,
{
    Instruction::LongJump
}

/// The instruction that calls the primitive `f`.
pub fn compile_call_primitive<T, P>(f: P) -> (r: Instruction<T, P>)
    ensures
        r == Instruction::<T, P>::CallPrimitive(f),
{
    Instruction::CallPrimitive(f)
}

/// The word that the symbol `name` stands for: taken from the completed
/// words, or, where `recursable` is set, first from the reservation.
pub open spec fn named_word(dictionary: Dictionary, name: Seq<char>, recursable: bool) -> Option<
    Word,
> {
    if recursable {
        dictionary.word_within_reservation(name)
    } else if dictionary.committed().contains_key(name) {
        Some(dictionary.committed()[name])
    } else {
        None
    }
}

/// What the symbol `name` is compiled to, and whether it is to be executed
/// at once: a local variable is read; a word is called, and is executed at
/// once where it is immediate. The local variables go before the words.
pub open spec fn compiled_symbol<T, P>(
    locals: LocalDictionary,
    dictionary: Dictionary,
    name: String,
    recursable: bool,
) -> Result<(Instruction<T, P>, bool), WordErrorReason> {
    if locals.slots().contains_key(name@) {
        Ok((Instruction::LocalRef(locals.slots()[name@]), false))
    } else {
        match named_word(dictionary, name@, recursable) {
            Some(word) => Ok((Instruction::Call(word.code), word.immediate)),
            None => Err(WordErrorReason::UndefinedWord(name)),
        }
    }
}

/// Whether `result` is what `token` is compiled to: an integer and a
/// string are pushed, and a symbol is compiled as [`compiled_symbol`] says.
pub open spec fn is_compiled<T, P, E>(
    locals: LocalDictionary,
    dictionary: Dictionary,
    token: ValueToken,
    recursable: bool,
    result: Result<(Instruction<T, P>, bool), VmErrorReason<E>>,
) -> bool {
    match token {
        ValueToken::IntValue(i) => result matches Ok((Instruction::Push(v), false)) && *v
            == Value::<T>::IntValue(i),
        ValueToken::StrValue(s) => result matches Ok((Instruction::Push(v), false)) && *v
            == Value::<T>::StrValue(s),
        ValueToken::Symbol(s) => match compiled_symbol::<T, P>(locals, dictionary, s, recursable) {
            Ok(pair) => result == Ok::<(Instruction<T, P>, bool), VmErrorReason<E>>(pair),
            Err(e) => result == Err::<(Instruction<T, P>, bool), VmErrorReason<E>>(
                VmErrorReason::WordError(e),
            ),
        },
    }
}

/// Compiles the symbol `name`.
pub fn compile_symbol<T, E, R, P>(
    vm: &Vm<T, E, R, P>,
    name: &String,
    recursable: bool,
) -> (r: Result<(Instruction<T, P>, bool), VmErrorReason<E>>)
    ensures
        match compiled_symbol::<T, P>(vm.local_dictionary, vm.word_dictionary, *name, recursable) {
            Ok(pair) => r == Ok::<(Instruction<T, P>, bool), VmErrorReason<E>>(pair),
            Err(e) => r == Err::<(Instruction<T, P>, bool), VmErrorReason<E>>(
                VmErrorReason::WordError(e),
            ),
        },
{
    match vm.local_dictionary.find(name) {
        Some(adr) => Ok((compile_local_ref(adr), false)),
        None => {
            let found = if recursable {
                vm.word_dictionary.find_word_within_resavation(name)
            } else {
                vm.word_dictionary.find_word(name)
            };
            match found {
                Ok(w) => Ok((compile_call_code_address(w.code()), w.is_immediate())),
                Err(e) => Err(VmErrorReason::WordError(e)),
            }
        },
    }
}

/// Compiles `token`.
pub fn compile_token<T, E, R, P>(
    vm: &Vm<T, E, R, P>,
    token: ValueToken,
    recursable: bool,
) -> (r: Result<(Instruction<T, P>, bool), VmErrorReason<E>>)
    ensures
        is_compiled(vm.local_dictionary, vm.word_dictionary, token, recursable, r),
{
    match token {
        ValueToken::IntValue(i) => Ok((compile_push_value(Rc::new(Value::IntValue(i))), false)),
        ValueToken::StrValue(s) => Ok((compile_push_value(Rc::new(Value::StrValue(s))), false)),
        ValueToken::Symbol(s) => compile_symbol(vm, &s, recursable),
    }
}

} // verus!
