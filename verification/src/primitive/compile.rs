//! The words that compile instructions and read the script.

use super::data::code_failure;
use super::data::in_code;
use super::util::call_with_name;
use super::util::kept;
use super::util::mismatch;
use super::util::named_word;
use super::util::pop_one;
use super::util::untouched;
use super::util::Touched;
use super::word::code_address_of;
use super::Builtin;
use crate::lang::mem::BufferErrorReason;
use crate::lang::mem::CodeBufferErrorReason;
use crate::lang::tokenizer::advanced;
use crate::lang::tokenizer::scan_run;
use crate::lang::tokenizer::Run;
use crate::lang::tokenizer::TokenIterator;
use crate::lang::value::Address;
use crate::lang::value::CodeAddress;
use crate::lang::value::Instruction;
use crate::lang::value::TrapReason;
use crate::lang::value::TypeMismatchError;
use crate::lang::value::Value;
use crate::lang::value::ValueTryInto;
use crate::lang::vm::compile::compile_call_code_address;
use crate::lang::vm::compile::compile_call_primitive;
use crate::lang::vm::compile::compile_push_value;
use crate::lang::vm::data_underflow;
use crate::lang::vm::bodies_added;
use crate::lang::vm::one_more_body;
use crate::lang::vm::Vm;
use crate::lang::vm::VmErrorReason;
use crate::lang::word::Word;
use crate::lang::word::WordErrorReason;
use std::rc::Rc;
use vstd::prelude::*;

verus! {

/// Defines the words of this file.
pub fn initialize<T, E, R, P: Copy + From<Builtin>>(vm: &mut Vm<T, E, R, P>)
    ensures
        bodies_added(old(vm).code_buffer@, final(vm).code_buffer@, 18),
        final(vm).word_dictionary.committed().contains_key("parse"@),
        final(vm).word_dictionary.committed().contains_key("parse-name"@),
        final(vm).word_dictionary.committed().contains_key("literal"@),
        final(vm).word_dictionary.committed().contains_key("compile,"@),
        final(vm).word_dictionary.committed().contains_key("[compile]"@),
        final(vm).word_dictionary.committed().contains_key("document-word"@),
        final(vm).word_dictionary.committed().contains_key("cdp"@),
        final(vm).word_dictionary.committed().contains_key("__dummy_instruction__"@),
        final(vm).word_dictionary.committed().contains_key("__user_trap__"@),
        final(vm).word_dictionary.committed().contains_key("[__user_trap__]"@),
        final(vm).word_dictionary.committed().contains_key("__jump__"@),
        final(vm).word_dictionary.committed().contains_key("__branch__"@),
        final(vm).word_dictionary.committed().contains_key("__exec__"@),
        final(vm).word_dictionary.committed().contains_key("[__exec__]"@),
        final(vm).word_dictionary.committed().contains_key("__return__"@),
        final(vm).word_dictionary.committed().contains_key("[__return__]"@),
        final(vm).word_dictionary.committed().contains_key("instruction-at"@),
        final(vm).word_dictionary.committed().contains_key("postpone"@),
        final(vm).machine() == old(vm).machine(),
        final(vm).state == old(vm).state,
        forall|n: Seq<char>|
            old(vm).word_dictionary.committed().contains_key(n) ==> #[trigger] final(
                vm
            ).word_dictionary.committed().contains_key(n),
{
    let ghost start = vm.code_buffer@;
    assert(start.take(start.len() as int) =~= start);
    let ghost code = vm.code_buffer@;
    let f = P::from(Builtin::Parse);
    vm.define_primitive_word(
        "parse".to_owned(),
        false,
        "c -- str; skip to token 'c' and push skiped str".to_owned(),
        f,
    );
    proof {
        one_more_body(start, code, f, 0);
    }
    let ghost code = vm.code_buffer@;
    let f = P::from(Builtin::ParseName);
    vm.define_primitive_word(
        "parse-name".to_owned(),
        false,
        "\"name\" -- name; read next token".to_owned(),
        f,
    );
    proof {
        one_more_body(start, code, f, 1);
    }
    let ghost code = vm.code_buffer@;
    let f = P::from(Builtin::Literal);
    vm.define_primitive_word(
        "literal".to_owned(),
        true,
        "a -- ; compile push a".to_owned(),
        f,
    );
    proof {
        one_more_body(start, code, f, 2);
    }
    let ghost code = vm.code_buffer@;
    let f = P::from(Builtin::Compile);
    vm.define_primitive_word(
        "compile,".to_owned(),
        false,
        "xt -- ; compile word call from execution token".to_owned(),
        f,
    );
    proof {
        one_more_body(start, code, f, 3);
    }
    let ghost code = vm.code_buffer@;
    let f = P::from(Builtin::CompileImmidiate);
    vm.define_primitive_word(
        "[compile]".to_owned(),
        true,
        "\"word name\" -- ; compile word call".to_owned(),
        f,
    );
    proof {
        one_more_body(start, code, f, 4);
    }
    let ghost code = vm.code_buffer@;
    let f = P::from(Builtin::DocumentWord);
    vm.define_primitive_word(
        "document-word".to_owned(),
        false,
        "document -- ; document to recent defined word".to_owned(),
        f,
    );
    proof {
        one_more_body(start, code, f, 5);
    }
    let ghost code = vm.code_buffer@;
    let f = P::from(Builtin::Cdp);
    vm.define_primitive_word(
        "cdp".to_owned(),
        false,
        " -- cdp; get code buffer address".to_owned(),
        f,
    );
    proof {
        one_more_body(start, code, f, 6);
    }
    let ghost code = vm.code_buffer@;
    let f = P::from(Builtin::TrapDummyInstructionExecution);
    vm.define_primitive_word(
        "__dummy_instruction__".to_owned(),
        false,
        " -- ; compile instruction: dummy".to_owned(),
        f,
    );
    proof {
        one_more_body(start, code, f, 7);
    }
    let ghost code = vm.code_buffer@;
    let f = P::from(Builtin::TrapUserTrap);
    vm.define_primitive_word(
        "__user_trap__".to_owned(),
        false,
        " -- ; compile instruction: user trap".to_owned(),
        f,
    );
    proof {
        one_more_body(start, code, f, 8);
    }
    let ghost code = vm.code_buffer@;
    let f = P::from(Builtin::TrapUserTrap);
    vm.define_primitive_word(
        "[__user_trap__]".to_owned(),
        true,
        " -- ; compile instruction: user trap".to_owned(),
        f,
    );
    proof {
        one_more_body(start, code, f, 9);
    }
    let ghost code = vm.code_buffer@;
    let f = P::from(Builtin::Jump);
    vm.define_primitive_word(
        "__jump__".to_owned(),
        false,
        "adr -- ; compile instruction: jump".to_owned(),
        f,
    );
    proof {
        one_more_body(start, code, f, 10);
    }
    let ghost code = vm.code_buffer@;
    let f = P::from(Builtin::Branch);
    vm.define_primitive_word(
        "__branch__".to_owned(),
        false,
        "adr -- ; compile instruction: branch".to_owned(),
        f,
    );
    proof {
        one_more_body(start, code, f, 11);
    }
    let ghost code = vm.code_buffer@;
    let f = P::from(Builtin::Exec);
    vm.define_primitive_word(
        "__exec__".to_owned(),
        false,
        " -- ; compile instruction: exec".to_owned(),
        f,
    );
    proof {
        one_more_body(start, code, f, 12);
    }
    let ghost code = vm.code_buffer@;
    let f = P::from(Builtin::Exec);
    vm.define_primitive_word(
        "[__exec__]".to_owned(),
        true,
        " -- ; compile instruction: exec".to_owned(),
        f,
    );
    proof {
        one_more_body(start, code, f, 13);
    }
    let ghost code = vm.code_buffer@;
    let f = P::from(Builtin::Ret);
    vm.define_primitive_word(
        "__return__".to_owned(),
        false,
        " -- ; compile instruction: return".to_owned(),
        f,
    );
    proof {
        one_more_body(start, code, f, 14);
    }
    let ghost code = vm.code_buffer@;
    let f = P::from(Builtin::Ret);
    vm.define_primitive_word(
        "[__return__]".to_owned(),
        true,
        " -- ; compile instruction: return".to_owned(),
        f,
    );
    proof {
        one_more_body(start, code, f, 15);
    }
    let ghost code = vm.code_buffer@;
    let f = P::from(Builtin::InstructionAt);
    vm.define_primitive_word(
        "instruction-at".to_owned(),
        false,
        "adr -- ; code_buffer[adr] = code_buffer.pop".to_owned(),
        f,
    );
    proof {
        one_more_body(start, code, f, 16);
    }
    let ghost code = vm.code_buffer@;
    let f = P::from(Builtin::Postpone);
    vm.define_primitive_word(
        "postpone".to_owned(),
        true,
        "\"word name\" -- ; postpone word".to_owned(),
        f,
    );
    proof {
        one_more_body(start, code, f, 17);
    }
}

/// The text of the script that defines the words which are made of the
/// words of this file.
pub const PRELOAD_SCRIPT: &'static str = r#"
    : ( ")" parse document-word ; immediate
"#;

/// The script that defines the words which are made of the words of this
/// file.
pub fn preload_script() -> (r: &'static str)
    ensures
        r == PRELOAD_SCRIPT,
{
    PRELOAD_SCRIPT
}

/// The character that `value` names as the end of what `parse` reads: the
/// first character of a string.
pub open spec fn end_char<T>(value: Value<T>) -> Option<char> {
    match value {
        Value::StrValue(s) => if s@.len() > 0 {
            Some(s@[0])
        } else {
            None
        },
        _ => None,
    }
}

/// The character that `value` names as the end of what `parse` reads.
fn end_char_of<T, E>(value: &Value<T>) -> (r: Result<char, VmErrorReason<E>>)
    ensures
        match end_char(*value) {
            Some(c) => r == Ok::<char, VmErrorReason<E>>(c),
            None => r is Err && mismatch(r->Err_0, "CHAR"@, value.spec_type_name()),
        },
{
    match value {
        Value::StrValue(s) => {
            if s.as_str().unicode_len() > 0 {
                Ok(s.as_str().get_char(0))
            } else {
                Err(VmErrorReason::TypeMismatchError(TypeMismatchError("CHAR", value.value_type_name())))
            }
        },
        _ => Err(VmErrorReason::TypeMismatchError(TypeMismatchError("CHAR", value.value_type_name()))),
    }
}

/// Whether `parse` may take the machine from `before` to `after` and hand
/// back `r`.
pub open spec fn parse_does<T, E, R, P>(
    before: Vm<T, E, R, P>,
    after: Vm<T, E, R, P>,
    r: Result<(), VmErrorReason<E>>,
) -> bool {
    &&& kept(before, after, (Touched { data: true, input: true, ..untouched() }))
    &&& if before.data_stack@.len() == 0 {
        r == Err::<(), VmErrorReason<E>>(data_underflow()) && after.data_stack@.len() == 0
            && after.input == before.input
    } else {
        let rest = before.data_stack@.drop_last();
        match end_char(*before.data_stack@.last()) {
            Some(c) => {
                let scan = scan_run(before.input.reading().upcoming, Run::Until(c), true);
                &&& after.input.name() == before.input.name()
                &&& after.input.reading() == advanced(
                    before.input.reading(),
                    scan.looked,
                    scan.taken,
                )
                &&& match scan.value {
                    Ok(text) => r is Ok && after.data_stack@.len() == rest.len() + 1
                        && after.data_stack@.drop_last() == rest && (*after.data_stack@.last() matches Value::StrValue(t) && t@ == text),
                    Err(e) => after.data_stack@ == rest && (
                    r matches Err(VmErrorReason::TokenError(f)) && f.2@
                        == crate::lang::tokenizer::Failure::Io(e)),
                }
            },
            None => r is Err && mismatch(
                r->Err_0,
                "CHAR"@,
                before.data_stack@.last().spec_type_name(),
            ) && after.data_stack@ == rest && after.input == before.input,
        }
    }
}

/// `parse`: takes a string off the data stack and reads the script up to
/// the first character of the string; what was read before that character
/// is put on the data stack.
pub fn parse<T, E, R, P>(vm: &mut Vm<T, E, R, P>) -> (r: Result<(), VmErrorReason<E>>)
    ensures
        parse_does(*old(vm), *final(vm), r),
{
    let top = match pop_one(vm) {
        Ok(v) => v,
        Err(e) => {
            return Err(e);
        },
    };
    let c: char = match end_char_of(&*top) {
        Ok(c) => c,
        Err(e) => {
            return Err(e);
        },
    };
    let ghost rest = vm.data_stack@;
    let skiped = match vm.input.skip(c) {
        Ok(s) => s,
        Err(e) => {
            return Err(VmErrorReason::TokenError(e));
        },
    };
    vm.data_stack.push(Rc::new(Value::StrValue(skiped)));
    assert(vm.data_stack@.drop_last() =~= rest);
    Ok(())
}

/// Whether `parse-name` may take the machine from `before` to `after` and hand
/// back `r`.
pub open spec fn parse_name_does<T, E, R, P>(
    before: Vm<T, E, R, P>,
    after: Vm<T, E, R, P>,
    r: Result<(), VmErrorReason<E>>,
) -> bool {
    &&& named_word(
        before,
        after,
        r,
        |read: Vm<T, E, R, P>, name: String, after: Vm<T, E, R, P>, res: Result<
            (),
            VmErrorReason<E>,
        >|
            res is Ok && kept(read, after, (Touched { data: true, ..untouched() }))
                && after.data_stack@.len() == read.data_stack@.len() + 1
                && after.data_stack@.drop_last() == read.data_stack@
                && *after.data_stack@.last() == Value::<T>::StrValue(name),
    )
}

/// `parse-name`: puts the name that follows on the data stack, as a
/// string.
pub fn parse_name<T, E, R, P>(vm: &mut Vm<T, E, R, P>) -> (r: Result<(), VmErrorReason<E>>)
    ensures
        parse_name_does(*old(vm), *final(vm), r),
{
    let name = match call_with_name(vm) {
        Ok(n) => n,
        Err(e) => {
            return Err(e);
        },
    };
    let ghost rest = vm.data_stack@;
    vm.data_stack.push(Rc::new(Value::StrValue(name)));
    assert(vm.data_stack@.drop_last() =~= rest);
    Ok(())
}

/// Whether a word that takes a value off the data stack and appends an
/// instruction to the code buffer may take the machine from `before` to
/// `after` and hand back `r`, where `made(value)` is the instruction, or
/// the kind of value that was needed where the value is of another kind.
pub open spec fn compiling_word<T, E, R, P>(
    before: Vm<T, E, R, P>,
    after: Vm<T, E, R, P>,
    r: Result<(), VmErrorReason<E>>,
    made: spec_fn(Rc<Value<T>>) -> Result<Instruction<T, P>, Seq<char>>,
) -> bool {
    &&& kept(before, after, (Touched { data: true, code: true, ..untouched() }))
    &&& if before.data_stack@.len() == 0 {
        r == Err::<(), VmErrorReason<E>>(data_underflow()) && after.data_stack@.len() == 0
            && after.code_buffer@ == before.code_buffer@
    } else {
        after.data_stack@ == before.data_stack@.drop_last() && match made(
            before.data_stack@.last(),
        ) {
            Ok(inst) => r is Ok && after.code_buffer@ == before.code_buffer@.push(inst),
            Err(expected) => r is Err && mismatch(
                r->Err_0,
                expected,
                before.data_stack@.last().spec_type_name(),
            ) && after.code_buffer@ == before.code_buffer@,
        }
    }
}

/// The instruction that a word makes of the code address `value`.
pub open spec fn of_code_address<T, P>(
    value: Rc<Value<T>>,
    made: spec_fn(CodeAddress) -> Instruction<T, P>,
) -> Result<Instruction<T, P>, Seq<char>> {
    match *value {
        Value::CodeAddress(a) => Ok(made(a)),
        _ => Err("CODE_ADDRESS"@),
    }
}

/// Whether `literal` may take the machine from `before` to `after` and hand
/// back `r`.
pub open spec fn literal_does<T, E, R, P: Copy>(
    before: Vm<T, E, R, P>,
    after: Vm<T, E, R, P>,
    r: Result<(), VmErrorReason<E>>,
) -> bool {
    &&& compiling_word(
        before,
        after,
        r,
        |v: Rc<Value<T>>| Ok::<Instruction<T, P>, Seq<char>>(Instruction::Push(v)),
    )
}

/// `literal`: compiles the push of the value on top of the data stack.
pub fn literal<T, E, R, P: Copy>(vm: &mut Vm<T, E, R, P>) -> (r: Result<(), VmErrorReason<E>>)
    ensures
        literal_does(*old(vm), *final(vm), r),
{
    let top = match pop_one(vm) {
        Ok(v) => v,
        Err(e) => {
            return Err(e);
        },
    };
    vm.code_buffer.push(compile_push_value(top));
    Ok(())
}

/// Whether `compile,` may take the machine from `before` to `after` and hand
/// back `r`.
pub open spec fn compile_does<T, E, R, P: Copy>(
    before: Vm<T, E, R, P>,
    after: Vm<T, E, R, P>,
    r: Result<(), VmErrorReason<E>>,
) -> bool {
    &&& compiling_word(
        before,
        after,
        r,
        |v: Rc<Value<T>>| of_code_address(v, |a: CodeAddress| Instruction::<T, P>::Call(a)),
    )
}

/// `compile,`: compiles a call of the word at the address on top of the
/// data stack.
pub fn compile<T, E, R, P: Copy>(vm: &mut Vm<T, E, R, P>) -> (r: Result<(), VmErrorReason<E>>)
    ensures
        compile_does(*old(vm), *final(vm), r),
{
    let top = match pop_one(vm) {
        Ok(v) => v,
        Err(e) => {
            return Err(e);
        },
    };
    let callee: CodeAddress = match code_address_of(&*top) {
        Ok(c) => c,
        Err(e) => {
            return Err(e);
        },
    };
    vm.code_buffer.push(compile_call_code_address(callee));
    Ok(())
}

/// Whether `__jump__` may take the machine from `before` to `after` and hand
/// back `r`.
pub open spec fn jump_does<T, E, R, P: Copy>(
    before: Vm<T, E, R, P>,
    after: Vm<T, E, R, P>,
    r: Result<(), VmErrorReason<E>>,
) -> bool {
    &&& compiling_word(
        before,
        after,
        r,
        |v: Rc<Value<T>>| of_code_address(v, |a: CodeAddress| Instruction::<T, P>::Jump(a)),
    )
}

/// `__jump__`: compiles a jump to the address on top of the data stack.
pub fn jump<T, E, R, P: Copy>(vm: &mut Vm<T, E, R, P>) -> (r: Result<(), VmErrorReason<E>>)
    ensures
        jump_does(*old(vm), *final(vm), r),
{
    let top = match pop_one(vm) {
        Ok(v) => v,
        Err(e) => {
            return Err(e);
        },
    };
    let adr: CodeAddress = match code_address_of(&*top) {
        Ok(c) => c,
        Err(e) => {
            return Err(e);
        },
    };
    vm.code_buffer.push(Instruction::Jump(adr));
    Ok(())
}

/// Whether `__branch__` may take the machine from `before` to `after` and hand
/// back `r`.
pub open spec fn branch_does<T, E, R, P: Copy>(
    before: Vm<T, E, R, P>,
    after: Vm<T, E, R, P>,
    r: Result<(), VmErrorReason<E>>,
) -> bool {
    &&& compiling_word(
        before,
        after,
        r,
        |v: Rc<Value<T>>| of_code_address(v, |a: CodeAddress| Instruction::<T, P>::Branch(a)),
    )
}

/// `__branch__`: compiles a branch to the address on top of the data
/// stack.
pub fn branch<T, E, R, P: Copy>(vm: &mut Vm<T, E, R, P>) -> (r: Result<(), VmErrorReason<E>>)
    ensures
        branch_does(*old(vm), *final(vm), r),
{
    let top = match pop_one(vm) {
        Ok(v) => v,
        Err(e) => {
            return Err(e);
        },
    };
    let adr: CodeAddress = match code_address_of(&*top) {
        Ok(c) => c,
        Err(e) => {
            return Err(e);
        },
    };
    vm.code_buffer.push(Instruction::Branch(adr));
    Ok(())
}

/// Appends `inst` to the code buffer.
fn emit<T, E, R, P: Copy>(vm: &mut Vm<T, E, R, P>, inst: Instruction<T, P>) -> (r: Result<
    (),
    VmErrorReason<E>,
>)
    ensures
        r is Ok,
        kept(*old(vm), *final(vm), (Touched { code: true, ..untouched() })),
        final(vm).code_buffer@ == old(vm).code_buffer@.push(inst),
{
    vm.code_buffer.push(inst);
    Ok(())
}

/// Whether `__dummy_instruction__` may take the machine from `before` to `after` and hand
/// back `r`.
pub open spec fn trap_dummy_instruction_execution_does<T, E, R, P: Copy>(
    before: Vm<T, E, R, P>,
    after: Vm<T, E, R, P>,
    r: Result<(), VmErrorReason<E>>,
) -> bool {
    &&& r is Ok
    &&& kept(before, after, (Touched { code: true, ..untouched() }))
    &&& after.code_buffer@ == before.code_buffer@.push(
        Instruction::Trap(TrapReason::DummyInstructionExecution),
    )
}

/// `__dummy_instruction__`: compiles the trap that holds the place of an
/// instruction still to be compiled.
pub fn trap_dummy_instruction_execution<T, E, R, P: Copy>(vm: &mut Vm<T, E, R, P>) -> (r: Result<
    (),
    VmErrorReason<E>,
>)
    ensures
        trap_dummy_instruction_execution_does(*old(vm), *final(vm), r),
{
    emit(vm, Instruction::Trap(TrapReason::DummyInstructionExecution))
}

/// Whether `__user_trap__` may take the machine from `before` to `after` and hand
/// back `r`.
pub open spec fn trap_user_trap_does<T, E, R, P: Copy>(
    before: Vm<T, E, R, P>,
    after: Vm<T, E, R, P>,
    r: Result<(), VmErrorReason<E>>,
) -> bool {
    &&& r is Ok
    &&& kept(before, after, (Touched { code: true, ..untouched() }))
    &&& after.code_buffer@ == before.code_buffer@.push(
        Instruction::Trap(TrapReason::UserTrap),
    )
}

/// `__user_trap__`: compiles the trap that a program asks for.
pub fn trap_user_trap<T, E, R, P: Copy>(vm: &mut Vm<T, E, R, P>) -> (r: Result<(), VmErrorReason<E>>)
    ensures
        trap_user_trap_does(*old(vm), *final(vm), r),
{
    emit(vm, Instruction::Trap(TrapReason::UserTrap))
}

/// Whether `__exec__` may take the machine from `before` to `after` and hand
/// back `r`.
pub open spec fn exec_does<T, E, R, P: Copy>(
    before: Vm<T, E, R, P>,
    after: Vm<T, E, R, P>,
    r: Result<(), VmErrorReason<E>>,
) -> bool {
    &&& r is Ok
    &&& kept(before, after, (Touched { code: true, ..untouched() }))
    &&& after.code_buffer@ == before.code_buffer@.push(Instruction::Exec)
}

/// `__exec__`: compiles the instruction that runs what is on top of the
/// data stack.
pub fn exec<T, E, R, P: Copy>(vm: &mut Vm<T, E, R, P>) -> (r: Result<(), VmErrorReason<E>>)
    ensures
        exec_does(*old(vm), *final(vm), r),
{
    emit(vm, Instruction::Exec)
}

/// Whether `__return__` may take the machine from `before` to `after` and hand
/// back `r`.
pub open spec fn ret_does<T, E, R, P: Copy>(
    before: Vm<T, E, R, P>,
    after: Vm<T, E, R, P>,
    r: Result<(), VmErrorReason<E>>,
) -> bool {
    &&& r is Ok
    &&& kept(before, after, (Touched { code: true, ..untouched() }))
    &&& after.code_buffer@ == before.code_buffer@.push(Instruction::Return)
}

/// `__return__`: compiles a return.
pub fn ret<T, E, R, P: Copy>(vm: &mut Vm<T, E, R, P>) -> (r: Result<(), VmErrorReason<E>>)
    ensures
        ret_does(*old(vm), *final(vm), r),
{
    emit(vm, Instruction::Return)
}

/// Whether `cdp` may take the machine from `before` to `after` and hand
/// back `r`.
pub open spec fn cdp_does<T, E, R, P: Copy>(
    before: Vm<T, E, R, P>,
    after: Vm<T, E, R, P>,
    r: Result<(), VmErrorReason<E>>,
) -> bool {
    &&& r is Ok
    &&& kept(before, after, (Touched { data: true, ..untouched() }))
    &&& after.data_stack@.len() == before.data_stack@.len() + 1
    &&& after.data_stack@.drop_last() == before.data_stack@
    &&& *after.data_stack@.last() == Value::<T>::CodeAddress(
        CodeAddress(Address::Entity(before.code_buffer@.len() as usize)),
    )
}

/// `cdp`: puts the address of the end of the code buffer on the data
/// stack.
pub fn cdp<T, E, R, P: Copy>(vm: &mut Vm<T, E, R, P>) -> (r: Result<(), VmErrorReason<E>>)
    ensures
        cdp_does(*old(vm), *final(vm), r),
{
    let here = vm.code_buffer.here();
    vm.data_stack.push(Rc::new(Value::CodeAddress(here)));
    assert(vm.data_stack@.drop_last() =~= old(vm).data_stack@);
    Ok(())
}

/// What `[compile]` does with the name that it has read: a call of the
/// completed word of that name is compiled.
pub open spec fn call_compiled<T, E, R, P>(
    read: Vm<T, E, R, P>,
    name: String,
    after: Vm<T, E, R, P>,
    r: Result<(), VmErrorReason<E>>,
) -> bool {
    &&& kept(read, after, (Touched { code: true, ..untouched() }))
    &&& if read.word_dictionary.committed().contains_key(name@) {
        r is Ok && after.code_buffer@ == read.code_buffer@.push(
            Instruction::Call(read.word_dictionary.committed()[name@].code),
        )
    } else {
        r == Err::<(), VmErrorReason<E>>(
            VmErrorReason::WordError(WordErrorReason::UndefinedWord(name)),
        ) && after.code_buffer@ == read.code_buffer@
    }
}

/// Whether `[compile]` may take the machine from `before` to `after` and hand
/// back `r`.
pub open spec fn compile_immidiate_does<T, E, R, P: Copy>(
    before: Vm<T, E, R, P>,
    after: Vm<T, E, R, P>,
    r: Result<(), VmErrorReason<E>>,
) -> bool {
    &&& named_word(
        before,
        after,
        r,
        |read: Vm<T, E, R, P>, name: String, after: Vm<T, E, R, P>, res: Result<
            (),
            VmErrorReason<E>,
        >| call_compiled(read, name, after, res),
    )
}

/// `[compile]`: compiles a call of the word whose name follows.
pub fn compile_immidiate<T, E, R, P: Copy>(vm: &mut Vm<T, E, R, P>) -> (r: Result<
    (),
    VmErrorReason<E>,
>)
    ensures
        compile_immidiate_does(*old(vm), *final(vm), r),
{
    let name = match call_with_name(vm) {
        Ok(n) => n,
        Err(e) => {
            return Err(e);
        },
    };
    let callee: CodeAddress = match vm.word_dictionary.find_word(&name) {
        Ok(w) => w.code(),
        Err(e) => {
            return Err(VmErrorReason::WordError(e));
        },
    };
    vm.code_buffer.push(compile_call_code_address(callee));
    Ok(())
}

/// Whether `document-word` may take the machine from `before` to `after` and hand
/// back `r`.
pub open spec fn document_word_does<T, E, R, P>(
    before: Vm<T, E, R, P>,
    after: Vm<T, E, R, P>,
    r: Result<(), VmErrorReason<E>>,
) -> bool {
    &&& kept(before, after, (Touched { data: true, words: true, ..untouched() }))
    &&& if before.data_stack@.len() == 0 {
        r == Err::<(), VmErrorReason<E>>(data_underflow()) && after.data_stack@.len() == 0
            && after.word_dictionary == before.word_dictionary
    } else {
        after.data_stack@ == before.data_stack@.drop_last() && match *before.data_stack@.last() {
            Value::StrValue(doc) => r is Ok && match before.word_dictionary.last_word() {
                Some(w) => before.word_dictionary.with_last_word(
                    &after.word_dictionary,
                    Word { document: doc, ..w },
                ),
                None => before.word_dictionary.same_words(&after.word_dictionary),
            },
            _ => r is Err && mismatch(
                r->Err_0,
                "STR"@,
                before.data_stack@.last().spec_type_name(),
            ) && after.word_dictionary == before.word_dictionary,
        }
    }
}

/// `document-word`: takes a string off the data stack and makes it the
/// documentation of the word defined last.
pub fn document_word<T, E, R, P>(vm: &mut Vm<T, E, R, P>) -> (r: Result<(), VmErrorReason<E>>)
    ensures
        document_word_does(*old(vm), *final(vm), r),
{
    let top = match pop_one(vm) {
        Ok(v) => v,
        Err(e) => {
            return Err(e);
        },
    };
    let got: Result<&String, TypeMismatchError> = ValueTryInto::<String>::try_into(&*top);
    let doc: String = match got {
        Ok(d) => d.clone(),
        Err(e) => {
            return Err(VmErrorReason::TypeMismatchError(e));
        },
    };
    vm.word_dictionary.last_word_set_document(doc);
    Ok(())
}

/// Whether `instruction-at` may take the machine from `before` to `after` and hand
/// back `r`.
pub open spec fn instruction_at_does<T, E, R, P: Copy>(
    before: Vm<T, E, R, P>,
    after: Vm<T, E, R, P>,
    r: Result<(), VmErrorReason<E>>,
) -> bool {
    &&& kept(before, after, (Touched { data: true, code: true, ..untouched() }))
    &&& if before.data_stack@.len() == 0 {
        r == Err::<(), VmErrorReason<E>>(data_underflow()) && after.data_stack@.len() == 0
            && after.code_buffer@ == before.code_buffer@
    } else {
        after.data_stack@ == before.data_stack@.drop_last() && match *before.data_stack@.last() {
            Value::CodeAddress(adr) => if before.code_buffer@.len() == 0 {
                r == Err::<(), VmErrorReason<E>>(
                    VmErrorReason::CodeBufferAccessError(
                        CodeBufferErrorReason::BufferAccessError(
                            BufferErrorReason::UnderflowAccessError,
                        ),
                    ),
                ) && after.code_buffer@ == before.code_buffer@
            } else if in_code((before.code_buffer@.len() - 1) as nat, adr) {
                r is Ok && after.code_buffer@ == before.code_buffer@.drop_last().update(
                    adr.0->Entity_0 as int,
                    before.code_buffer@.last(),
                )
            } else {
                r == Err::<(), VmErrorReason<E>>(
                    code_failure((before.code_buffer@.len() - 1) as nat, adr),
                ) && after.code_buffer@ == before.code_buffer@.drop_last()
            },
            _ => r is Err && mismatch(
                r->Err_0,
                "CODE_ADDRESS"@,
                before.data_stack@.last().spec_type_name(),
            ) && after.code_buffer@ == before.code_buffer@,
        }
    }
}

/// `instruction-at`: takes an address off the data stack and moves the
/// last instruction of the code buffer to the place that the address
/// designates.
pub fn instruction_at<T, E, R, P: Copy>(vm: &mut Vm<T, E, R, P>) -> (r: Result<(), VmErrorReason<E>>)
    ensures
        instruction_at_does(*old(vm), *final(vm), r),
{
    let top = match pop_one(vm) {
        Ok(v) => v,
        Err(e) => {
            return Err(e);
        },
    };
    let adr: CodeAddress = match code_address_of(&*top) {
        Ok(c) => c,
        Err(e) => {
            return Err(e);
        },
    };
    let inst = match vm.code_buffer.pop() {
        Ok(i) => i,
        Err(e) => {
            return Err(VmErrorReason::CodeBufferAccessError(e));
        },
    };
    match vm.code_buffer.set(adr, inst) {
        Ok(_) => Ok(()),
        Err(e) => Err(VmErrorReason::CodeBufferAccessError(e)),
    }
}

/// What `postpone` does with the name that it has read. Of an immediate
/// word a call is compiled. Of any other word the compilation of a call is
/// compiled: the push of the address of its body, and a call of the
/// primitive that compiles a call of the address on top of the data stack.
pub open spec fn postponed<T, E, R, P>(
    read: Vm<T, E, R, P>,
    name: String,
    after: Vm<T, E, R, P>,
    r: Result<(), VmErrorReason<E>>,
) -> bool {
    &&& kept(read, after, (Touched { code: true, ..untouched() }))
    &&& if read.word_dictionary.committed().contains_key(name@) {
        let w = read.word_dictionary.committed()[name@];
        r is Ok && if w.immediate {
            after.code_buffer@ == read.code_buffer@.push(Instruction::Call(w.code))
        } else {
            after.code_buffer@.len() == read.code_buffer@.len() + 2 && after.code_buffer@.take(
                read.code_buffer@.len() as int,
            ) == read.code_buffer@ && (after.code_buffer@[read.code_buffer@.len() as int] matches Instruction::Push(
                v,
            ) && *v == Value::<T>::CodeAddress(w.code)) && after.code_buffer@[read.code_buffer@.len() as int
                + 1] is CallPrimitive
        }
    } else {
        r == Err::<(), VmErrorReason<E>>(
            VmErrorReason::WordError(WordErrorReason::UndefinedWord(name)),
        ) && after.code_buffer@ == read.code_buffer@
    }
}

/// Whether `postpone` may take the machine from `before` to `after` and hand
/// back `r`.
pub open spec fn postpone_does<T, E, R, P: Copy + From<Builtin>>(
    before: Vm<T, E, R, P>,
    after: Vm<T, E, R, P>,
    r: Result<(), VmErrorReason<E>>,
) -> bool {
    &&& named_word(
        before,
        after,
        r,
        |read: Vm<T, E, R, P>, name: String, after: Vm<T, E, R, P>, res: Result<
            (),
            VmErrorReason<E>,
        >| postponed(read, name, after, res),
    )
}

/// `postpone`: compiles what the word whose name follows does when a
/// definition is compiled.
pub fn postpone<T, E, R, P: Copy + From<Builtin>>(vm: &mut Vm<T, E, R, P>) -> (r: Result<
    (),
    VmErrorReason<E>,
>)
    ensures
        postpone_does(*old(vm), *final(vm), r),
{
    let name = match call_with_name(vm) {
        Ok(n) => n,
        Err(e) => {
            return Err(e);
        },
    };
    let ghost read = *vm;
    let (callee, immediate): (CodeAddress, bool) = match vm.word_dictionary.find_word(&name) {
        Ok(w) => (w.code(), w.is_immediate()),
        Err(e) => {
            return Err(VmErrorReason::WordError(e));
        },
    };
    if immediate {
        vm.code_buffer.push(compile_call_code_address(callee));
    } else {
        vm.code_buffer.push(compile_push_value(Rc::new(Value::CodeAddress(callee))));
        vm.code_buffer.push(compile_call_primitive(P::from(Builtin::Compile)));
        assert(vm.code_buffer@.take(read.code_buffer@.len() as int) =~= read.code_buffer@);
    }
    Ok(())
}

} // verus!
