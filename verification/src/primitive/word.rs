//! The words that define words.

use super::data::code_failure;
use super::data::in_code;
use super::data::make_word;
use super::data::word_made;
use super::util::call_with_name;
use super::util::kept;
use super::util::mismatch;
use super::util::named_word;
use super::util::pop_one;
use super::util::untouched;
use super::util::Touched;
use super::Builtin;
use crate::lang::value::Address;
use crate::lang::value::CodeAddress;
use crate::lang::value::DataAddress;
use crate::lang::value::DebugLabel;
use crate::lang::value::Instruction;
use crate::lang::value::TrapReason;
use crate::lang::value::TypeMismatchError;
use crate::lang::value::Value;
use crate::lang::value::ValueTryInto;
use crate::lang::vm::compile::compile_call_code_address;
use crate::lang::vm::compile::compile_dummy_instruction;
use crate::lang::vm::compile::compile_push_value;
use crate::lang::vm::compile::compile_return;
use crate::lang::vm::compile::compile_word_terminator;
use crate::lang::vm::data_underflow;
use crate::lang::vm::bodies_added;
use crate::lang::vm::one_more_body;
use crate::lang::vm::Vm;
use crate::lang::vm::VmErrorReason;
use crate::lang::vm::VmState;
use crate::lang::word::Word;
use crate::lang::word::WordErrorReason;
use std::rc::Rc;
use vstd::prelude::*;

verus! {

/// Defines the words of this file.
pub fn initialize<T, E, R, P: Copy + From<Builtin>>(vm: &mut Vm<T, E, R, P>)
    ensures
        bodies_added(old(vm).code_buffer@, final(vm).code_buffer@, 11),
        final(vm).word_dictionary.committed().contains_key(":"@),
        final(vm).word_dictionary.committed().contains_key(":noname"@),
        final(vm).word_dictionary.committed().contains_key(":recursive"@),
        final(vm).word_dictionary.committed().contains_key(";"@),
        final(vm).word_dictionary.committed().contains_key("immidiate"@),
        final(vm).word_dictionary.committed().contains_key("defer"@),
        final(vm).word_dictionary.committed().contains_key("'"@),
        final(vm).word_dictionary.committed().contains_key("[']"@),
        final(vm).word_dictionary.committed().contains_key("is"@),
        final(vm).word_dictionary.committed().contains_key("create"@),
        final(vm).word_dictionary.committed().contains_key("recurse"@),
        final(vm).machine() == old(vm).machine(),
        final(vm).state == old(vm).state,
        forall|n: Seq<char>|
            old(vm).word_dictionary.committed().contains_key(n) ==> #[trigger] final(
                vm
            ).word_dictionary.committed().contains_key(n),
{
    let ghost start = vm.code_buffer@;
    assert(start.take(start.len() as int) =~= start);
    let ghost code = vm.code_buffer@;
    let f = P::from(Builtin::Colon);
    vm.define_primitive_word(
        ":".to_owned(),
        false,
        "\"word name\" -- ; define word".to_owned(),
        f,
    );
    proof {
        one_more_body(start, code, f, 0);
    }
    let ghost code = vm.code_buffer@;
    let f = P::from(Builtin::Noname);
    vm.define_primitive_word(
        ":noname".to_owned(),
        false,
        " -- ; define anonimous word".to_owned(),
        f,
    );
    proof {
        one_more_body(start, code, f, 1);
    }
    let ghost code = vm.code_buffer@;
    let f = P::from(Builtin::Recursive);
    vm.define_primitive_word(
        ":recursive".to_owned(),
        false,
        "\"word name\" -- ; define recursible word".to_owned(),
        f,
    );
    proof {
        one_more_body(start, code, f, 2);
    }
    let ghost code = vm.code_buffer@;
    let f = P::from(Builtin::Semicolon);
    vm.define_primitive_word(
        ";".to_owned(),
        true,
        " -- ; word definition terminator".to_owned(),
        f,
    );
    proof {
        one_more_body(start, code, f, 3);
    }
    let ghost code = vm.code_buffer@;
    let f = P::from(Builtin::Immidiate);
    vm.define_primitive_word(
        "immidiate".to_owned(),
        false,
        " -- ; change to immidiate word".to_owned(),
        f,
    );
    proof {
        one_more_body(start, code, f, 4);
    }
    let ghost code = vm.code_buffer@;
    let f = P::from(Builtin::Defer);
    vm.define_primitive_word(
        "defer".to_owned(),
        false,
        "\"word name\" -- ; defer word".to_owned(),
        f,
    );
    proof {
        one_more_body(start, code, f, 5);
    }
    let ghost code = vm.code_buffer@;
    let f = P::from(Builtin::Tick);
    vm.define_primitive_word(
        "'".to_owned(),
        false,
        "\"word name\" -- xt; push execution token".to_owned(),
        f,
    );
    proof {
        one_more_body(start, code, f, 6);
    }
    let ghost code = vm.code_buffer@;
    let f = P::from(Builtin::Tick);
    vm.define_primitive_word(
        "[']".to_owned(),
        true,
        "\"word name\" -- xt; push execution token".to_owned(),
        f,
    );
    proof {
        one_more_body(start, code, f, 7);
    }
    let ghost code = vm.code_buffer@;
    let f = P::from(Builtin::Is);
    vm.define_primitive_word(
        "is".to_owned(),
        false,
        "xt \"word name\" -- ; set execution token to defer word".to_owned(),
        f,
    );
    proof {
        one_more_body(start, code, f, 8);
    }
    let ghost code = vm.code_buffer@;
    let f = P::from(Builtin::Create);
    vm.define_primitive_word(
        "create".to_owned(),
        false,
        "\"word name\" -- ; create with data buffer".to_owned(),
        f,
    );
    proof {
        one_more_body(start, code, f, 9);
    }
    let ghost code = vm.code_buffer@;
    let f = P::from(Builtin::Recurse);
    vm.define_primitive_word(
        "recurse".to_owned(),
        true,
        " -- ; recursive call".to_owned(),
        f,
    );
    proof {
        one_more_body(start, code, f, 10);
    }
}

/// The text of the script that defines the words which are made of the
/// words of this file.
pub const PRELOAD_SCRIPT: &'static str = r#"

"#;

/// The script that defines the words which are made of the words of this
/// file.
pub fn preload_script() -> (r: &'static str)
    ensures
        r == PRELOAD_SCRIPT,
{
    PRELOAD_SCRIPT
}

/// What `:` and `:recursive` do with the name that they have read: the
/// name is reserved for a word that starts at the end of the code buffer,
/// and the tokens that follow are compiled.
pub open spec fn definition_started<T, E, R, P>(
    read: Vm<T, E, R, P>,
    name: String,
    after: Vm<T, E, R, P>,
    r: Result<(), VmErrorReason<E>>,
    state: VmState,
) -> bool {
    &&& r is Ok
    &&& kept(read, after, (Touched { state: true, words: true, ..untouched() }))
    &&& after.state == state
    &&& after.word_dictionary.reserved_name() == Some(name@)
    &&& after.word_dictionary.reserved_word() is Some
    &&& after.word_dictionary.reserved_word()->0.code == CodeAddress(
        Address::Entity(read.code_buffer@.len() as usize),
    )
    &&& !after.word_dictionary.reserved_word()->0.immediate
    &&& after.word_dictionary.reserved_word()->0.document@.len() == 0
    &&& after.word_dictionary.committed() == read.word_dictionary.committed()
    &&& after.word_dictionary.names_by_code() == read.word_dictionary.names_by_code()
}

/// Starts the definition of the word whose name follows.
fn start_definition<T, E, R, P: Copy>(vm: &mut Vm<T, E, R, P>, state: VmState) -> (r: Result<
    (),
    VmErrorReason<E>,
>)
    ensures
        named_word(
            *old(vm),
            *final(vm),
            r,
            |read: Vm<T, E, R, P>, name: String, after: Vm<T, E, R, P>, res: Result<
                (),
                VmErrorReason<E>,
            >| definition_started(read, name, after, res, state),
        ),
{
    let name = match call_with_name(vm) {
        Ok(n) => n,
        Err(e) => {
            return Err(e);
        },
    };
    let here = vm.code_buffer.here();
    vm.word_dictionary.reserve_word_def(name, Word::new(here));
    vm.state = state;
    Ok(())
}

/// Whether `:` may take the machine from `before` to `after` and hand
/// back `r`.
pub open spec fn colon_does<T, E, R, P: Copy>(
    before: Vm<T, E, R, P>,
    after: Vm<T, E, R, P>,
    r: Result<(), VmErrorReason<E>>,
) -> bool {
    &&& named_word(
        before,
        after,
        r,
        |read: Vm<T, E, R, P>, name: String, after: Vm<T, E, R, P>, res: Result<
            (),
            VmErrorReason<E>,
        >| definition_started(read, name, after, res, VmState::Compilation),
    )
}

/// `:`: starts the definition of the word whose name follows.
pub fn colon<T, E, R, P: Copy>(vm: &mut Vm<T, E, R, P>) -> (r: Result<(), VmErrorReason<E>>)
    ensures
        colon_does(*old(vm), *final(vm), r),
{
    start_definition(vm, VmState::Compilation)
}

/// Whether `:recursive` may take the machine from `before` to `after` and hand
/// back `r`.
pub open spec fn recursive_does<T, E, R, P: Copy>(
    before: Vm<T, E, R, P>,
    after: Vm<T, E, R, P>,
    r: Result<(), VmErrorReason<E>>,
) -> bool {
    &&& named_word(
        before,
        after,
        r,
        |read: Vm<T, E, R, P>, name: String, after: Vm<T, E, R, P>, res: Result<
            (),
            VmErrorReason<E>,
        >| definition_started(read, name, after, res, VmState::RecursableCompilation),
    )
}

/// `:recursive`: starts the definition of the word whose name follows;
/// the word may call itself by its name.
pub fn recursive<T, E, R, P: Copy>(vm: &mut Vm<T, E, R, P>) -> (r: Result<(), VmErrorReason<E>>)
    ensures
        recursive_does(*old(vm), *final(vm), r),
{
    start_definition(vm, VmState::RecursableCompilation)
}

/// Whether `:noname` may take the machine from `before` to `after` and hand
/// back `r`.
pub open spec fn noname_does<T, E, R, P: Copy>(
    before: Vm<T, E, R, P>,
    after: Vm<T, E, R, P>,
    r: Result<(), VmErrorReason<E>>,
) -> bool {
    &&& r is Ok
    &&& kept(before, after, (Touched { state: true, data: true, ..untouched() }))
    &&& after.state == VmState::Compilation
    &&& after.data_stack@.len() == before.data_stack@.len() + 1
    &&& after.data_stack@.drop_last() == before.data_stack@
    &&& *after.data_stack@.last() == Value::<T>::CodeAddress(
        CodeAddress(Address::Entity(before.code_buffer@.len() as usize)),
    )
}

/// `:noname`: starts the definition of a word without a name; the address
/// of its body is put on the data stack.
pub fn noname<T, E, R, P: Copy>(vm: &mut Vm<T, E, R, P>) -> (r: Result<(), VmErrorReason<E>>)
    ensures
        noname_does(*old(vm), *final(vm), r),
{
    let here = vm.code_buffer.here();
    vm.data_stack.push(Rc::new(Value::CodeAddress(here)));
    vm.state = VmState::Compilation;
    assert(vm.data_stack@.drop_last() =~= old(vm).data_stack@);
    Ok(())
}

/// Whether `;` may take the machine from `before` to `after` and hand
/// back `r`.
pub open spec fn semicolon_does<T, E, R, P: Copy>(
    before: Vm<T, E, R, P>,
    after: Vm<T, E, R, P>,
    r: Result<(), VmErrorReason<E>>,
) -> bool {
    &&& kept(before, after, (Touched { state: true, words: true, code: true, ..untouched() }))
    &&& after.code_buffer@ == before.code_buffer@.push(Instruction::Return).push(
        Instruction::DebugLabel(DebugLabel::WordTerminator),
    )
    &&& after.word_dictionary.reserved_name() == before.word_dictionary.reserved_name()
    &&& after.word_dictionary.reserved_word() is None
    &&& if before.word_dictionary.reserved_word() is Some && before.word_dictionary.reserved_name() is Some {
        r is Ok && after.state == VmState::Interpretation && after.word_dictionary.committed() == before.word_dictionary.committed().insert(
            before.word_dictionary.reserved_name()->0,
            before.word_dictionary.reserved_word()->0,
        ) && after.word_dictionary.names_by_code() == before.word_dictionary.names_by_code().insert(
            before.word_dictionary.reserved_word()->0.code,
            before.word_dictionary.reserved_name()->0,
        )
    } else {
        r is Err && (r->Err_0 matches VmErrorReason::WordError(
            WordErrorReason::CompleteWordInUnreserved,
        )) && after.state == before.state && after.word_dictionary.committed() == before.word_dictionary.committed() && after.word_dictionary.names_by_code() == before.word_dictionary.names_by_code()
    }
}

/// `;`: ends the definition of a word: a return and the mark that ends a
/// word are appended to the code buffer, the reserved word is completed,
/// and the tokens that follow are interpreted. Where no word is reserved,
/// the word fails behind the two instructions.
pub fn semicolon<T, E, R, P: Copy>(vm: &mut Vm<T, E, R, P>) -> (r: Result<(), VmErrorReason<E>>)
    ensures
        semicolon_does(*old(vm), *final(vm), r),
{
    vm.code_buffer.push(compile_return());
    vm.code_buffer.push(compile_word_terminator());
    match vm.word_dictionary.complate_word_def() {
        Ok(_) => {},
        Err(e) => {
            return Err(VmErrorReason::WordError(e));
        },
    }
    vm.state = VmState::Interpretation;
    Ok(())
}

/// Whether `immidiate` may take the machine from `before` to `after` and hand
/// back `r`.
pub open spec fn immidiate_does<T, E, R, P>(
    before: Vm<T, E, R, P>,
    after: Vm<T, E, R, P>,
    r: Result<(), VmErrorReason<E>>,
) -> bool {
    &&& r is Ok
    &&& kept(before, after, (Touched { words: true, ..untouched() }))
    &&& match before.word_dictionary.last_word() {
        Some(w) => before.word_dictionary.with_last_word(
            &after.word_dictionary,
            Word { immediate: true, ..w },
        ),
        None => before.word_dictionary.same_words(&after.word_dictionary),
    }
}

/// `immidiate`: makes the word defined last immediate.
pub fn immidiate<T, E, R, P>(vm: &mut Vm<T, E, R, P>) -> (r: Result<(), VmErrorReason<E>>)
    ensures
        immidiate_does(*old(vm), *final(vm), r),
{
    vm.word_dictionary.last_word_change_immidiate();
    Ok(())
}

/// Whether `defer` may take the machine from `before` to `after` and hand
/// back `r`.
pub open spec fn defer_does<T, E, R, P: Copy>(
    before: Vm<T, E, R, P>,
    after: Vm<T, E, R, P>,
    r: Result<(), VmErrorReason<E>>,
) -> bool {
    &&& named_word(
        before,
        after,
        r,
        |read: Vm<T, E, R, P>, name: String, after: Vm<T, E, R, P>, res: Result<
            (),
            VmErrorReason<E>,
        >|
            res is Ok && word_made(
                read,
                name,
                Instruction::Trap(TrapReason::DummyInstructionExecution),
                after,
            ) && kept(read, after, (Touched { words: true, code: true, ..untouched() })),
    )
}

/// `defer`: makes the name that follows a word of which the body is still
/// to come: it traps when it is executed.
pub fn defer<T, E, R, P: Copy>(vm: &mut Vm<T, E, R, P>) -> (r: Result<(), VmErrorReason<E>>)
    ensures
        defer_does(*old(vm), *final(vm), r),
{
    let name = match call_with_name(vm) {
        Ok(n) => n,
        Err(e) => {
            return Err(e);
        },
    };
    make_word(vm, name, compile_dummy_instruction());
    Ok(())
}

/// What `'` does with the name that it has read: the address of the body
/// of the completed word of that name is put on the data stack.
pub open spec fn ticked<T, E, R, P>(
    read: Vm<T, E, R, P>,
    name: String,
    after: Vm<T, E, R, P>,
    r: Result<(), VmErrorReason<E>>,
) -> bool {
    &&& kept(read, after, (Touched { data: true, ..untouched() }))
    &&& if read.word_dictionary.committed().contains_key(name@) {
        r is Ok && after.data_stack@.len() == read.data_stack@.len() + 1
            && after.data_stack@.drop_last() == read.data_stack@ && *after.data_stack@.last()
            == Value::<T>::CodeAddress(read.word_dictionary.committed()[name@].code)
    } else {
        r == Err::<(), VmErrorReason<E>>(
            VmErrorReason::WordError(WordErrorReason::UndefinedWord(name)),
        ) && after.data_stack@ == read.data_stack@
    }
}

/// Whether `'` may take the machine from `before` to `after` and hand
/// back `r`.
pub open spec fn tick_does<T, E, R, P>(
    before: Vm<T, E, R, P>,
    after: Vm<T, E, R, P>,
    r: Result<(), VmErrorReason<E>>,
) -> bool {
    &&& named_word(
        before,
        after,
        r,
        |read: Vm<T, E, R, P>, name: String, after: Vm<T, E, R, P>, res: Result<
            (),
            VmErrorReason<E>,
        >| ticked(read, name, after, res),
    )
}

/// `'`: puts the address of the body of the word on the data stack whose
/// name follows.
pub fn tick<T, E, R, P>(vm: &mut Vm<T, E, R, P>) -> (r: Result<(), VmErrorReason<E>>)
    ensures
        tick_does(*old(vm), *final(vm), r),
{
    let name = match call_with_name(vm) {
        Ok(n) => n,
        Err(e) => {
            return Err(e);
        },
    };
    let adr: CodeAddress = match vm.word_dictionary.find_word(&name) {
        Ok(w) => w.code(),
        Err(e) => {
            return Err(VmErrorReason::WordError(e));
        },
    };
    vm.data_stack.push(Rc::new(Value::CodeAddress(adr)));
    assert(vm.data_stack@.drop_last() =~= old(vm).data_stack@);
    Ok(())
}

/// What `is` does with the name that it has read: the address on top of
/// the data stack is taken off, and the first instruction of the completed
/// word of that name becomes a call of it.
pub open spec fn redirected<T, E, R, P>(
    read: Vm<T, E, R, P>,
    name: String,
    after: Vm<T, E, R, P>,
    r: Result<(), VmErrorReason<E>>,
) -> bool {
    &&& kept(read, after, (Touched { data: true, code: true, ..untouched() }))
    &&& if !read.word_dictionary.committed().contains_key(name@) {
        r == Err::<(), VmErrorReason<E>>(
            VmErrorReason::WordError(WordErrorReason::UndefinedWord(name)),
        ) && after.data_stack@ == read.data_stack@ && after.code_buffer@ == read.code_buffer@
    } else if read.data_stack@.len() == 0 {
        r == Err::<(), VmErrorReason<E>>(data_underflow()) && after.data_stack@.len() == 0
            && after.code_buffer@ == read.code_buffer@
    } else {
        let adr = read.word_dictionary.committed()[name@].code;
        after.data_stack@ == read.data_stack@.drop_last() && match *read.data_stack@.last() {
            Value::CodeAddress(callee) => if in_code(read.code_buffer@.len(), adr) {
                r is Ok && after.code_buffer@ == read.code_buffer@.update(
                    adr.0->Entity_0 as int,
                    Instruction::Call(callee),
                )
            } else {
                r == Err::<(), VmErrorReason<E>>(code_failure(read.code_buffer@.len(), adr))
                    && after.code_buffer@ == read.code_buffer@
            },
            _ => r is Err && mismatch(
                r->Err_0,
                "CODE_ADDRESS"@,
                read.data_stack@.last().spec_type_name(),
            ) && after.code_buffer@ == read.code_buffer@,
        }
    }
}

/// The code address that `value` is.
pub fn code_address_of<T, E>(value: &Value<T>) -> (r: Result<CodeAddress, VmErrorReason<E>>)
    ensures
        match *value {
            Value::CodeAddress(a) => r == Ok::<CodeAddress, VmErrorReason<E>>(a),
            _ => r is Err && mismatch(r->Err_0, "CODE_ADDRESS"@, value.spec_type_name()),
        },
{
    let got: Result<&CodeAddress, TypeMismatchError> = ValueTryInto::<CodeAddress>::try_into(value);
    match got {
        Ok(v) => Ok(*v),
        Err(e) => Err(VmErrorReason::TypeMismatchError(e)),
    }
}

/// Whether `is` may take the machine from `before` to `after` and hand
/// back `r`.
pub open spec fn is_does<T, E, R, P: Copy>(
    before: Vm<T, E, R, P>,
    after: Vm<T, E, R, P>,
    r: Result<(), VmErrorReason<E>>,
) -> bool {
    &&& named_word(
        before,
        after,
        r,
        |read: Vm<T, E, R, P>, name: String, after: Vm<T, E, R, P>, res: Result<
            (),
            VmErrorReason<E>,
        >| redirected(read, name, after, res),
    )
}

/// `is`: makes the word whose name follows call the word at the address on
/// top of the data stack.
pub fn is<T, E, R, P: Copy>(vm: &mut Vm<T, E, R, P>) -> (r: Result<(), VmErrorReason<E>>)
    ensures
        is_does(*old(vm), *final(vm), r),
{
    let name = match call_with_name(vm) {
        Ok(n) => n,
        Err(e) => {
            return Err(e);
        },
    };
    let adr: CodeAddress = match vm.word_dictionary.find_word(&name) {
        Ok(w) => w.code(),
        Err(e) => {
            return Err(VmErrorReason::WordError(e));
        },
    };
    let top = match pop_one(vm) {
        Ok(v) => v,
        Err(e) => {
            return Err(e);
        },
    };
    let callee: CodeAddress = match code_address_of(&*top) {
        Ok(c) => c,
        Err(e) => {
            return Err(e);
        },
    };
    match vm.code_buffer.set(adr, compile_call_code_address(callee)) {
        Ok(_) => Ok(()),
        Err(e) => Err(VmErrorReason::CodeBufferAccessError(e)),
    }
}

/// Whether `create` may take the machine from `before` to `after` and hand
/// back `r`.
pub open spec fn create_does<T, E, R, P: Copy>(
    before: Vm<T, E, R, P>,
    after: Vm<T, E, R, P>,
    r: Result<(), VmErrorReason<E>>,
) -> bool {
    &&& named_word(
        before,
        after,
        r,
        |read: Vm<T, E, R, P>, name: String, after: Vm<T, E, R, P>, res: Result<
            (),
            VmErrorReason<E>,
        >|
            res is Ok && kept(
                read,
                after,
                (Touched { words: true, code: true, ..untouched() }),
            ) && exists|val: Rc<Value<T>>|
                *val == Value::<T>::DataAddress(
                    DataAddress(Address::Entity(read.data_buffer@.len() as usize)),
                ) && #[trigger] word_made(read, name, Instruction::Push(val), after),
    )
}

/// `create`: makes the name that follows a word that pushes the address of
/// the end of the data buffer.
pub fn create<T, E, R, P: Copy>(vm: &mut Vm<T, E, R, P>) -> (r: Result<(), VmErrorReason<E>>)
    ensures
        create_does(*old(vm), *final(vm), r),
{
    let name = match call_with_name(vm) {
        Ok(n) => n,
        Err(e) => {
            return Err(e);
        },
    };
    let data = vm.data_buffer.here();
    let val = Rc::new(Value::DataAddress(data));
    make_word(vm, name, compile_push_value(val));
    Ok(())
}

/// Whether `recurse` may take the machine from `before` to `after` and hand
/// back `r`.
pub open spec fn recurse_does<T, E, R, P: Copy>(
    before: Vm<T, E, R, P>,
    after: Vm<T, E, R, P>,
    r: Result<(), VmErrorReason<E>>,
) -> bool {
    &&& kept(before, after, (Touched { code: true, ..untouched() }))
    &&& match before.word_dictionary.last_word() {
        Some(w) => r is Ok && after.code_buffer@ == before.code_buffer@.push(
            Instruction::Call(w.code),
        ),
        None => r is Err && r->Err_0 is WordError && after.code_buffer@ == before.code_buffer@,
    }
}

/// `recurse`: compiles a call of the word defined last.
pub fn recurse<T, E, R, P: Copy>(vm: &mut Vm<T, E, R, P>) -> (r: Result<(), VmErrorReason<E>>)
    ensures
        recurse_does(*old(vm), *final(vm), r),
{
    let callee: CodeAddress = match vm.word_dictionary.find_last_word() {
        Ok(w) => w.code(),
        Err(e) => {
            return Err(VmErrorReason::WordError(e));
        },
    };
    vm.code_buffer.push(compile_call_code_address(callee));
    Ok(())
}

} // verus!
