//! The words that work on the data buffer.

use super::util::call_with_name;
use super::util::kept;
use super::util::mismatch;
use super::util::named_word;
use super::util::no_integer;
use super::util::pop_one;
use super::util::pop_pair;
use super::util::untouched;
use super::util::Touched;
use super::Builtin;
use crate::lang::mem::BufferErrorReason;
use crate::lang::mem::CodeBufferErrorReason;
use crate::lang::mem::DataBufferErrorReason;
use crate::lang::mem::EnvironmentStack;
use crate::lang::mem::EnvironmentStackErrorReason;
use crate::lang::value::Address;
use crate::lang::value::BufferAddressErrorReason;
use crate::lang::value::CodeAddress;
use crate::lang::value::DataAddress;
use crate::lang::value::DebugLabel;
use crate::lang::value::Instruction;
use crate::lang::value::TypeMismatchError;
use crate::lang::value::Value;
use crate::lang::vm::calls_underflow;
use crate::lang::vm::compile::compile_push_value;
use crate::lang::vm::compile::compile_return;
use crate::lang::vm::compile::compile_word_terminator;
use crate::lang::vm::data_underflow;
use crate::lang::vm::bodies_added;
use crate::lang::vm::one_more_body;
use crate::lang::vm::Vm;
use crate::lang::vm::VmErrorReason;
use crate::lang::word::Word;
use vstd::prelude::*;

verus! {

/// Defines the words of this file.
pub fn initialize<T, E, R, P: Copy + From<Builtin>>(vm: &mut Vm<T, E, R, P>)
    ensures
        bodies_added(old(vm).code_buffer@, final(vm).code_buffer@, 6),
        final(vm).word_dictionary.committed().contains_key("allot"@),
        final(vm).word_dictionary.committed().contains_key(","@),
        final(vm).word_dictionary.committed().contains_key("@"@),
        final(vm).word_dictionary.committed().contains_key("!"@),
        final(vm).word_dictionary.committed().contains_key("body>"@),
        final(vm).word_dictionary.committed().contains_key("constant"@),
        final(vm).machine() == old(vm).machine(),
        final(vm).state == old(vm).state,
        forall|n: Seq<char>|
            old(vm).word_dictionary.committed().contains_key(n) ==> #[trigger] final(
                vm
            ).word_dictionary.committed().contains_key(n),
{
    let ghost start = vm.code_buffer@;
    assert(start.take(start.len() as int) =~= start);
    let ghost code = vm.code_buffer@;
    let f = P::from(Builtin::Allot);
    vm.define_primitive_word(
        "allot".to_owned(),
        false,
        "size -- ; allocate data buffer space".to_owned(),
        f,
    );
    proof {
        one_more_body(start, code, f, 0);
    }
    let ghost code = vm.code_buffer@;
    let f = P::from(Builtin::CreateOneCell);
    vm.define_primitive_word(
        ",".to_owned(),
        false,
        "value -- ; create new data buffer space and set value".to_owned(),
        f,
    );
    proof {
        one_more_body(start, code, f, 1);
    }
    let ghost code = vm.code_buffer@;
    let f = P::from(Builtin::Fetch);
    vm.define_primitive_word(
        "@".to_owned(),
        false,
        "adr -- value; get value from adr".to_owned(),
        f,
    );
    proof {
        one_more_body(start, code, f, 2);
    }
    let ghost code = vm.code_buffer@;
    let f = P::from(Builtin::Store);
    vm.define_primitive_word(
        "!".to_owned(),
        false,
        "value adr -- ; set value to adr".to_owned(),
        f,
    );
    proof {
        one_more_body(start, code, f, 3);
    }
    let ghost code = vm.code_buffer@;
    let f = P::from(Builtin::Body);
    vm.define_primitive_word(
        "body>".to_owned(),
        false,
        "xt -- adr; get data address from execution token".to_owned(),
        f,
    );
    proof {
        one_more_body(start, code, f, 4);
    }
    let ghost code = vm.code_buffer@;
    let f = P::from(Builtin::Constant);
    vm.define_primitive_word(
        "constant".to_owned(),
        false,
        "value \"variable\" -- ; set value to Value Variable".to_owned(),
        f,
    );
    proof {
        one_more_body(start, code, f, 5);
    }
}

/// The text of the script that defines the words which are made of the
/// words of this file.
pub const PRELOAD_SCRIPT: &'static str = r#"
    : variable ( "variable name" -- ; create variable )
        create 1 allot
    ;
    : value ( value "value name" -- ; create value )
        create , does> @
    ;
    : +! ( value variable -- ; add value to variable )
        dup @ rot + swap !
    ;
    : -! ( value variable --; substruct value from variable )
        dup @ rot - swap !
    ;
    : -> ( value "variable" -- ; set value to Value Variable )
        ' body> !
    ;
    : ++> ( value "Value" -- ; add value to Value)
        ' body> +!
    ;
    : --> ( value "Value" -- ; subtruct value from Value )
        ' body> -!
    ;
"#;

/// The script that defines the words which are made of the words of this
/// file.
pub fn preload_script() -> (r: &'static str)
    ensures
        r == PRELOAD_SCRIPT,
{
    PRELOAD_SCRIPT
}

/// Whether `allot` may take the machine from `before` to `after` and hand
/// back `r`.
pub open spec fn allot_does<T, E, R, P>(
    before: Vm<T, E, R, P>,
    after: Vm<T, E, R, P>,
    r: Result<(), VmErrorReason<E>>,
) -> bool {
    &&& kept(before, after, (Touched { data: true, data_buffer: true, ..untouched() }))
    &&& if before.data_stack@.len() == 0 {
        r == Err::<(), VmErrorReason<E>>(data_underflow()) && after.data_stack@.len() == 0
            && after.data_buffer@ == before.data_buffer@
    } else {
        after.data_stack@ == before.data_stack@.drop_last() && match *before.data_stack@.last() {
            Value::IntValue(c) => if c < 0 || before.data_buffer@.len()
                + Value::<T>::spec_index_of_int(c) > usize::MAX {
                r == Err::<(), VmErrorReason<E>>(
                    VmErrorReason::InstructionError("data buffer overflow"),
                ) && after.data_buffer@ == before.data_buffer@
            } else {
                r is Ok && after.data_buffer@.len() == before.data_buffer@.len()
                    + Value::<T>::spec_index_of_int(c) && after.data_buffer@.take(
                    before.data_buffer@.len() as int,
                ) == before.data_buffer@ && forall|i: int|
                    before.data_buffer@.len() <= i < after.data_buffer@.len() ==> *(
                    #[trigger] after.data_buffer@[i]) is Empty
            },
            _ => r is Err && no_integer(r->Err_0, before.data_stack@.last().spec_type_name())
                && after.data_buffer@ == before.data_buffer@,
        }
    }
}

/// `allot`: takes a size off the data stack and appends that many empty
/// cells to the data buffer. A negative size is a failure, and so is one
/// that the buffer cannot grow by.
pub fn allot<T, E, R, P>(vm: &mut Vm<T, E, R, P>) -> (r: Result<(), VmErrorReason<E>>)
    ensures
        allot_does(*old(vm), *final(vm), r),
{
    let top = match pop_one(vm) {
        Ok(v) => v,
        Err(e) => {
            return Err(e);
        },
    };
    let size = match (*top).try_into_usize() {
        Ok(p) => p,
        Err(e) => {
            return Err(VmErrorReason::TypeMismatchError(e));
        },
    };
    let negative = match &*top {
        Value::IntValue(c) => *c < 0,
        _ => false,
    };
    let here: usize = match vm.data_buffer.here().0 {
        Address::Entity(i) => i,
        Address::Root => 0,
    };
    if negative || size > usize::MAX - here {
        return Err(VmErrorReason::InstructionError("data buffer overflow"));
    }
    vm.data_buffer.allocate(size);
    Ok(())
}

/// Whether `,` may take the machine from `before` to `after` and hand
/// back `r`.
pub open spec fn create_one_cell_does<T, E, R, P>(
    before: Vm<T, E, R, P>,
    after: Vm<T, E, R, P>,
    r: Result<(), VmErrorReason<E>>,
) -> bool {
    &&& kept(before, after, (Touched { data: true, data_buffer: true, ..untouched() }))
    &&& if before.data_stack@.len() == 0 {
        r == Err::<(), VmErrorReason<E>>(data_underflow()) && after.data_stack@.len() == 0
            && after.data_buffer@ == before.data_buffer@
    } else {
        r is Ok && after.data_stack@ == before.data_stack@.drop_last() && after.data_buffer@ == before.data_buffer@.push(before.data_stack@.last())
    }
}

/// `,`: moves the value on top of the data stack to a new cell at the end
/// of the data buffer.
pub fn create_one_cell<T, E, R, P>(vm: &mut Vm<T, E, R, P>) -> (r: Result<(), VmErrorReason<E>>)
    ensures
        create_one_cell_does(*old(vm), *final(vm), r),
{
    let top = match pop_one(vm) {
        Ok(v) => v,
        Err(e) => {
            return Err(e);
        },
    };
    vm.data_buffer.push(top);
    Ok(())
}

/// The failure of an access to the data buffer at `adr`, which designates
/// no cell of a buffer of the size `len`.
pub open spec fn data_buffer_failure<E>(len: nat, adr: DataAddress) -> VmErrorReason<E> {
    match adr.0 {
        Address::Root => VmErrorReason::DataBufferAccessError(
            DataBufferErrorReason::BufferAddressError(BufferAddressErrorReason::InvalidAddress),
        ),
        Address::Entity(i) => VmErrorReason::DataBufferAccessError(
            DataBufferErrorReason::BufferAccessError(
                BufferErrorReason::OutOfRangeAccess(len as usize, i),
            ),
        ),
    }
}

/// Whether `adr` designates a cell of a data buffer of the size `len`.
pub open spec fn in_data_buffer(len: nat, adr: DataAddress) -> bool {
    adr.0 matches Address::Entity(i) && i < len
}

/// The failure of an access to the slot `index` of an environment stack of
/// the size `len`, where `slot` is what the access asked for.
pub open spec fn env_failure<E>(len: nat, slot: usize) -> VmErrorReason<E> {
    VmErrorReason::EnvironmentStackAccessError(
        EnvironmentStackErrorReason::BufferAccessError(
            BufferErrorReason::OutOfRangeAccess(len as usize, slot),
        ),
    )
}

/// Whether `@` may take the machine from `before` to `after` and hand
/// back `r`.
pub open spec fn get_does<T, E, R, P>(
    before: Vm<T, E, R, P>,
    after: Vm<T, E, R, P>,
    r: Result<(), VmErrorReason<E>>,
) -> bool {
    &&& kept(before, after, (Touched { data: true, ..untouched() }))
    &&& if before.data_stack@.len() == 0 {
        r == Err::<(), VmErrorReason<E>>(data_underflow()) && after.data_stack@.len() == 0
    } else {
        let rest = before.data_stack@.drop_last();
        match *before.data_stack@.last() {
            Value::DataAddress(adr) => if in_data_buffer(before.data_buffer@.len(), adr) {
                r is Ok && after.data_stack@ == rest.push(
                    before.data_buffer@[adr.0->Entity_0 as int],
                )
            } else {
                r == Err::<(), VmErrorReason<E>>(
                    data_buffer_failure(before.data_buffer@.len(), adr),
                ) && after.data_stack@ == rest
            },
            Value::EnvAddress(adr) => if before.return_stack@.len() == 0 {
                r == Err::<(), VmErrorReason<E>>(calls_underflow()) && after.data_stack@
                    == rest
            } else if before.return_stack@.last().stack_address.0 + adr.0 >= before.env_stack@.len() {
                r == Err::<(), VmErrorReason<E>>(
                    env_failure(
                        before.env_stack@.len(),
                        EnvironmentStack::<T>::slot(
                            before.return_stack@.last().stack_address,
                            adr,
                        ),
                    ),
                ) && after.data_stack@ == rest
            } else {
                r is Ok && after.data_stack@ == rest.push(
                    before.env_stack@[before.return_stack@.last().stack_address.0 + adr.0],
                )
            },
            _ => r is Err && mismatch(r->Err_0, "DataAddress|EnvAddress"@, "UNKNOWN"@)
                && after.data_stack@ == rest,
        }
    }
}

/// `@`: takes an address off the data stack and puts the value on it that
/// the address designates: a cell of the data buffer, or a slot of the
/// current environment.
pub fn get<T, E, R, P>(vm: &mut Vm<T, E, R, P>) -> (r: Result<(), VmErrorReason<E>>)
    ensures
        get_does(*old(vm), *final(vm), r),
{
    let top = match pop_one(vm) {
        Ok(v) => v,
        Err(e) => {
            return Err(e);
        },
    };
    match &*top {
        Value::DataAddress(adr) => {
            let value = match vm.data_buffer.get(*adr) {
                Ok(v) => v,
                Err(e) => {
                    return Err(VmErrorReason::DataBufferAccessError(e));
                },
            };
            vm.data_stack.push(value);
            Ok(())
        },
        Value::EnvAddress(adr) => {
            let base = match vm.return_stack.peek() {
                Ok(b) => b,
                Err(e) => {
                    return Err(VmErrorReason::ReturnStackAccessError(e));
                },
            };
            let value = match vm.env_stack.get(base.stack_address(), *adr) {
                Ok(v) => v,
                Err(e) => {
                    return Err(VmErrorReason::EnvironmentStackAccessError(e));
                },
            };
            vm.data_stack.push(value);
            Ok(())
        },
        _ => Err(
            VmErrorReason::TypeMismatchError(TypeMismatchError("DataAddress|EnvAddress", "UNKNOWN")),
        ),
    }
}

/// Whether `!` may take the machine from `before` to `after` and hand
/// back `r`.
pub open spec fn set_does<T, E, R, P>(
    before: Vm<T, E, R, P>,
    after: Vm<T, E, R, P>,
    r: Result<(), VmErrorReason<E>>,
) -> bool {
    &&& kept(
        before,
        after,
        (Touched { data: true, data_buffer: true, env: true, ..untouched() }),
    )
    &&& if before.data_stack@.len() < 2 {
        r == Err::<(), VmErrorReason<E>>(data_underflow()) && after.data_stack@.len() == 0
            && after.data_buffer@ == before.data_buffer@ && after.env_stack@ == before.env_stack@
    } else {
        let value = before.data_stack@[before.data_stack@.len() - 2];
        after.data_stack@ == before.data_stack@.take(before.data_stack@.len() - 2)
            && match *before.data_stack@.last() {
            Value::DataAddress(adr) => after.env_stack@ == before.env_stack@
                && if in_data_buffer(before.data_buffer@.len(), adr) {
                r is Ok && after.data_buffer@ == before.data_buffer@.update(
                    adr.0->Entity_0 as int,
                    value,
                )
            } else {
                r == Err::<(), VmErrorReason<E>>(
                    data_buffer_failure(before.data_buffer@.len(), adr),
                ) && after.data_buffer@ == before.data_buffer@
            },
            Value::EnvAddress(adr) => after.data_buffer@ == before.data_buffer@ && if before.return_stack@.len() == 0 {
                r == Err::<(), VmErrorReason<E>>(calls_underflow()) && after.env_stack@
                    == before.env_stack@
            } else if before.return_stack@.last().stack_address.0 + adr.0 >= before.env_stack@.len() {
                r == Err::<(), VmErrorReason<E>>(
                    env_failure(
                        before.env_stack@.len(),
                        EnvironmentStack::<T>::slot(
                            before.return_stack@.last().stack_address,
                            adr,
                        ),
                    ),
                ) && after.env_stack@ == before.env_stack@
            } else {
                r is Ok && after.env_stack@ == before.env_stack@.update(
                    before.return_stack@.last().stack_address.0 + adr.0,
                    value,
                )
            },
            _ => r is Err && mismatch(r->Err_0, "DataAddress|EnvAddress"@, "UNKNOWN"@)
                && after.data_buffer@ == before.data_buffer@ && after.env_stack@
                == before.env_stack@,
        }
    }
}

/// `!`: takes an address and a value off the data stack and stores the
/// value where the address designates: in a cell of the data buffer, or in
/// a slot of the current environment.
pub fn set<T, E, R, P>(vm: &mut Vm<T, E, R, P>) -> (r: Result<(), VmErrorReason<E>>)
    ensures
        set_does(*old(vm), *final(vm), r),
{
    let (value, top) = match pop_pair(vm) {
        Ok(p) => p,
        Err(e) => {
            return Err(e);
        },
    };
    match &*top {
        Value::DataAddress(adr) => {
            match vm.data_buffer.set(*adr, value) {
                Ok(_) => Ok(()),
                Err(e) => Err(VmErrorReason::DataBufferAccessError(e)),
            }
        },
        Value::EnvAddress(adr) => {
            let base = match vm.return_stack.peek() {
                Ok(b) => b,
                Err(e) => {
                    return Err(VmErrorReason::ReturnStackAccessError(e));
                },
            };
            match vm.env_stack.set(base.stack_address(), *adr, value) {
                Ok(_) => Ok(()),
                Err(e) => Err(VmErrorReason::EnvironmentStackAccessError(e)),
            }
        },
        _ => Err(
            VmErrorReason::TypeMismatchError(TypeMismatchError("DataAddress|EnvAddress", "UNKNOWN")),
        ),
    }
}

/// The failure of an access to the code buffer at `adr`, which designates
/// no instruction of a buffer of the size `len`.
pub open spec fn code_failure<E>(len: nat, adr: CodeAddress) -> VmErrorReason<E> {
    match adr.0 {
        Address::Root => VmErrorReason::CodeBufferAccessError(
            CodeBufferErrorReason::BufferAddressError(BufferAddressErrorReason::InvalidAddress),
        ),
        Address::Entity(i) => VmErrorReason::CodeBufferAccessError(
            CodeBufferErrorReason::BufferAccessError(
                BufferErrorReason::OutOfRangeAccess(len as usize, i),
            ),
        ),
    }
}

/// Whether `adr` designates an instruction of a code buffer of the size
/// `len`.
pub open spec fn in_code(len: nat, adr: CodeAddress) -> bool {
    adr.0 matches Address::Entity(i) && i < len
}

/// Whether `body>` may take the machine from `before` to `after` and hand
/// back `r`.
pub open spec fn body_does<T, E, R, P: Copy>(
    before: Vm<T, E, R, P>,
    after: Vm<T, E, R, P>,
    r: Result<(), VmErrorReason<E>>,
) -> bool {
    &&& kept(before, after, (Touched { data: true, ..untouched() }))
    &&& if before.data_stack@.len() == 0 {
        r == Err::<(), VmErrorReason<E>>(data_underflow()) && after.data_stack@.len() == 0
    } else {
        let rest = before.data_stack@.drop_last();
        match *before.data_stack@.last() {
            Value::CodeAddress(adr) => if in_code(before.code_buffer@.len(), adr) {
                r is Ok && match before.code_buffer@[adr.0->Entity_0 as int] {
                    Instruction::Push(val) => after.data_stack@ == rest.push(val),
                    _ => after.data_stack@ == before.data_stack@,
                }
            } else {
                r == Err::<(), VmErrorReason<E>>(code_failure(before.code_buffer@.len(), adr))
                    && after.data_stack@ == rest
            },
            _ => r is Ok && after.data_stack@ == before.data_stack@,
        }
    }
}

/// `body>`: where the value on top of the data stack is the address of an
/// instruction that pushes a value, that value takes its place. Every
/// other value stays. An address that designates no instruction is a
/// failure.
pub fn body<T, E, R, P: Copy>(vm: &mut Vm<T, E, R, P>) -> (r: Result<(), VmErrorReason<E>>)
    ensures
        body_does(*old(vm), *final(vm), r),
{
    let top = match pop_one(vm) {
        Ok(v) => v,
        Err(e) => {
            return Err(e);
        },
    };
    let target: Option<CodeAddress> = match &*top {
        Value::CodeAddress(adr) => Some(*adr),
        _ => None,
    };
    match target {
        Some(adr) => {
            let inst = match vm.code_buffer.get(adr) {
                Ok(i) => i,
                Err(e) => {
                    return Err(VmErrorReason::CodeBufferAccessError(e));
                },
            };
            match inst {
                Instruction::Push(val) => {
                    vm.data_stack.push(val);
                },
                _ => {
                    vm.data_stack.push(top);
                    assert(vm.data_stack@ =~= old(vm).data_stack@);
                },
            }
        },
        None => {
            vm.data_stack.push(top);
            assert(vm.data_stack@ =~= old(vm).data_stack@);
        },
    }
    Ok(())
}

/// Whether `after` is `read` with a new word `name` of which `first` is
/// the first instruction, followed by a return and the mark that ends a
/// word. The name stays the one reserved last.
pub open spec fn word_made<T, E, R, P>(
    read: Vm<T, E, R, P>,
    name: String,
    first: Instruction<T, P>,
    after: Vm<T, E, R, P>,
) -> bool {
    let here = CodeAddress(Address::Entity(read.code_buffer@.len() as usize));
    &&& after.code_buffer@ == read.code_buffer@.push(first).push(Instruction::Return).push(
        Instruction::DebugLabel(DebugLabel::WordTerminator),
    )
    &&& after.word_dictionary.committed().contains_key(name@)
    &&& after.word_dictionary.committed()[name@].code == here
    &&& !after.word_dictionary.committed()[name@].immediate
    &&& after.word_dictionary.committed()[name@].document@.len() == 0
    &&& after.word_dictionary.committed() == read.word_dictionary.committed().insert(
        name@,
        after.word_dictionary.committed()[name@],
    )
    &&& after.word_dictionary.names_by_code() == read.word_dictionary.names_by_code().insert(
        here,
        name@,
    )
    &&& after.word_dictionary.reserved_name() == Some(name@)
    &&& after.word_dictionary.reserved_word() is None
}

/// Defines the word `name` with a body of `first`, a return and the mark
/// that ends a word.
pub fn make_word<T, E, R, P: Copy>(vm: &mut Vm<T, E, R, P>, name: String, first: Instruction<T, P>)
    ensures
        word_made(*old(vm), name, first, *final(vm)),
        kept(*old(vm), *final(vm), (Touched { words: true, code: true, ..untouched() })),
{
    let here = vm.code_buffer.here();
    vm.word_dictionary.reserve_word_def(name, Word::new(here));
    vm.code_buffer.push(first);
    vm.code_buffer.push(compile_return());
    vm.code_buffer.push(compile_word_terminator());
    let _ = vm.word_dictionary.complate_word_def();
}

/// What `constant` does with the name that it has read: the value on top
/// of the data stack is taken off, and the name becomes a word that
/// pushes it.
pub open spec fn constant_made<T, E, R, P>(
    read: Vm<T, E, R, P>,
    name: String,
    after: Vm<T, E, R, P>,
    r: Result<(), VmErrorReason<E>>,
) -> bool {
    &&& kept(read, after, (Touched { data: true, words: true, code: true, ..untouched() }))
    &&& if read.data_stack@.len() == 0 {
        r == Err::<(), VmErrorReason<E>>(data_underflow()) && after.data_stack@.len() == 0
            && after.word_dictionary == read.word_dictionary && after.code_buffer@
            == read.code_buffer@
    } else {
        r is Ok && after.data_stack@ == read.data_stack@.drop_last() && word_made(
            (Vm { data_stack: after.data_stack, ..read }),
            name,
            Instruction::Push(read.data_stack@.last()),
            after,
        )
    }
}

/// Whether `constant` may take the machine from `before` to `after` and hand
/// back `r`.
pub open spec fn constant_does<T, E, R, P: Copy>(
    before: Vm<T, E, R, P>,
    after: Vm<T, E, R, P>,
    r: Result<(), VmErrorReason<E>>,
) -> bool {
    &&& named_word(
        before,
        after,
        r,
        |read: Vm<T, E, R, P>, name: String, after: Vm<T, E, R, P>, res: Result<
            (),
            VmErrorReason<E>,
        >| constant_made(read, name, after, res),
    )
}

/// `constant`: makes the name that follows a word that pushes the value on
/// top of the data stack.
pub fn constant<T, E, R, P: Copy>(vm: &mut Vm<T, E, R, P>) -> (r: Result<(), VmErrorReason<E>>)
    ensures
        constant_does(*old(vm), *final(vm), r),
{
    let name = match call_with_name(vm) {
        Ok(n) => n,
        Err(e) => {
            return Err(e);
        },
    };
    let value = match pop_one(vm) {
        Ok(v) => v,
        Err(e) => {
            return Err(e);
        },
    };
    make_word(vm, name, compile_push_value(value));
    Ok(())
}

} // verus!
