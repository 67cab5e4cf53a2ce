//! The words that work on the environment stack and on the local
//! variables.

use super::util::call_with_name;
use super::util::named_word;
use super::util::pop_one;
use super::Builtin;
use crate::lang::vm::data_underflow;
use crate::lang::vm::Machine;
use crate::lang::vm::bodies_added;
use crate::lang::vm::one_more_body;
use crate::lang::vm::Vm;
use crate::lang::vm::VmErrorReason;
use crate::lang::mem::BufferErrorReason;
use crate::lang::mem::DataStackErrorReason;
use crate::lang::mem::EnvironmentStackErrorReason;
use vstd::prelude::*;

verus! {

/// Defines the words of this file.
pub fn initialize<T, E, R, P: Copy + From<Builtin>>(vm: &mut Vm<T, E, R, P>)
    ensures
        bodies_added(old(vm).code_buffer@, final(vm).code_buffer@, 4),
        final(vm).word_dictionary.committed().contains_key(">E"@),
        final(vm).word_dictionary.committed().contains_key("E>"@),
        final(vm).word_dictionary.committed().contains_key("E@"@),
        final(vm).word_dictionary.committed().contains_key("create-local"@),
        final(vm).machine() == old(vm).machine(),
        final(vm).state == old(vm).state,
        forall|n: Seq<char>|
            old(vm).word_dictionary.committed().contains_key(n) ==> #[trigger] final(
                vm
            ).word_dictionary.committed().contains_key(n),
{
    let ghost start = vm.code_buffer@;
    assert(start.take(start.len() as int) =~= start);
    let ghost code = vm.code_buffer@;
    let f = P::from(Builtin::ToE);
    vm.define_primitive_word(
        ">E".to_owned(),
        false,
        "{S: a -- } {E: -- a}; push to environment stack".to_owned(),
        f,
    );
    proof {
        one_more_body(start, code, f, 0);
    }
    let ghost code = vm.code_buffer@;
    let f = P::from(Builtin::PopE);
    vm.define_primitive_word(
        "E>".to_owned(),
        false,
        "{S:  -- a} {E: a -- }; pop from environment stack".to_owned(),
        f,
    );
    proof {
        one_more_body(start, code, f, 1);
    }
    let ghost code = vm.code_buffer@;
    let f = P::from(Builtin::PeekE);
    vm.define_primitive_word(
        "E@".to_owned(),
        false,
        "{S: -- a} {E: a -- a}; peek from environment stack".to_owned(),
        f,
    );
    proof {
        one_more_body(start, code, f, 2);
    }
    let ghost code = vm.code_buffer@;
    let f = P::from(Builtin::CreateLocal);
    vm.define_primitive_word(
        "create-local".to_owned(),
        true,
        "{\"local variable name\" -- } ; create local variable with name".to_owned(),
        f,
    );
    proof {
        one_more_body(start, code, f, 3);
    }
}

/// The text of the script that defines the words which are made of the
/// words of this file.
pub const PRELOAD_SCRIPT: &'static str = r#"
    : 2>E ( {S: a b -- } {E: -- a b}; push to environment stack )
        swap >E >E
    ;

    : 2E> ( {S:  -- a b} {E: a b -- }; pop from environment stack )
        E> E> swap
    ;

    : 2E@ ( {S: -- a b} {E: a b -- a b}; peek from environment stack )
        E> E@ swap dup >E
    ;
"#;

/// The script that defines the words which are made of the words of this
/// file.
pub fn preload_script() -> (r: &'static str)
    ensures
        r == PRELOAD_SCRIPT,
{
    PRELOAD_SCRIPT
}

/// Whether `after` differs from `before` in nothing but the data stack
/// and the environment stack.
pub open spec fn only_data_and_env_changed<T, E, R, P>(
    before: Vm<T, E, R, P>,
    after: Vm<T, E, R, P>,
) -> bool {
    &&& before.same_surroundings(&after)
    &&& after.machine() == (Machine {
        data: after.data_stack@,
        env: after.env_stack@,
        ..before.machine()
    })
}

/// Whether `>E` may take the machine from `before` to `after` and hand
/// back `r`.
pub open spec fn to_e_does<T, E, R, P>(
    before: Vm<T, E, R, P>,
    after: Vm<T, E, R, P>,
    r: Result<(), VmErrorReason<E>>,
) -> bool {
    &&& only_data_and_env_changed(before, after)
    &&& if before.data_stack@.len() == 0 {
        r == Err::<(), VmErrorReason<E>>(data_underflow()) && after.data_stack@.len() == 0
            && after.env_stack@ == before.env_stack@
    } else {
        r is Ok && after.data_stack@ == before.data_stack@.drop_last() && after.env_stack@ == before.env_stack@.push(before.data_stack@.last())
    }
}

/// `>E`: moves the value on top of the data stack to the environment
/// stack.
pub fn to_e<T, E, R, P>(vm: &mut Vm<T, E, R, P>) -> (r: Result<(), VmErrorReason<E>>)
    ensures
        to_e_does(*old(vm), *final(vm), r),
{
    let top = match pop_one(vm) {
        Ok(v) => v,
        Err(e) => {
            return Err(e);
        },
    };
    vm.env_stack.push(top);
    Ok(())
}

/// Whether `E>` may take the machine from `before` to `after` and hand
/// back `r`.
pub open spec fn pop_e_does<T, E, R, P>(
    before: Vm<T, E, R, P>,
    after: Vm<T, E, R, P>,
    r: Result<(), VmErrorReason<E>>,
) -> bool {
    &&& only_data_and_env_changed(before, after)
    &&& if before.env_stack@.len() == 0 {
        r == Err::<(), VmErrorReason<E>>(
            VmErrorReason::EnvironmentStackAccessError(
                EnvironmentStackErrorReason::BufferAccessError(
                    BufferErrorReason::UnderflowAccessError,
                ),
            ),
        ) && after.data_stack@ == before.data_stack@ && after.env_stack@ == before.env_stack@
    } else {
        r is Ok && after.env_stack@ == before.env_stack@.drop_last() && after.data_stack@ == before.data_stack@.push(before.env_stack@.last())
    }
}

/// `E>`: moves the value on top of the environment stack to the data
/// stack.
pub fn pop_e<T, E, R, P>(vm: &mut Vm<T, E, R, P>) -> (r: Result<(), VmErrorReason<E>>)
    ensures
        pop_e_does(*old(vm), *final(vm), r),
{
    let top = match vm.env_stack.pop() {
        Ok(v) => v,
        Err(e) => {
            return Err(VmErrorReason::EnvironmentStackAccessError(e));
        },
    };
    vm.data_stack.push(top);
    Ok(())
}

/// Whether `E@` may take the machine from `before` to `after` and hand
/// back `r`.
pub open spec fn peek_e_does<T, E, R, P>(
    before: Vm<T, E, R, P>,
    after: Vm<T, E, R, P>,
    r: Result<(), VmErrorReason<E>>,
) -> bool {
    &&& only_data_and_env_changed(before, after)
    &&& after.env_stack@ == before.env_stack@
    &&& if before.env_stack@.len() == 0 {
        r == Err::<(), VmErrorReason<E>>(
            VmErrorReason::DataStackAccessError(
                DataStackErrorReason::BufferAccessError(BufferErrorReason::UnderflowAccessError),
            ),
        ) && after.data_stack@ == before.data_stack@
    } else {
        r is Ok && after.data_stack@ == before.data_stack@.push(
            before.env_stack@.last(),
        )
    }
}

/// `E@`: puts the value on top of the environment stack on the data stack
/// and leaves it where it is.
pub fn peek_e<T, E, R, P>(vm: &mut Vm<T, E, R, P>) -> (r: Result<(), VmErrorReason<E>>)
    ensures
        peek_e_does(*old(vm), *final(vm), r),
{
    let top = match vm.env_stack.peek() {
        Ok(v) => v,
        Err(e) => {
            return Err(VmErrorReason::DataStackAccessError(e));
        },
    };
    vm.data_stack.push(top);
    Ok(())
}

/// What `create-local` does with the name that it has read: the name gets
/// the next slot of the environment. Where no slot is left, the word
/// fails.
pub open spec fn local_created<T, E, R, P>(
    read: Vm<T, E, R, P>,
    name: String,
    after: Vm<T, E, R, P>,
    r: Result<(), VmErrorReason<E>>,
) -> bool {
    if read.local_dictionary.next_slot().0 >= usize::MAX {
        after == read && r == Err::<(), VmErrorReason<E>>(
            VmErrorReason::InstructionError("too many local variables"),
        )
    } else {
        &&& r is Ok
        &&& after.local_dictionary.slots() == read.local_dictionary.slots().insert(
            name@,
            read.local_dictionary.next_slot(),
        )
        &&& after.local_dictionary.next_slot().0 == read.local_dictionary.next_slot().0 + 1
        &&& after.machine() == read.machine()
        &&& after.state == read.state
        &&& after.input == read.input
        &&& after.word_dictionary == read.word_dictionary
        &&& after.code_buffer == read.code_buffer
        &&& after.data_buffer == read.data_buffer
        &&& after.controlflow_stack == read.controlflow_stack
        &&& after.script_call_stack == read.script_call_stack
        &&& after.debug_info_store == read.debug_info_store
        &&& after.resources == read.resources
        &&& after.written == read.written
    }
}

/// Whether `create-local` may take the machine from `before` to `after` and hand
/// back `r`.
pub open spec fn create_local_does<T, E, R, P>(
    before: Vm<T, E, R, P>,
    after: Vm<T, E, R, P>,
    r: Result<(), VmErrorReason<E>>,
) -> bool {
    &&& named_word(
        before,
        after,
        r,
        |read: Vm<T, E, R, P>, name: String, after: Vm<T, E, R, P>, res: Result<
            (),
            VmErrorReason<E>,
        >| local_created(read, name, after, res),
    )
}

/// `create-local`: makes the name that follows a local variable.
pub fn create_local<T, E, R, P>(vm: &mut Vm<T, E, R, P>) -> (r: Result<(), VmErrorReason<E>>)
    ensures
        create_local_does(*old(vm), *final(vm), r),
{
    let name = match call_with_name(vm) {
        Ok(n) => n,
        Err(e) => {
            return Err(e);
        },
    };
    if vm.local_dictionary.next_address().0 >= usize::MAX {
        return Err(VmErrorReason::InstructionError("too many local variables"));
    }
    vm.local_dictionary.push(name);
    Ok(())
}

} // verus!
