//! The words that work on the control-flow stack.

use super::util::pop_one;
use super::Builtin;
use crate::lang::mem::BufferErrorReason;
use crate::lang::mem::ControlflowStackErrorReason;
use crate::lang::mem::DataStackErrorReason;
use crate::lang::vm::data_underflow;
use crate::lang::vm::bodies_added;
use crate::lang::vm::one_more_body;
use crate::lang::vm::Vm;
use crate::lang::vm::VmErrorReason;
use vstd::prelude::*;

verus! {

/// Defines the words of this file.
pub fn initialize<T, E, R, P: Copy + From<Builtin>>(vm: &mut Vm<T, E, R, P>)
    ensures
        bodies_added(old(vm).code_buffer@, final(vm).code_buffer@, 3),
        final(vm).word_dictionary.committed().contains_key(">C"@),
        final(vm).word_dictionary.committed().contains_key("C>"@),
        final(vm).word_dictionary.committed().contains_key("C@"@),
        final(vm).machine() == old(vm).machine(),
        final(vm).state == old(vm).state,
        forall|n: Seq<char>|
            old(vm).word_dictionary.committed().contains_key(n) ==> #[trigger] final(
                vm
            ).word_dictionary.committed().contains_key(n),
{
    let ghost start = vm.code_buffer@;
    assert(start.take(start.len() as int) =~= start);
    let ghost code = vm.code_buffer@;
    let f = P::from(Builtin::ToC);
    vm.define_primitive_word(
        ">C".to_owned(),
        false,
        "{S: a -- } {C: -- a}; push to controlflow stack".to_owned(),
        f,
    );
    proof {
        one_more_body(start, code, f, 0);
    }
    let ghost code = vm.code_buffer@;
    let f = P::from(Builtin::PopC);
    vm.define_primitive_word(
        "C>".to_owned(),
        false,
        "{S:  -- a} {C: a -- }; pop from controlflow stack".to_owned(),
        f,
    );
    proof {
        one_more_body(start, code, f, 1);
    }
    let ghost code = vm.code_buffer@;
    let f = P::from(Builtin::PeekC);
    vm.define_primitive_word(
        "C@".to_owned(),
        false,
        "{S: -- a} {C: a -- a}; peek from controlflow stack".to_owned(),
        f,
    );
    proof {
        one_more_body(start, code, f, 2);
    }
}

/// The text of the script that defines the words which are made of the
/// words of this file.
pub const PRELOAD_SCRIPT: &'static str = r#"
    : 2>C ( {S: a b -- } {C: -- a b}; push to controlflow stack )
        swap >C >C
    ;

    : 2C> ( {S:  -- a b} {C: a b -- }; pop from controlflow stack )
        C> C> swap
    ;

    : 2C@ ( {S: -- a b} {C: a b -- a b}; peek from controlflow stack )
        C> C@ swap dup >C
    ;

    : if ( cond -- ; if statement )
        postpone !!
        cdp >C
        __dummy_instruction__
    ; immediate
    
    : else ( -- ; if statement )
        C>
        1 [compile] literal
        cdp >C
        __dummy_instruction__
        cdp __branch__
        instruction-at
    ; immediate
    
    : endif ( -- ; if statement )
        cdp __branch__
        C> instruction-at
    ; immediate
"#;

/// The script that defines the words which are made of the words of this
/// file.
pub fn preload_script() -> (r: &'static str)
    ensures
        r == PRELOAD_SCRIPT,
{
    PRELOAD_SCRIPT
}

/// Whether `after` differs from `before` in nothing but the data stack
/// and the control-flow stack.
pub open spec fn only_data_and_controlflow_changed<T, E, R, P>(
    before: Vm<T, E, R, P>,
    after: Vm<T, E, R, P>,
) -> bool {
    &&& after.state == before.state
    &&& after.execution_state == before.execution_state
    &&& after.input == before.input
    &&& after.current_line_number == before.current_line_number
    &&& after.current_column_number == before.current_column_number
    &&& after.word_dictionary == before.word_dictionary
    &&& after.local_dictionary == before.local_dictionary
    &&& after.return_stack@ == before.return_stack@
    &&& after.env_stack@ == before.env_stack@
    &&& after.long_jump_stack@ == before.long_jump_stack@
    &&& after.code_buffer == before.code_buffer
    &&& after.data_buffer == before.data_buffer
    &&& after.program_counter == before.program_counter
    &&& after.script_call_stack == before.script_call_stack
    &&& after.debug_info_store == before.debug_info_store
    &&& after.resources == before.resources
    &&& after.written == before.written
}

/// Whether `>C` may take the machine from `before` to `after` and hand
/// back `r`.
pub open spec fn to_c_does<T, E, R, P>(
    before: Vm<T, E, R, P>,
    after: Vm<T, E, R, P>,
    r: Result<(), VmErrorReason<E>>,
) -> bool {
    &&& only_data_and_controlflow_changed(before, after)
    &&& if before.data_stack@.len() == 0 {
        r == Err::<(), VmErrorReason<E>>(data_underflow()) && after.data_stack@.len() == 0
            && after.controlflow_stack@ == before.controlflow_stack@
    } else {
        r is Ok && after.data_stack@ == before.data_stack@.drop_last() && after.controlflow_stack@ == before.controlflow_stack@.push(before.data_stack@.last())
    }
}

/// `>C`: moves the value on top of the data stack to the control-flow
/// stack.
pub fn to_c<T, E, R, P>(vm: &mut Vm<T, E, R, P>) -> (r: Result<(), VmErrorReason<E>>)
    ensures
        to_c_does(*old(vm), *final(vm), r),
{
    let top = match pop_one(vm) {
        Ok(v) => v,
        Err(e) => {
            return Err(e);
        },
    };
    vm.controlflow_stack.push(top);
    Ok(())
}

/// Whether `C>` may take the machine from `before` to `after` and hand
/// back `r`.
pub open spec fn pop_c_does<T, E, R, P>(
    before: Vm<T, E, R, P>,
    after: Vm<T, E, R, P>,
    r: Result<(), VmErrorReason<E>>,
) -> bool {
    &&& only_data_and_controlflow_changed(before, after)
    &&& if before.controlflow_stack@.len() == 0 {
        r == Err::<(), VmErrorReason<E>>(
            VmErrorReason::ControlflowStackAccessError(
                ControlflowStackErrorReason::BufferAccessError(
                    BufferErrorReason::UnderflowAccessError,
                ),
            ),
        ) && after.data_stack@ == before.data_stack@ && after.controlflow_stack@
            == before.controlflow_stack@
    } else {
        r is Ok && after.controlflow_stack@ == before.controlflow_stack@.drop_last()
            && after.data_stack@ == before.data_stack@.push(
            before.controlflow_stack@.last(),
        )
    }
}

/// `C>`: moves the value on top of the control-flow stack to the data
/// stack.
pub fn pop_c<T, E, R, P>(vm: &mut Vm<T, E, R, P>) -> (r: Result<(), VmErrorReason<E>>)
    ensures
        pop_c_does(*old(vm), *final(vm), r),
{
    let top = match vm.controlflow_stack.pop() {
        Ok(v) => v,
        Err(e) => {
            return Err(VmErrorReason::ControlflowStackAccessError(e));
        },
    };
    vm.data_stack.push(top);
    Ok(())
}

/// Whether `C@` may take the machine from `before` to `after` and hand
/// back `r`.
pub open spec fn peek_c_does<T, E, R, P>(
    before: Vm<T, E, R, P>,
    after: Vm<T, E, R, P>,
    r: Result<(), VmErrorReason<E>>,
) -> bool {
    &&& only_data_and_controlflow_changed(before, after)
    &&& after.controlflow_stack@ == before.controlflow_stack@
    &&& if before.controlflow_stack@.len() == 0 {
        r == Err::<(), VmErrorReason<E>>(
            VmErrorReason::DataStackAccessError(
                DataStackErrorReason::BufferAccessError(BufferErrorReason::UnderflowAccessError),
            ),
        ) && after.data_stack@ == before.data_stack@
    } else {
        r is Ok && after.data_stack@ == before.data_stack@.push(
            before.controlflow_stack@.last(),
        )
    }
}

/// `C@`: puts the value on top of the control-flow stack on the data stack
/// and leaves it where it is.
pub fn peek_c<T, E, R, P>(vm: &mut Vm<T, E, R, P>) -> (r: Result<(), VmErrorReason<E>>)
    ensures
        peek_c_does(*old(vm), *final(vm), r),
{
    let top = match vm.controlflow_stack.peek() {
        Ok(v) => v,
        Err(e) => {
            return Err(VmErrorReason::DataStackAccessError(e));
        },
    };
    vm.data_stack.push(top);
    Ok(())
}

} // verus!
