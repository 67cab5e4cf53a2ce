//! The words that change what the machine does next.

use super::util::call_with_name;
use super::util::named_word;
use super::Builtin;
use crate::lang::resource::ResourceErrorReason;
use crate::lang::resource::Resources;
use crate::lang::tokenizer::TokenStream;
use crate::lang::vm::script_called;
use crate::lang::vm::bodies_added;
use crate::lang::vm::one_more_body;
use crate::lang::vm::Vm;
use crate::lang::vm::VmErrorReason;
use crate::lang::vm::VmExecutionState;
use crate::lang::vm::VmState;
use vstd::prelude::*;

verus! {

/// Defines the words of this file.
pub fn initialize<T, E, R, P: Copy + From<Builtin>>(vm: &mut Vm<T, E, R, P>)
    ensures
        bodies_added(old(vm).code_buffer@, final(vm).code_buffer@, 5),
        final(vm).word_dictionary.committed().contains_key("quit"@),
        final(vm).word_dictionary.committed().contains_key("bye"@),
        final(vm).word_dictionary.committed().contains_key("["@),
        final(vm).word_dictionary.committed().contains_key("]"@),
        final(vm).word_dictionary.committed().contains_key("load"@),
        final(vm).machine() == old(vm).machine(),
        final(vm).state == old(vm).state,
        forall|n: Seq<char>|
            old(vm).word_dictionary.committed().contains_key(n) ==> #[trigger] final(
                vm
            ).word_dictionary.committed().contains_key(n),
{
    let ghost start = vm.code_buffer@;
    assert(start.take(start.len() as int) =~= start);
    let ghost code = vm.code_buffer@;
    let f = P::from(Builtin::Quit);
    vm.define_primitive_word(
        "quit".to_owned(),
        false,
        " -- ; return module".to_owned(),
        f,
    );
    proof {
        one_more_body(start, code, f, 0);
    }
    let ghost code = vm.code_buffer@;
    let f = P::from(Builtin::Bye);
    vm.define_primitive_word(
        "bye".to_owned(),
        false,
        " -- ; stop program".to_owned(),
        f,
    );
    proof {
        one_more_body(start, code, f, 1);
    }
    let ghost code = vm.code_buffer@;
    let f = P::from(Builtin::ToInterpletation);
    vm.define_primitive_word(
        "[".to_owned(),
        true,
        " -- ; start interpletation mode".to_owned(),
        f,
    );
    proof {
        one_more_body(start, code, f, 2);
    }
    let ghost code = vm.code_buffer@;
    let f = P::from(Builtin::ToCompilation);
    vm.define_primitive_word(
        "]".to_owned(),
        false,
        " -- ; start compilation mode".to_owned(),
        f,
    );
    proof {
        one_more_body(start, code, f, 3);
    }
    let ghost code = vm.code_buffer@;
    let f = P::from(Builtin::Load);
    vm.define_primitive_word(
        "load".to_owned(),
        false,
        "\"module name\" -- ; load module".to_owned(),
        f,
    );
    proof {
        one_more_body(start, code, f, 4);
    }
}

/// The text of the script that defines the words which are made of the
/// words of this file.
pub const PRELOAD_SCRIPT: &'static str = r#"

"#;

/// The script that defines the words which are made of the words of this
/// file.
pub fn preload_script() -> (r: &'static str)
    ensures
        r == PRELOAD_SCRIPT,
{
    PRELOAD_SCRIPT
}

/// Whether `quit` may take the machine from `before` to `after` and hand
/// back `r`.
pub open spec fn quit_does<T, E, R, P>(
    before: Vm<T, E, R, P>,
    after: Vm<T, E, R, P>,
    r: Result<(), VmErrorReason<E>>,
) -> bool {
    &&& r is Ok
    &&& after == (Vm { state: VmState::Return, ..before })
}

/// `quit`: leaves the script.
pub fn quit<T, E, R, P>(vm: &mut Vm<T, E, R, P>) -> (r: Result<(), VmErrorReason<E>>)
    ensures
        quit_does(*old(vm), *final(vm), r),
{
    vm.state = VmState::Return;
    Ok(())
}

/// Whether `bye` may take the machine from `before` to `after` and hand
/// back `r`.
pub open spec fn bye_does<T, E, R, P>(
    before: Vm<T, E, R, P>,
    after: Vm<T, E, R, P>,
    r: Result<(), VmErrorReason<E>>,
) -> bool {
    &&& r is Ok
    &&& after == (Vm { state: VmState::Stop, ..before })
}

/// `bye`: stops the machine.
pub fn bye<T, E, R, P>(vm: &mut Vm<T, E, R, P>) -> (r: Result<(), VmErrorReason<E>>)
    ensures
        bye_does(*old(vm), *final(vm), r),
{
    vm.state = VmState::Stop;
    Ok(())
}

/// Whether `]` may take the machine from `before` to `after` and hand
/// back `r`.
pub open spec fn to_compilation_does<T, E, R, P>(
    before: Vm<T, E, R, P>,
    after: Vm<T, E, R, P>,
    r: Result<(), VmErrorReason<E>>,
) -> bool {
    &&& r is Ok
    &&& after == (Vm { state: VmState::Compilation, ..before })
}

/// `]`: has the tokens compiled.
pub fn to_compilation<T, E, R, P>(vm: &mut Vm<T, E, R, P>) -> (r: Result<(), VmErrorReason<E>>)
    ensures
        to_compilation_does(*old(vm), *final(vm), r),
{
    vm.state = VmState::Compilation;
    Ok(())
}

/// Whether `[` may take the machine from `before` to `after` and hand
/// back `r`.
pub open spec fn to_interpletation_does<T, E, R, P>(
    before: Vm<T, E, R, P>,
    after: Vm<T, E, R, P>,
    r: Result<(), VmErrorReason<E>>,
) -> bool {
    &&& r is Ok
    &&& after == (Vm { state: VmState::Interpretation, ..before })
}

/// `[`: has the tokens interpreted.
pub fn to_interpletation<T, E, R, P>(vm: &mut Vm<T, E, R, P>) -> (r: Result<(), VmErrorReason<E>>)
    ensures
        to_interpletation_does(*old(vm), *final(vm), r),
{
    vm.state = VmState::Interpretation;
    Ok(())
}

/// What `load` does with the name that it has read: the host is asked for
/// the tokens of the resource of that name. Where it has them, the machine
/// reads them next, and interprets them; it comes back to the script when
/// they are read. Where it has none, the word fails with what the host
/// says, and nothing changes.
pub open spec fn loaded<T, E, R: Resources, P>(
    read: Vm<T, E, R, P>,
    name: String,
    after: Vm<T, E, R, P>,
    r: Result<(), VmErrorReason<E>>,
) -> bool {
    exists|got: Result<TokenStream, ResourceErrorReason>| #[trigger]
        read.resources.gives(name@, got) && match got {
            Ok(script) => r is Ok && exists|called: Vm<T, E, R, P>| #[trigger]
                script_called(read, called, script) && after == (Vm {
                    state: VmState::Interpretation,
                    execution_state: VmExecutionState::TokenIteration,
                    ..called
                }),
            Err(e) => r == Err::<(), VmErrorReason<E>>(VmErrorReason::ResourceError(e)) && after
                == read,
        }
}

/// Whether `load` may take the machine from `before` to `after` and hand
/// back `r`.
pub open spec fn load_does<T, E, R: Resources, P: Copy>(
    before: Vm<T, E, R, P>,
    after: Vm<T, E, R, P>,
    r: Result<(), VmErrorReason<E>>,
) -> bool {
    &&& named_word(
        before,
        after,
        r,
        |read: Vm<T, E, R, P>, name: String, after: Vm<T, E, R, P>, res: Result<
            (),
            VmErrorReason<E>,
        >| loaded(read, name, after, res),
    )
}

/// `load`: has the tokens of the resource read whose name follows.
pub fn load<T, E, R: Resources, P: Copy>(vm: &mut Vm<T, E, R, P>) -> (r: Result<
    (),
    VmErrorReason<E>,
>)
    ensures
        load_does(*old(vm), *final(vm), r),
{
    let name = match call_with_name(vm) {
        Ok(n) => n,
        Err(e) => {
            return Err(e);
        },
    };
    let ghost read = *vm;
    let got = vm.resources.get_token_iterator(&name);
    assert(read.resources.gives(name@, got));
    let target = match got {
        Ok(t) => t,
        Err(e) => {
            return Err(VmErrorReason::ResourceError(e));
        },
    };
    vm.call_script(target);
    let ghost called = *vm;
    assert(script_called(read, called, target));
    vm.state = VmState::Interpretation;
    vm.execution_state = VmExecutionState::TokenIteration;
    Ok(())
}

} // verus!
