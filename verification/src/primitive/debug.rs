//! The words that show the machine to a programmer.

use super::util::call_with_name;
use super::util::named_word;
use super::Builtin;
use crate::lang::resource::Resources;
use crate::lang::text::Text;
use crate::lang::vm::dump;
use crate::lang::vm::bodies_added;
use crate::lang::vm::one_more_body;
use crate::lang::vm::Vm;
use crate::lang::vm::VmErrorReason;
use vstd::prelude::*;

verus! {

/// Defines the words of this file.
pub fn initialize<T, E, R, P: Copy + From<Builtin>>(vm: &mut Vm<T, E, R, P>)
    ensures
        bodies_added(old(vm).code_buffer@, final(vm).code_buffer@, 8),
        final(vm).word_dictionary.committed().contains_key("dump-all"@),
        final(vm).word_dictionary.committed().contains_key("see"@),
        final(vm).word_dictionary.committed().contains_key("words"@),
        final(vm).machine() == old(vm).machine(),
        final(vm).state == old(vm).state,
        forall|n: Seq<char>|
            old(vm).word_dictionary.committed().contains_key(n) ==> #[trigger] final(
                vm
            ).word_dictionary.committed().contains_key(n),
{
    let ghost start = vm.code_buffer@;
    assert(start.take(start.len() as int) =~= start);
    let ghost code = vm.code_buffer@;
    let f = P::from(Builtin::DumpAll);
    vm.define_primitive_word("dump-all".to_owned(), false, " -- ; dump all debug info".to_owned(), f);
    proof {
        one_more_body(start, code, f, 0);
    }
    let ghost code = vm.code_buffer@;
    let f = P::from(Builtin::DumpVmState);
    vm.define_primitive_word("dump-vm-state".to_owned(), false, " -- ; dump all debug info".to_owned(), f);
    proof {
        one_more_body(start, code, f, 1);
    }
    let ghost code = vm.code_buffer@;
    let f = P::from(Builtin::DumpWord);
    vm.define_primitive_word("see".to_owned(), false, "\"word name\" -- ; dump word code".to_owned(), f);
    proof {
        one_more_body(start, code, f, 2);
    }
    let ghost code = vm.code_buffer@;
    let f = P::from(Builtin::DumpAllWord);
    vm.define_primitive_word("dump-all-word".to_owned(), false, " -- ; dump all word code".to_owned(), f);
    proof {
        one_more_body(start, code, f, 3);
    }
    let ghost code = vm.code_buffer@;
    let f = P::from(Builtin::DumpDictionary);
    vm.define_primitive_word("words".to_owned(), false, " -- ; dump dictionary".to_owned(), f);
    proof {
        one_more_body(start, code, f, 4);
    }
    let ghost code = vm.code_buffer@;
    let f = P::from(Builtin::DumpStack);
    vm.define_primitive_word("dump-stack".to_owned(), false, " -- ; dump data stack".to_owned(), f);
    proof {
        one_more_body(start, code, f, 5);
    }
    let ghost code = vm.code_buffer@;
    let f = P::from(Builtin::DumpEnv);
    vm.define_primitive_word("dump-env".to_owned(), false, " -- ; dump environment stack".to_owned(), f);
    proof {
        one_more_body(start, code, f, 6);
    }
    let ghost code = vm.code_buffer@;
    let f = P::from(Builtin::DumpControlflowStack);
    vm.define_primitive_word("dump-controlflow-stack".to_owned(), false, " -- ; dump controlflow stack".to_owned(), f);
    proof {
        one_more_body(start, code, f, 7);
    }
}

/// The text of the script that defines the words which are made of the
/// words of this file.
pub const PRELOAD_SCRIPT: &'static str = r#"
    : trap ( -- ; trap anytime )
        [__user_trap__]
    ;

    : assert ( flg -- ; if flg is false then trap )
        ! if [__user_trap__] endif
    ;

    : assert-eq ( a b -- ; if a <> b then trap )
        <> if [__user_trap__] endif
    ;
"#;

/// The script that defines the words which are made of the words of this
/// file.
pub fn preload_script() -> (r: &'static str)
    ensures
        r == PRELOAD_SCRIPT,
{
    PRELOAD_SCRIPT
}

/// Whether a word that only writes may take the machine from `before` to
/// `after` and hand back `r`, where `text` is what the word writes: it goes
/// well, `text` has been handed to the standard output, and nothing else
/// has changed.
pub open spec fn shown<T, E, R, P>(
    before: Vm<T, E, R, P>,
    after: Vm<T, E, R, P>,
    r: Result<(), VmErrorReason<E>>,
    text: Seq<char>,
) -> bool {
    &&& r is Ok
    &&& after.written@ == before.written@ + text
    &&& after == (Vm { written: after.written, ..before })
}

/// Whether `dump-all` may take the machine from `before` to `after` and
/// hand back `r`: everything about the machine is written, the words in an
/// order in which a word with a body at a lower address comes first.
pub open spec fn dump_all_does<T: Text, E, R, P>(
    before: Vm<T, E, R, P>,
    after: Vm<T, E, R, P>,
    r: Result<(), VmErrorReason<E>>,
) -> bool {
    exists|names: Seq<Seq<char>>|
        dump::names_in_order(before.word_dictionary, names) && shown(
            before,
            after,
            r,
            #[trigger] dump::all_info_text(before, names),
        )
}

/// `dump-all`: hands everything about the machine to the standard output.
pub fn dump_all<T: Text, E, R: Resources, P: Copy>(vm: &mut Vm<T, E, R, P>) -> (r: Result<
    (),
    VmErrorReason<E>,
>)
    ensures
        dump_all_does(*old(vm), *final(vm), r),
{
    let mut msg = String::new();
    dump::dump_all_info(&*vm, &mut msg);
    let ghost names = choose|names: Seq<Seq<char>>|
        dump::names_in_order(vm.word_dictionary, names) && msg@ == Seq::<char>::empty()
            + #[trigger] dump::all_info_text(*vm, names);
    assert(msg@ =~= dump::all_info_text(*vm, names));
    vm.write_out(msg.as_str());
    assert(shown(*old(vm), *vm, Ok::<(), VmErrorReason<E>>(()), dump::all_info_text(*old(vm), names)));
    Ok(())
}

/// Whether `dump-vm-state` may take the machine from `before` to `after`
/// and hand back `r`: the state of the machine is written.
pub open spec fn dump_vm_state_does<T, E, R, P>(
    before: Vm<T, E, R, P>,
    after: Vm<T, E, R, P>,
    r: Result<(), VmErrorReason<E>>,
) -> bool {
    shown(before, after, r, dump::vm_state_text(before))
}

/// `dump-vm-state`: hands the state of the machine to the standard output.
pub fn dump_vm_state<T, E, R: Resources, P: Copy>(vm: &mut Vm<T, E, R, P>) -> (r: Result<
    (),
    VmErrorReason<E>,
>)
    ensures
        dump_vm_state_does(*old(vm), *final(vm), r),
{
    let mut msg = String::new();
    dump::dump_vm_sate(&*vm, &mut msg);
    assert(msg@ =~= dump::vm_state_text(*vm));
    vm.write_out(msg.as_str());
    Ok(())
}

/// Whether `see` may take the machine from `before` to `after` and hand
/// back `r`: once the name is read, the word of that name is written with
/// its body.
pub open spec fn dump_word_does<T: Text, E, R, P>(
    before: Vm<T, E, R, P>,
    after: Vm<T, E, R, P>,
    r: Result<(), VmErrorReason<E>>,
) -> bool {
    named_word(
        before,
        after,
        r,
        |read: Vm<T, E, R, P>, name: String, after: Vm<T, E, R, P>, res: Result<
            (),
            VmErrorReason<E>,
        >| shown(read, after, res, dump::word_code_text(read, name@)),
    )
}

/// `see`: hands the word whose name follows, with its body, to the
/// standard output.
pub fn dump_word<T: Text, E, R: Resources, P: Copy>(vm: &mut Vm<T, E, R, P>) -> (r: Result<
    (),
    VmErrorReason<E>,
>)
    ensures
        dump_word_does(*old(vm), *final(vm), r),
{
    let name = match call_with_name(vm) {
        Ok(n) => n,
        Err(e) => {
            return Err(e);
        },
    };
    let ghost read = *vm;
    let mut msg = String::new();
    dump::dump_word_code(&*vm, &name, &mut msg);
    assert(msg@ =~= dump::word_code_text(*vm, name@));
    vm.write_out(msg.as_str());
    assert(shown(read, *vm, Ok::<(), VmErrorReason<E>>(()), dump::word_code_text(read, name@)));
    Ok(())
}

/// Whether `dump-all-word` may take the machine from `before` to `after`
/// and hand back `r`: every word is written with its body, in an order in
/// which a word with a body at a lower address comes first.
pub open spec fn dump_all_word_does<T: Text, E, R, P>(
    before: Vm<T, E, R, P>,
    after: Vm<T, E, R, P>,
    r: Result<(), VmErrorReason<E>>,
) -> bool {
    exists|names: Seq<Seq<char>>|
        dump::names_in_order(before.word_dictionary, names) && shown(
            before,
            after,
            r,
            #[trigger] dump::all_word_code_text(before, names),
        )
}

/// `dump-all-word`: hands every word with its body to the standard output.
pub fn dump_all_word<T: Text, E, R: Resources, P: Copy>(vm: &mut Vm<T, E, R, P>) -> (r: Result<
    (),
    VmErrorReason<E>,
>)
    ensures
        dump_all_word_does(*old(vm), *final(vm), r),
{
    let mut msg = String::new();
    dump::dump_all_word_code(&*vm, &mut msg);
    let ghost names = choose|names: Seq<Seq<char>>|
        dump::names_in_order(vm.word_dictionary, names) && msg@ == Seq::<char>::empty()
            + #[trigger] dump::all_word_code_text(*vm, names);
    assert(msg@ =~= dump::all_word_code_text(*vm, names));
    vm.write_out(msg.as_str());
    assert(shown(
        *old(vm),
        *vm,
        Ok::<(), VmErrorReason<E>>(()),
        dump::all_word_code_text(*old(vm), names),
    ));
    Ok(())
}

/// Whether `words` may take the machine from `before` to `after` and hand
/// back `r`: the dictionary is written.
pub open spec fn dump_dictionary_does<T, E, R, P>(
    before: Vm<T, E, R, P>,
    after: Vm<T, E, R, P>,
    r: Result<(), VmErrorReason<E>>,
) -> bool {
    shown(before, after, r, before.word_dictionary.text())
}

/// `words`: hands the dictionary to the standard output.
pub fn dump_dictionary<T, E, R: Resources, P>(vm: &mut Vm<T, E, R, P>) -> (r: Result<
    (),
    VmErrorReason<E>,
>)
    ensures
        dump_dictionary_does(*old(vm), *final(vm), r),
{
    let mut msg = String::new();
    dump::dump_all_word(&*vm, &mut msg);
    assert(msg@ =~= vm.word_dictionary.text());
    vm.write_out(msg.as_str());
    Ok(())
}

/// Whether `dump-stack` may take the machine from `before` to `after` and
/// hand back `r`: the data stack is written.
pub open spec fn dump_stack_does<T: Text, E, R, P>(
    before: Vm<T, E, R, P>,
    after: Vm<T, E, R, P>,
    r: Result<(), VmErrorReason<E>>,
) -> bool {
    shown(before, after, r, before.data_stack.text())
}

/// `dump-stack`: hands the data stack to the standard output.
pub fn dump_stack<T: Text, E, R: Resources, P>(vm: &mut Vm<T, E, R, P>) -> (r: Result<
    (),
    VmErrorReason<E>,
>)
    ensures
        dump_stack_does(*old(vm), *final(vm), r),
{
    let mut msg = String::new();
    dump::dump_data_stack(&*vm, &mut msg);
    assert(msg@ =~= vm.data_stack.text());
    vm.write_out(msg.as_str());
    Ok(())
}

/// Whether `dump-env` may take the machine from `before` to `after` and
/// hand back `r`: the return stack and the environments are written.
pub open spec fn dump_env_does<T: Text, E, R, P>(
    before: Vm<T, E, R, P>,
    after: Vm<T, E, R, P>,
    r: Result<(), VmErrorReason<E>>,
) -> bool {
    shown(before, after, r, dump::env_text(before))
}

/// `dump-env`: hands the return stack and the environments to the standard
/// output.
pub fn dump_env<T: Text, E, R: Resources, P: Copy>(vm: &mut Vm<T, E, R, P>) -> (r: Result<
    (),
    VmErrorReason<E>,
>)
    ensures
        dump_env_does(*old(vm), *final(vm), r),
{
    let mut msg = String::new();
    dump::dump_env(&*vm, &mut msg);
    assert(msg@ =~= dump::env_text(*vm));
    vm.write_out(msg.as_str());
    Ok(())
}

/// Whether `dump-controlflow-stack` may take the machine from `before` to
/// `after` and hand back `r`: the control-flow stack is written.
pub open spec fn dump_controlflow_stack_does<T: Text, E, R, P>(
    before: Vm<T, E, R, P>,
    after: Vm<T, E, R, P>,
    r: Result<(), VmErrorReason<E>>,
) -> bool {
    shown(before, after, r, before.controlflow_stack.text())
}

/// `dump-controlflow-stack`: hands the control-flow stack to the standard
/// output.
pub fn dump_controlflow_stack<T: Text, E, R: Resources, P>(vm: &mut Vm<T, E, R, P>) -> (r: Result<
    (),
    VmErrorReason<E>,
>)
    ensures
        dump_controlflow_stack_does(*old(vm), *final(vm), r),
{
    let mut msg = String::new();
    dump::dump_controlflow_stack(&*vm, &mut msg);
    assert(msg@ =~= vm.controlflow_stack.text());
    vm.write_out(msg.as_str());
    Ok(())
}

} // verus!
