//! The words that write.

use super::util::kept;
use super::util::pop_one;
use super::util::untouched;
use super::util::Touched;
use super::Builtin;
use crate::lang::resource::Resources;
use crate::lang::text::Text;
use crate::lang::vm::data_underflow;
use crate::lang::vm::bodies_added;
use crate::lang::vm::one_more_body;
use crate::lang::vm::Vm;
use crate::lang::vm::VmErrorReason;
use vstd::prelude::*;

verus! {

/// Defines the words of this file.
pub fn initialize<T, E, R, P: Copy + From<Builtin>>(vm: &mut Vm<T, E, R, P>)
    ensures
        bodies_added(old(vm).code_buffer@, final(vm).code_buffer@, 2),
        final(vm).word_dictionary.committed().contains_key("."@),
        final(vm).word_dictionary.committed().contains_key("cr"@),
        final(vm).machine() == old(vm).machine(),
        final(vm).state == old(vm).state,
        forall|n: Seq<char>|
            old(vm).word_dictionary.committed().contains_key(n) ==> #[trigger] final(
                vm
            ).word_dictionary.committed().contains_key(n),
{
    let ghost start = vm.code_buffer@;
    assert(start.take(start.len() as int) =~= start);
    let ghost code = vm.code_buffer@;
    let f = P::from(Builtin::Dot);
    vm.define_primitive_word(".".to_owned(), false, "a -- ; print a".to_owned(), f);
    proof {
        one_more_body(start, code, f, 0);
    }
    let ghost code = vm.code_buffer@;
    let f = P::from(Builtin::Cr);
    vm.define_primitive_word("cr".to_owned(), false, " -- ; print cr".to_owned(), f);
    proof {
        one_more_body(start, code, f, 1);
    }
}

/// The text of the script that defines the words which are made of the
/// words of this file: it defines none.
pub const PRELOAD_SCRIPT: &'static str = r#"

"#;

/// The script that defines the words which are made of the words of this
/// file.
pub fn preload_script() -> (r: &'static str)
    ensures
        r == PRELOAD_SCRIPT,
{
    PRELOAD_SCRIPT
}

/// Whether `.` may take the machine from `before` to `after` and hand
/// back `r`.
pub open spec fn dot_does<T: Text, E, R, P>(
    before: Vm<T, E, R, P>,
    after: Vm<T, E, R, P>,
    r: Result<(), VmErrorReason<E>>,
) -> bool {
    &&& kept(before, after, (Touched { data: true, written: true, ..untouched() }))
    &&& if before.data_stack@.len() == 0 {
        r == Err::<(), VmErrorReason<E>>(data_underflow()) && after.data_stack@.len() == 0
            && after.written == before.written
    } else {
        r is Ok && after.data_stack@ == before.data_stack@.drop_last() && after.written@
            == before.written@ + before.data_stack@.last().text()
    }
}

/// `.`: takes the value on top of the data stack off and hands what is
/// written for it to the standard output.
pub fn dot<T: Text, E, R: Resources, P>(vm: &mut Vm<T, E, R, P>) -> (r: Result<(), VmErrorReason<E>>)
    ensures
        dot_does(*old(vm), *final(vm), r),
{
    let top = match pop_one(vm) {
        Ok(v) => v,
        Err(e) => {
            return Err(e);
        },
    };
    let mut s = String::new();
    top.write_text(&mut s);
    assert(s@ =~= top.text());
    vm.write_out(s.as_str());
    Ok(())
}

/// Whether `cr` may take the machine from `before` to `after` and hand
/// back `r`.
pub open spec fn cr_does<T, E, R, P>(
    before: Vm<T, E, R, P>,
    after: Vm<T, E, R, P>,
    r: Result<(), VmErrorReason<E>>,
) -> bool {
    &&& r is Ok
    &&& after.written@ == before.written@ + "\n"@
    &&& after == (Vm { written: after.written, ..before })
}

/// `cr`: hands a line feed to the standard output.
pub fn cr<T, E, R: Resources, P>(vm: &mut Vm<T, E, R, P>) -> (r: Result<(), VmErrorReason<E>>)
    ensures
        cr_does(*old(vm), *final(vm), r),
{
    vm.write_out("\n");
    Ok(())
}

} // verus!
