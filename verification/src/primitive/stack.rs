//! The words that move the values on the data stack.

use super::util::only_data_changed;
use super::util::pop_one;
use super::Builtin;
use crate::lang::mem::rolled;
use crate::lang::mem::BufferErrorReason;
use crate::lang::mem::DataStackErrorReason;
use crate::lang::value::Value;
use crate::lang::vm::data_underflow;
use crate::lang::vm::bodies_added;
use crate::lang::vm::one_more_body;
use crate::lang::vm::Vm;
use crate::lang::vm::VmErrorReason;
use vstd::prelude::*;

verus! {

/// Defines the words of this file.
pub fn initialize<T, E, R, P: Copy + From<Builtin>>(vm: &mut Vm<T, E, R, P>)
    ensures
        bodies_added(old(vm).code_buffer@, final(vm).code_buffer@, 4),
        final(vm).word_dictionary.committed().contains_key("drop"@),
        final(vm).word_dictionary.committed().contains_key("dup"@),
        final(vm).word_dictionary.committed().contains_key("pick"@),
        final(vm).word_dictionary.committed().contains_key("roll"@),
        final(vm).machine() == old(vm).machine(),
        final(vm).state == old(vm).state,
        forall|n: Seq<char>|
            old(vm).word_dictionary.committed().contains_key(n) ==> #[trigger] final(
                vm
            ).word_dictionary.committed().contains_key(n),
{
    let ghost start = vm.code_buffer@;
    assert(start.take(start.len() as int) =~= start);
    let ghost code = vm.code_buffer@;
    let f = P::from(Builtin::Drop);
    vm.define_primitive_word("drop".to_owned(), false, "a -- ; ".to_owned(), f);
    proof {
        one_more_body(start, code, f, 0);
    }
    let ghost code = vm.code_buffer@;
    let f = P::from(Builtin::Dup);
    vm.define_primitive_word("dup".to_owned(), false, "a -- a a; ".to_owned(), f);
    proof {
        one_more_body(start, code, f, 1);
    }
    let ghost code = vm.code_buffer@;
    let f = P::from(Builtin::Pick);
    vm.define_primitive_word(
        "pick".to_owned(),
        false,
        "Ac Ac-1 Ac-2 ... A0 c -- Ac Ac-1 Ac-2 ... A0 Ac; ".to_owned(),
        f,
    );
    proof {
        one_more_body(start, code, f, 2);
    }
    let ghost code = vm.code_buffer@;
    let f = P::from(Builtin::Roll);
    vm.define_primitive_word(
        "roll".to_owned(),
        false,
        "Ac Ac-1 Ac-2 ... A0 c -- Ac-1 Ac-2 ... A0 Ac; ".to_owned(),
        f,
    );
    proof {
        one_more_body(start, code, f, 3);
    }
}

/// The text of the script that defines the words which are made of the
/// words of this file.
pub const PRELOAD_SCRIPT: &'static str = r#"
    #?dup
    : swap ( a b -- b a; ) 1 roll ;
    : over ( a b -- a b a; ) 1 pick ;
    : rot ( a b c -- b c a; ) 2 roll ;
    : down ( a b c -- c a b; ) rot rot ;
    : nip ( a b -- b; ) swap drop ;
    : tuck ( a b -- b a b; ) swap over ;
    : 2drop ( a b -- ; ) drop drop ;
    : 2dup ( a b -- ; ) over over ;
    : 2over ( a b c d -- a b c d a b ; ) 3 pick 2 pick ;
    : 2swap ( a b c d -- c d a b ; ) 3 roll 3 roll ;
"#;

/// The script that defines the words which are made of the words of this
/// file.
pub fn preload_script() -> (r: &'static str)
    ensures
        r == PRELOAD_SCRIPT,
{
    PRELOAD_SCRIPT
}

/// Whether `drop` may take the machine from `before` to `after` and hand
/// back `r`.
pub open spec fn drop_does<T, E, R, P>(
    before: Vm<T, E, R, P>,
    after: Vm<T, E, R, P>,
    r: Result<(), VmErrorReason<E>>,
) -> bool {
    &&& only_data_changed(before, after)
    &&& if before.data_stack@.len() == 0 {
        r == Err::<(), VmErrorReason<E>>(data_underflow()) && after.data_stack@.len() == 0
    } else {
        r is Ok && after.data_stack@ == before.data_stack@.drop_last()
    }
}

/// `drop`: takes the value on top off.
pub fn drop<T, E, R, P>(vm: &mut Vm<T, E, R, P>) -> (r: Result<(), VmErrorReason<E>>)
    ensures
        drop_does(*old(vm), *final(vm), r),
{
    match pop_one(vm) {
        Ok(_) => Ok(()),
        Err(e) => Err(e),
    }
}

/// Whether `dup` may take the machine from `before` to `after` and hand
/// back `r`.
pub open spec fn dup_does<T, E, R, P>(
    before: Vm<T, E, R, P>,
    after: Vm<T, E, R, P>,
    r: Result<(), VmErrorReason<E>>,
) -> bool {
    &&& only_data_changed(before, after)
    &&& if before.data_stack@.len() == 0 {
        r == Err::<(), VmErrorReason<E>>(data_underflow()) && after.data_stack@.len() == 0
    } else {
        r is Ok && after.data_stack@ == before.data_stack@.push(
            before.data_stack@.last(),
        )
    }
}

/// `dup`: puts the value on top on the stack once more.
pub fn dup<T, E, R, P>(vm: &mut Vm<T, E, R, P>) -> (r: Result<(), VmErrorReason<E>>)
    ensures
        dup_does(*old(vm), *final(vm), r),
{
    let top = match vm.data_stack.peek() {
        Ok(v) => v,
        Err(e) => {
            return Err(VmErrorReason::DataStackAccessError(e));
        },
    };
    vm.data_stack.push(top);
    Ok(())
}

/// The failure of an access to the data stack at a place that it does not
/// have.
pub open spec fn data_out_of_range<E>(len: usize, pos: usize) -> VmErrorReason<E> {
    VmErrorReason::DataStackAccessError(
        DataStackErrorReason::BufferAccessError(BufferErrorReason::OutOfRangeAccess(len, pos)),
    )
}

/// Whether a word that takes a count off the data stack and then works on
/// the value that lies that many places below the top may take the machine
/// from `before` to `after` and hand back `r`, where `moved(rest, pos)` is
/// the stack that the word leaves.
pub open spec fn counting_word<T, E, R, P>(
    before: Vm<T, E, R, P>,
    after: Vm<T, E, R, P>,
    r: Result<(), VmErrorReason<E>>,
    moved: spec_fn(Seq<std::rc::Rc<Value<T>>>, int) -> Seq<std::rc::Rc<Value<T>>>,
) -> bool {
    let data = before.data_stack@;
    &&& only_data_changed(before, after)
    &&& if data.len() == 0 {
        r == Err::<(), VmErrorReason<E>>(data_underflow()) && after.data_stack@.len() == 0
    } else {
        let rest = data.drop_last();
        match *data.last() {
            Value::IntValue(c) => {
                let pos = Value::<T>::spec_index_of_int(c);
                if pos < rest.len() {
                    r is Ok && after.data_stack@ == moved(rest, pos as int)
                } else {
                    r == Err::<(), VmErrorReason<E>>(
                        data_out_of_range(rest.len() as usize, pos),
                    ) && after.data_stack@ == rest
                }
            },
            _ => r is Err && super::util::no_integer(r->Err_0, data.last().spec_type_name())
                && after.data_stack@ == rest,
        }
    }
}

/// Whether `pick` may take the machine from `before` to `after` and hand
/// back `r`.
pub open spec fn pick_does<T, E, R, P>(
    before: Vm<T, E, R, P>,
    after: Vm<T, E, R, P>,
    r: Result<(), VmErrorReason<E>>,
) -> bool {
    &&& counting_word(
        before,
        after,
        r,
        |rest: Seq<std::rc::Rc<Value<T>>>, pos: int| rest.push(rest[rest.len() - 1 - pos]),
    )
}

/// `pick`: takes a count off and puts the value that lies that many places
/// below the top on the stack once more.
pub fn pick<T, E, R, P>(vm: &mut Vm<T, E, R, P>) -> (r: Result<(), VmErrorReason<E>>)
    ensures
        pick_does(*old(vm), *final(vm), r),
{
    let top = match pop_one(vm) {
        Ok(v) => v,
        Err(e) => {
            return Err(e);
        },
    };
    let pos = match (*top).try_into_usize() {
        Ok(p) => p,
        Err(e) => {
            return Err(VmErrorReason::TypeMismatchError(e));
        },
    };
    match vm.data_stack.pick(pos) {
        Ok(_) => Ok(()),
        Err(e) => Err(VmErrorReason::DataStackAccessError(e)),
    }
}

/// Whether `roll` may take the machine from `before` to `after` and hand
/// back `r`.
pub open spec fn roll_does<T, E, R, P>(
    before: Vm<T, E, R, P>,
    after: Vm<T, E, R, P>,
    r: Result<(), VmErrorReason<E>>,
) -> bool {
    &&& counting_word(
        before,
        after,
        r,
        |rest: Seq<std::rc::Rc<Value<T>>>, pos: int| rolled(rest, pos),
    )
}

/// `roll`: takes a count off and moves the value that lies that many
/// places below the top to the top.
pub fn roll<T, E, R, P>(vm: &mut Vm<T, E, R, P>) -> (r: Result<(), VmErrorReason<E>>)
    ensures
        roll_does(*old(vm), *final(vm), r),
{
    let top = match pop_one(vm) {
        Ok(v) => v,
        Err(e) => {
            return Err(e);
        },
    };
    let pos = match (*top).try_into_usize() {
        Ok(p) => p,
        Err(e) => {
            return Err(VmErrorReason::TypeMismatchError(e));
        },
    };
    match vm.data_stack.roll(pos) {
        Ok(_) => Ok(()),
        Err(e) => Err(VmErrorReason::DataStackAccessError(e)),
    }
}

} // verus!
