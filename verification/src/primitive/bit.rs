//! The words that work on the 32 bits of an integer.

use super::util::binary_int_word;
use super::util::call_ifi;
use super::util::call_iifi;
use super::util::unary_int_word;
use super::Builtin;
use crate::lang::vm::bodies_added;
use crate::lang::vm::one_more_body;
use crate::lang::vm::Vm;
use crate::lang::vm::VmErrorReason;
use vstd::prelude::*;

verus! {

/// Defines the words of this file.
pub fn initialize<T, E, R, P: Copy + From<Builtin>>(vm: &mut Vm<T, E, R, P>)
    ensures
        bodies_added(old(vm).code_buffer@, final(vm).code_buffer@, 7),
        final(vm).word_dictionary.committed().contains_key("and"@),
        final(vm).word_dictionary.committed().contains_key("or"@),
        final(vm).word_dictionary.committed().contains_key("xor"@),
        final(vm).word_dictionary.committed().contains_key("not"@),
        final(vm).word_dictionary.committed().contains_key("<<"@),
        final(vm).word_dictionary.committed().contains_key(">>"@),
        final(vm).word_dictionary.committed().contains_key("A>>"@),
        final(vm).machine() == old(vm).machine(),
        final(vm).state == old(vm).state,
        forall|n: Seq<char>|
            old(vm).word_dictionary.committed().contains_key(n) ==> #[trigger] final(
                vm
            ).word_dictionary.committed().contains_key(n),
{
    let ghost start = vm.code_buffer@;
    assert(start.take(start.len() as int) =~= start);
    let ghost code = vm.code_buffer@;
    let f = P::from(Builtin::BitAnd);
    vm.define_primitive_word(
        "and".to_owned(),
        false,
        "a b -- [a&b]; ".to_owned(),
        f,
    );
    proof {
        one_more_body(start, code, f, 0);
    }
    let ghost code = vm.code_buffer@;
    let f = P::from(Builtin::BitOr);
    vm.define_primitive_word("or".to_owned(), false, "a b -- [a|b]; ".to_owned(), f);
    proof {
        one_more_body(start, code, f, 1);
    }
    let ghost code = vm.code_buffer@;
    let f = P::from(Builtin::BitXor);
    vm.define_primitive_word(
        "xor".to_owned(),
        false,
        "a b -- [a^b]; ".to_owned(),
        f,
    );
    proof {
        one_more_body(start, code, f, 2);
    }
    let ghost code = vm.code_buffer@;
    let f = P::from(Builtin::BitNot);
    vm.define_primitive_word("not".to_owned(), false, "a -- [!a]; ".to_owned(), f);
    proof {
        one_more_body(start, code, f, 3);
    }
    let ghost code = vm.code_buffer@;
    let f = P::from(Builtin::LShift);
    vm.define_primitive_word(
        "<<".to_owned(),
        false,
        "a b -- [a<<b]; left shift".to_owned(),
        f,
    );
    proof {
        one_more_body(start, code, f, 4);
    }
    let ghost code = vm.code_buffer@;
    let f = P::from(Builtin::RShift);
    vm.define_primitive_word(
        ">>".to_owned(),
        false,
        "a b -- [a>>b]; logical right shift".to_owned(),
        f,
    );
    proof {
        one_more_body(start, code, f, 5);
    }
    let ghost code = vm.code_buffer@;
    let f = P::from(Builtin::ARShift);
    vm.define_primitive_word(
        "A>>".to_owned(),
        false,
        "a b -- [a<<b]; arithmetic right shift".to_owned(),
        f,
    );
    proof {
        one_more_body(start, code, f, 6);
    }
}

/// The text of the script that defines the words which are made of the
/// words of this file.
pub const PRELOAD_SCRIPT: &'static str = r#"

"#;

/// The script that defines the words which are made of the words of this
/// file.
pub fn preload_script() -> (r: &'static str)
    ensures
        r == PRELOAD_SCRIPT,
{
    PRELOAD_SCRIPT
}

/// The 32 bits of `v` as a number without sign.
pub open spec fn bits_of(v: i32) -> u32 {
    if v >= 0 {
        v as u32
    } else {
        (v + 0x1_0000_0000) as u32
    }
}

/// The integer that has the 32 bits `b`.
pub open spec fn int_of_bits(b: u32) -> i32 {
    if b < 0x8000_0000 {
        b as i32
    } else {
        (b - 0x1_0000_0000) as i32
    }
}

/// The 32 bits of `v` as a number without sign.
fn to_bits(v: i32) -> (b: u32)
    ensures
        b == bits_of(v),
{
    if v >= 0 {
        v as u32
    } else {
        let wide: i64 = (v as i64) + 0x1_0000_0000;
        wide as u32
    }
}

/// The integer that has the 32 bits `b`.
fn from_bits(b: u32) -> (v: i32)
    ensures
        v == int_of_bits(b),
{
    if b < 0x8000_0000 {
        b as i32
    } else {
        let wide: i64 = (b as i64) - 0x1_0000_0000;
        wide as i32
    }
}

/// The bits that both integers have.
fn bit_and(lhs: i32, rhs: i32) -> (x: i32)
    ensures
        x == int_of_bits(bits_of(lhs) & bits_of(rhs)),
{
    from_bits(to_bits(lhs) & to_bits(rhs))
}

/// The bits that one of the integers has.
fn bit_or(lhs: i32, rhs: i32) -> (x: i32)
    ensures
        x == int_of_bits(bits_of(lhs) | bits_of(rhs)),
{
    from_bits(to_bits(lhs) | to_bits(rhs))
}

/// The bits that one of the integers has and the other has not.
fn bit_xor(lhs: i32, rhs: i32) -> (x: i32)
    ensures
        x == int_of_bits(bits_of(lhs) ^ bits_of(rhs)),
{
    from_bits(to_bits(lhs) ^ to_bits(rhs))
}

/// The bits that the integer has not.
fn bit_not(v: i32) -> (x: i32)
    ensures
        x == int_of_bits(!bits_of(v)),
{
    from_bits(!to_bits(v))
}

/// The bits of `lhs` moved up by the places that the low five bits of
/// `rhs` say.
fn shift_left(lhs: i32, rhs: i32) -> (x: i32)
    ensures
        x == int_of_bits(bits_of(lhs).wrapping_shl(bits_of(rhs))),
{
    from_bits(to_bits(lhs).wrapping_shl(to_bits(rhs)))
}

/// The bits of `lhs` moved down by the places that the low five bits of
/// `rhs` say; zeros come in from above.
fn shift_right(lhs: i32, rhs: i32) -> (x: i32)
    ensures
        x == int_of_bits(bits_of(lhs).wrapping_shr(bits_of(rhs))),
{
    from_bits(to_bits(lhs).wrapping_shr(to_bits(rhs)))
}

/// The bits of `lhs` moved down by the places that the low five bits of
/// `rhs` say; the sign comes in from above.
fn shift_right_keeping_sign(lhs: i32, rhs: i32) -> (x: i32)
    ensures
        x == lhs.wrapping_shr(bits_of(rhs)),
{
    lhs.wrapping_shr(to_bits(rhs))
}

/// Whether `and` may take the machine from `before` to `after` and hand
/// back `r`.
pub open spec fn and_does<T, E, R, P>(
    before: Vm<T, E, R, P>,
    after: Vm<T, E, R, P>,
    r: Result<(), VmErrorReason<E>>,
) -> bool {
    &&& binary_int_word(
        before,
        after,
        r,
        |a: i32, b: i32, x: i32| x == int_of_bits(bits_of(a) & bits_of(b)),
    )
}

/// `and`: the bits that both integers have.
pub fn and<T, E, R, P>(vm: &mut Vm<T, E, R, P>) -> (r: Result<(), VmErrorReason<E>>)
    ensures
        and_does(*old(vm), *final(vm), r),
{
    call_iifi(vm, bit_and)
}

/// Whether `or` may take the machine from `before` to `after` and hand
/// back `r`.
pub open spec fn or_does<T, E, R, P>(
    before: Vm<T, E, R, P>,
    after: Vm<T, E, R, P>,
    r: Result<(), VmErrorReason<E>>,
) -> bool {
    &&& binary_int_word(
        before,
        after,
        r,
        |a: i32, b: i32, x: i32| x == int_of_bits(bits_of(a) | bits_of(b)),
    )
}

/// `or`: the bits that one of the integers has.
pub fn or<T, E, R, P>(vm: &mut Vm<T, E, R, P>) -> (r: Result<(), VmErrorReason<E>>)
    ensures
        or_does(*old(vm), *final(vm), r),
{
    call_iifi(vm, bit_or)
}

/// Whether `xor` may take the machine from `before` to `after` and hand
/// back `r`.
pub open spec fn xor_does<T, E, R, P>(
    before: Vm<T, E, R, P>,
    after: Vm<T, E, R, P>,
    r: Result<(), VmErrorReason<E>>,
) -> bool {
    &&& binary_int_word(
        before,
        after,
        r,
        |a: i32, b: i32, x: i32| x == int_of_bits(bits_of(a) ^ bits_of(b)),
    )
}

/// `xor`: the bits that one of the integers has and the other has not.
pub fn xor<T, E, R, P>(vm: &mut Vm<T, E, R, P>) -> (r: Result<(), VmErrorReason<E>>)
    ensures
        xor_does(*old(vm), *final(vm), r),
{
    call_iifi(vm, bit_xor)
}

/// Whether `not` may take the machine from `before` to `after` and hand
/// back `r`.
pub open spec fn not_does<T, E, R, P>(
    before: Vm<T, E, R, P>,
    after: Vm<T, E, R, P>,
    r: Result<(), VmErrorReason<E>>,
) -> bool {
    &&& unary_int_word(before, after, r, |a: i32, x: i32| x == int_of_bits(!bits_of(a)))
}

/// `not`: the bits that the integer has not.
pub fn not<T, E, R, P>(vm: &mut Vm<T, E, R, P>) -> (r: Result<(), VmErrorReason<E>>)
    ensures
        not_does(*old(vm), *final(vm), r),
{
    call_ifi(vm, bit_not)
}

/// Whether `<<` may take the machine from `before` to `after` and hand
/// back `r`.
pub open spec fn lshift_does<T, E, R, P>(
    before: Vm<T, E, R, P>,
    after: Vm<T, E, R, P>,
    r: Result<(), VmErrorReason<E>>,
) -> bool {
    &&& binary_int_word(
        before,
        after,
        r,
        |a: i32, b: i32, x: i32| x == int_of_bits(bits_of(a).wrapping_shl(bits_of(b))),
    )
}

/// `<<`: the bits of an integer moved up.
pub fn lshift<T, E, R, P>(vm: &mut Vm<T, E, R, P>) -> (r: Result<(), VmErrorReason<E>>)
    ensures
        lshift_does(*old(vm), *final(vm), r),
{
    call_iifi(vm, shift_left)
}

/// Whether `>>` may take the machine from `before` to `after` and hand
/// back `r`.
pub open spec fn rshift_does<T, E, R, P>(
    before: Vm<T, E, R, P>,
    after: Vm<T, E, R, P>,
    r: Result<(), VmErrorReason<E>>,
) -> bool {
    &&& binary_int_word(
        before,
        after,
        r,
        |a: i32, b: i32, x: i32| x == int_of_bits(bits_of(a).wrapping_shr(bits_of(b))),
    )
}

/// `>>`: the bits of an integer moved down, zeros coming in.
pub fn rshift<T, E, R, P>(vm: &mut Vm<T, E, R, P>) -> (r: Result<(), VmErrorReason<E>>)
    ensures
        rshift_does(*old(vm), *final(vm), r),
{
    call_iifi(vm, shift_right)
}

/// Whether `A>>` may take the machine from `before` to `after` and hand
/// back `r`.
pub open spec fn arshift_does<T, E, R, P>(
    before: Vm<T, E, R, P>,
    after: Vm<T, E, R, P>,
    r: Result<(), VmErrorReason<E>>,
) -> bool {
    &&& binary_int_word(
        before,
        after,
        r,
        |a: i32, b: i32, x: i32| x == a.wrapping_shr(bits_of(b)),
    )
}

/// `A>>`: the bits of an integer moved down, the sign coming in.
pub fn arshift<T, E, R, P>(vm: &mut Vm<T, E, R, P>) -> (r: Result<(), VmErrorReason<E>>)
    ensures
        arshift_does(*old(vm), *final(vm), r),
{
    call_iifi(vm, shift_right_keeping_sign)
}

} // verus!
