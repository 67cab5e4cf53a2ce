//! The words of arithmetic. Sums, differences and products that do not fit
//! 32 bits are cut to 32 bits.

use super::util::binary_int_word;
use super::util::call_iifi;
use super::util::int_of;
use super::util::int_pair;
use super::util::no_integer;
use super::util::only_data_changed;
use super::util::pop_pair;
use super::Builtin;
use crate::lang::value::Address;
use crate::lang::value::CodeAddress;
use crate::lang::value::DataAddress;
use crate::lang::value::EnvironmentStackRelativeAddress;
use crate::lang::value::TypeMismatchError;
use crate::lang::value::Value;
use crate::lang::vm::data_underflow;
use crate::lang::vm::bodies_added;
use crate::lang::vm::one_more_body;
use crate::lang::vm::Vm;
use crate::lang::vm::VmErrorReason;
use std::rc::Rc;
use vstd::prelude::*;

verus! {

/// Defines the words of this file.
pub fn initialize<T, E, R, P: Copy + From<Builtin>>(vm: &mut Vm<T, E, R, P>)
    ensures
        bodies_added(old(vm).code_buffer@, final(vm).code_buffer@, 8),
        final(vm).word_dictionary.committed().contains_key("+"@),
        final(vm).word_dictionary.committed().contains_key("-"@),
        final(vm).word_dictionary.committed().contains_key("*"@),
        final(vm).word_dictionary.committed().contains_key("/"@),
        final(vm).word_dictionary.committed().contains_key("%"@),
        final(vm).word_dictionary.committed().contains_key("c+"@),
        final(vm).word_dictionary.committed().contains_key("d+"@),
        final(vm).word_dictionary.committed().contains_key("e+"@),
        final(vm).machine() == old(vm).machine(),
        final(vm).state == old(vm).state,
        forall|n: Seq<char>|
            old(vm).word_dictionary.committed().contains_key(n) ==> #[trigger] final(
                vm
            ).word_dictionary.committed().contains_key(n),
{
    let ghost start = vm.code_buffer@;
    assert(start.take(start.len() as int) =~= start);
    let ghost code = vm.code_buffer@;
    let f = P::from(Builtin::Plus);
    vm.define_primitive_word("+".to_owned(), false, "a b -- [a+b]; ".to_owned(), f);
    proof {
        one_more_body(start, code, f, 0);
    }
    let ghost code = vm.code_buffer@;
    let f = P::from(Builtin::Minus);
    vm.define_primitive_word(
        "-".to_owned(),
        false,
        "a b -- [a-b]; ".to_owned(),
        f,
    );
    proof {
        one_more_body(start, code, f, 1);
    }
    let ghost code = vm.code_buffer@;
    let f = P::from(Builtin::Multiple);
    vm.define_primitive_word(
        "*".to_owned(),
        false,
        "a b -- [a*b]; ".to_owned(),
        f,
    );
    proof {
        one_more_body(start, code, f, 2);
    }
    let ghost code = vm.code_buffer@;
    let f = P::from(Builtin::Division);
    vm.define_primitive_word(
        "/".to_owned(),
        false,
        "a b -- [a/b]; ".to_owned(),
        f,
    );
    proof {
        one_more_body(start, code, f, 3);
    }
    let ghost code = vm.code_buffer@;
    let f = P::from(Builtin::Modulus);
    vm.define_primitive_word(
        "%".to_owned(),
        false,
        "a b -- [a%b]; ".to_owned(),
        f,
    );
    proof {
        one_more_body(start, code, f, 4);
    }
    let ghost code = vm.code_buffer@;
    let f = P::from(Builtin::CPlus);
    vm.define_primitive_word(
        "c+".to_owned(),
        false,
        "a b -- [a+b]; result is CodeAddress".to_owned(),
        f,
    );
    proof {
        one_more_body(start, code, f, 5);
    }
    let ghost code = vm.code_buffer@;
    let f = P::from(Builtin::DPlus);
    vm.define_primitive_word(
        "d+".to_owned(),
        false,
        "a b -- [a+b]; resutt is DataAddress".to_owned(),
        f,
    );
    proof {
        one_more_body(start, code, f, 6);
    }
    let ghost code = vm.code_buffer@;
    let f = P::from(Builtin::EPlus);
    vm.define_primitive_word(
        "e+".to_owned(),
        false,
        "a b -- [a+b]; result is EnvAddress".to_owned(),
        f,
    );
    proof {
        one_more_body(start, code, f, 7);
    }
}

/// The text of the script that defines the words which are made of the
/// words of this file.
pub const PRELOAD_SCRIPT: &'static str = r#"
    : 1+ ( a -- [a+1]; increament )
        1 +
    ;
    : 1- ( a -- [a-1]; decreament )
        1 -
    ;
"#;

/// The script that defines the words which are made of the words of this
/// file.
pub fn preload_script() -> (r: &'static str)
    ensures
        r == PRELOAD_SCRIPT,
{
    PRELOAD_SCRIPT
}

/// The sum of two integers, cut to 32 bits.
fn wrapping_add(lhs: i32, rhs: i32) -> (x: i32)
    ensures
        x == lhs.wrapping_add(rhs),
{
    lhs.wrapping_add(rhs)
}

/// The difference of two integers, cut to 32 bits.
fn wrapping_sub(lhs: i32, rhs: i32) -> (x: i32)
    ensures
        x == lhs.wrapping_sub(rhs),
{
    lhs.wrapping_sub(rhs)
}

/// The product of two integers, cut to 32 bits.
fn wrapping_mul(lhs: i32, rhs: i32) -> (x: i32)
    ensures
        x == lhs.wrapping_mul(rhs),
{
    lhs.wrapping_mul(rhs)
}

/// Whether `+` may take the machine from `before` to `after` and hand
/// back `r`.
pub open spec fn plus_does<T, E, R, P>(
    before: Vm<T, E, R, P>,
    after: Vm<T, E, R, P>,
    r: Result<(), VmErrorReason<E>>,
) -> bool {
    &&& binary_int_word(before, after, r, |a: i32, b: i32, x: i32| x == a.wrapping_add(b))
}

/// `+`: the sum of two integers.
pub fn plus<T, E, R, P>(vm: &mut Vm<T, E, R, P>) -> (r: Result<(), VmErrorReason<E>>)
    ensures
        plus_does(*old(vm), *final(vm), r),
{
    call_iifi(vm, wrapping_add)
}

/// Whether `-` may take the machine from `before` to `after` and hand
/// back `r`.
pub open spec fn minus_does<T, E, R, P>(
    before: Vm<T, E, R, P>,
    after: Vm<T, E, R, P>,
    r: Result<(), VmErrorReason<E>>,
) -> bool {
    &&& binary_int_word(before, after, r, |a: i32, b: i32, x: i32| x == a.wrapping_sub(b))
}

/// `-`: the difference of two integers.
pub fn minus<T, E, R, P>(vm: &mut Vm<T, E, R, P>) -> (r: Result<(), VmErrorReason<E>>)
    ensures
        minus_does(*old(vm), *final(vm), r),
{
    call_iifi(vm, wrapping_sub)
}

/// Whether `*` may take the machine from `before` to `after` and hand
/// back `r`.
pub open spec fn multiple_does<T, E, R, P>(
    before: Vm<T, E, R, P>,
    after: Vm<T, E, R, P>,
    r: Result<(), VmErrorReason<E>>,
) -> bool {
    &&& binary_int_word(before, after, r, |a: i32, b: i32, x: i32| x == a.wrapping_mul(b))
}

/// `*`: the product of two integers.
pub fn multiple<T, E, R, P>(vm: &mut Vm<T, E, R, P>) -> (r: Result<(), VmErrorReason<E>>)
    ensures
        multiple_does(*old(vm), *final(vm), r),
{
    call_iifi(vm, wrapping_mul)
}

/// How far `a` is from zero.
pub open spec fn magnitude(a: i32) -> nat {
    if a < 0 {
        (-a) as nat
    } else {
        a as nat
    }
}

/// The integer with the sign that is given and the magnitude `m`, cut to
/// 32 bits.
pub open spec fn signed(negative: bool, m: nat) -> i32 {
    if negative {
        (-m) as i32
    } else if m > 0x7fff_ffff {
        (m - 0x1_0000_0000) as i32
    } else {
        m as i32
    }
}

/// The quotient of `a` by `b`, rounded towards zero and cut to 32 bits.
pub open spec fn quotient(a: i32, b: i32) -> i32 {
    signed((a < 0) != (b < 0) && magnitude(a) / magnitude(b) != 0, magnitude(a) / magnitude(b))
}

/// What is left of `a` when `b` is taken from it as often as the quotient
/// says; it has the sign of `a`.
pub open spec fn remainder(a: i32, b: i32) -> i32 {
    signed(a < 0 && magnitude(a) % magnitude(b) != 0, magnitude(a) % magnitude(b))
}

/// How far `a` is from zero.
fn magnitude_of(a: i32) -> (m: u32)
    ensures
        m == magnitude(a),
{
    if a < 0 {
        let wide: i64 = 0 - (a as i64);
        wide as u32
    } else {
        a as u32
    }
}

/// The integer with the sign that is given and the magnitude `m`.
fn with_sign(negative: bool, m: u32) -> (r: i32)
    requires
        m <= 0x8000_0000,
    ensures
        r == signed(negative, m as nat),
{
    if negative {
        let wide: i64 = 0 - (m as i64);
        wide as i32
    } else if m > 0x7fff_ffff {
        i32::MIN
    } else {
        m as i32
    }
}

/// Whether a word that divides may take the machine from `before` to
/// `after` and hand back `r`, where `made(a, b)` is what the word makes of
/// the integers `a` and `b`. A division by zero fails, the operands off
/// the stack.
pub open spec fn dividing_word<T, E, R, P>(
    before: Vm<T, E, R, P>,
    after: Vm<T, E, R, P>,
    r: Result<(), VmErrorReason<E>>,
    made: spec_fn(i32, i32) -> i32,
) -> bool {
    let data = before.data_stack@;
    &&& only_data_changed(before, after)
    &&& if data.len() < 2 {
        r == Err::<(), VmErrorReason<E>>(data_underflow()) && after.data_stack@.len() == 0
    } else {
        match int_pair(*data[data.len() - 2], *data[data.len() - 1]) {
            Ok((a, b)) => if b == 0 {
                r == Err::<(), VmErrorReason<E>>(VmErrorReason::InstructionError("division by zero"))
                    && after.data_stack@ == data.take(data.len() - 2)
            } else {
                r is Ok && after.data_stack@.len() == data.len() - 1
                    && after.data_stack@.drop_last() == data.take(data.len() - 2)
                    && *after.data_stack@.last() == Value::<T>::IntValue(made(a, b))
            },
            Err(actual) => r is Err && no_integer(r->Err_0, actual) && after.data_stack@
                == data.take(data.len() - 2),
        }
    }
}

/// Takes two integers off the data stack, of which the upper is not to be
/// zero.
fn pop_dividend_and_divisor<T, E, R, P>(vm: &mut Vm<T, E, R, P>) -> (r: Result<
    (i32, i32),
    VmErrorReason<E>,
>)
    ensures
        only_data_changed(*old(vm), *final(vm)),
        if old(vm).data_stack@.len() < 2 {
            r == Err::<(i32, i32), VmErrorReason<E>>(data_underflow()) && final(
                vm
            ).data_stack@.len() == 0
        } else {
            final(vm).data_stack@ == old(vm).data_stack@.take(old(vm).data_stack@.len() - 2)
                && match int_pair(
                *old(vm).data_stack@[old(vm).data_stack@.len() - 2],
                *old(vm).data_stack@[old(vm).data_stack@.len() - 1],
            ) {
                Ok((a, b)) => if b == 0 {
                    r == Err::<(i32, i32), VmErrorReason<E>>(
                        VmErrorReason::InstructionError("division by zero"),
                    )
                } else {
                    r == Ok::<(i32, i32), VmErrorReason<E>>((a, b))
                },
                Err(actual) => r is Err && no_integer(r->Err_0, actual),
            }
        },
{
    let (lhs, rhs) = match pop_pair(vm) {
        Ok(p) => p,
        Err(e) => {
            return Err(e);
        },
    };
    let a: i32 = match int_of(&*lhs) {
        Ok(v) => v,
        Err(e) => {
            return Err(e);
        },
    };
    let b: i32 = match int_of(&*rhs) {
        Ok(v) => v,
        Err(e) => {
            return Err(e);
        },
    };
    if b == 0 {
        return Err(VmErrorReason::InstructionError("division by zero"));
    }
    Ok((a, b))
}

/// Whether `/` may take the machine from `before` to `after` and hand
/// back `r`.
pub open spec fn division_does<T, E, R, P>(
    before: Vm<T, E, R, P>,
    after: Vm<T, E, R, P>,
    r: Result<(), VmErrorReason<E>>,
) -> bool {
    &&& dividing_word(before, after, r, |a: i32, b: i32| quotient(a, b))
}

/// `/`: the quotient of two integers, rounded towards zero.
pub fn division<T, E, R, P>(vm: &mut Vm<T, E, R, P>) -> (r: Result<(), VmErrorReason<E>>)
    ensures
        division_does(*old(vm), *final(vm), r),
{
    let (a, b) = match pop_dividend_and_divisor(vm) {
        Ok(p) => p,
        Err(e) => {
            return Err(e);
        },
    };
    let ghost rest = vm.data_stack@;
    let ma: u32 = magnitude_of(a);
    let mb: u32 = magnitude_of(b);
    let q: u32 = ma / mb;
    let out: i32 = with_sign((a < 0) != (b < 0) && q != 0, q);
    vm.data_stack.push(Rc::new(Value::IntValue(out)));
    assert(vm.data_stack@.drop_last() =~= rest);
    Ok(())
}

/// Whether `%` may take the machine from `before` to `after` and hand
/// back `r`.
pub open spec fn modulus_does<T, E, R, P>(
    before: Vm<T, E, R, P>,
    after: Vm<T, E, R, P>,
    r: Result<(), VmErrorReason<E>>,
) -> bool {
    &&& dividing_word(before, after, r, |a: i32, b: i32| remainder(a, b))
}

/// `%`: the remainder of a division of two integers.
pub fn modulus<T, E, R, P>(vm: &mut Vm<T, E, R, P>) -> (r: Result<(), VmErrorReason<E>>)
    ensures
        modulus_does(*old(vm), *final(vm), r),
{
    let (a, b) = match pop_dividend_and_divisor(vm) {
        Ok(p) => p,
        Err(e) => {
            return Err(e);
        },
    };
    let ghost rest = vm.data_stack@;
    let ma: u32 = magnitude_of(a);
    let mb: u32 = magnitude_of(b);
    let m: u32 = ma % mb;
    let out: i32 = with_sign(a < 0 && m != 0, m);
    vm.data_stack.push(Rc::new(Value::IntValue(out)));
    assert(vm.data_stack@.drop_last() =~= rest);
    Ok(())
}

/// The kind of address that a sum is to be.
#[derive(Clone, Copy)]
pub enum AddressKind {
    Code,
    Data,
    Env,
}

/// The index that `value` stands for where it is added to an address: an
/// integer stands for itself, read as an index, and an address for its
/// index. The root addresses and the other values stand for none.
pub open spec fn summand<T>(value: Value<T>) -> Option<usize> {
    match value {
        Value::IntValue(v) => Some(Value::<T>::spec_index_of_int(v)),
        Value::CodeAddress(CodeAddress(Address::Entity(i))) => Some(i),
        Value::DataAddress(DataAddress(Address::Entity(i))) => Some(i),
        Value::EnvAddress(EnvironmentStackRelativeAddress(i)) => Some(i),
        _ => None,
    }
}

/// The address of the given kind at the index `i`.
pub open spec fn address_value<T>(kind: AddressKind, i: usize) -> Value<T> {
    match kind {
        AddressKind::Code => Value::CodeAddress(CodeAddress(Address::Entity(i))),
        AddressKind::Data => Value::DataAddress(DataAddress(Address::Entity(i))),
        AddressKind::Env => Value::EnvAddress(EnvironmentStackRelativeAddress(i)),
    }
}

/// Whether `e` says that something to add to an address was needed where a
/// value of the kind `actual` was found.
pub open spec fn no_summand<E>(e: VmErrorReason<E>, actual: Seq<char>) -> bool {
    e matches VmErrorReason::TypeMismatchError(m) && m.0@ == "INT|ADDRESS"@ && m.1@ == actual
}

/// Whether a word that adds addresses may take the machine from `before`
/// to `after` and hand back `r`: the two values on top are taken off, and
/// the address of the given kind at the sum of what they stand for is put
/// on. A sum beyond the largest index is a failure.
pub open spec fn address_word<T, E, R, P>(
    before: Vm<T, E, R, P>,
    after: Vm<T, E, R, P>,
    r: Result<(), VmErrorReason<E>>,
    kind: AddressKind,
) -> bool {
    let data = before.data_stack@;
    &&& only_data_changed(before, after)
    &&& if data.len() < 2 {
        r == Err::<(), VmErrorReason<E>>(data_underflow()) && after.data_stack@.len() == 0
    } else {
        let lhs = *data[data.len() - 2];
        let rhs = *data[data.len() - 1];
        let rest = data.take(data.len() - 2);
        match (summand(lhs), summand(rhs)) {
            (Some(a), Some(b)) => if a + b > usize::MAX {
                r == Err::<(), VmErrorReason<E>>(
                    VmErrorReason::InstructionError("address out of range"),
                ) && after.data_stack@ == rest
            } else {
                r is Ok && after.data_stack@.len() == data.len() - 1
                    && after.data_stack@.drop_last() == rest && *after.data_stack@.last()
                    == address_value::<T>(kind, (a + b) as usize)
            },
            (None, _) => r is Err && no_summand(r->Err_0, lhs.spec_type_name())
                && after.data_stack@ == rest,
            (Some(_), None) => r is Err && no_summand(r->Err_0, rhs.spec_type_name())
                && after.data_stack@ == rest,
        }
    }
}

/// The index that `value` stands for where it is added to an address.
fn summand_of<T, E>(value: &Value<T>) -> (r: Result<usize, VmErrorReason<E>>)
    ensures
        match summand(*value) {
            Some(i) => r == Ok::<usize, VmErrorReason<E>>(i),
            None => r is Err && no_summand(r->Err_0, value.spec_type_name()),
        },
{
    match value {
        Value::IntValue(_) => match value.try_into_usize() {
            Ok(i) => Ok(i),
            Err(e) => Err(VmErrorReason::TypeMismatchError(e)),
        },
        Value::CodeAddress(CodeAddress(Address::Entity(i))) => Ok(*i),
        Value::DataAddress(DataAddress(Address::Entity(i))) => Ok(*i),
        Value::EnvAddress(EnvironmentStackRelativeAddress(i)) => Ok(*i),
        _ => Err(
            VmErrorReason::TypeMismatchError(
                TypeMismatchError("INT|ADDRESS", value.value_type_name()),
            ),
        ),
    }
}

/// The word that takes two values off the data stack and puts on it the
/// address of the given kind at the sum of what they stand for.
pub fn call_aafa<T, E, R, P>(vm: &mut Vm<T, E, R, P>, kind: AddressKind) -> (r: Result<
    (),
    VmErrorReason<E>,
>)
    ensures
        address_word(*old(vm), *final(vm), r, kind),
{
    let (lhs, rhs) = match pop_pair(vm) {
        Ok(p) => p,
        Err(e) => {
            return Err(e);
        },
    };
    let ghost rest = vm.data_stack@;
    let a: usize = match summand_of(&*lhs) {
        Ok(v) => v,
        Err(e) => {
            return Err(e);
        },
    };
    let b: usize = match summand_of(&*rhs) {
        Ok(v) => v,
        Err(e) => {
            return Err(e);
        },
    };
    if a > usize::MAX - b {
        return Err(VmErrorReason::InstructionError("address out of range"));
    }
    let sum: usize = a + b;
    let out = match kind {
        AddressKind::Code => Value::CodeAddress(CodeAddress(Address::Entity(sum))),
        AddressKind::Data => Value::DataAddress(DataAddress(Address::Entity(sum))),
        AddressKind::Env => Value::EnvAddress(EnvironmentStackRelativeAddress(sum)),
    };
    vm.data_stack.push(Rc::new(out));
    assert(vm.data_stack@.drop_last() =~= rest);
    Ok(())
}

/// Whether `c+` may take the machine from `before` to `after` and hand
/// back `r`.
pub open spec fn cplus_does<T, E, R, P>(
    before: Vm<T, E, R, P>,
    after: Vm<T, E, R, P>,
    r: Result<(), VmErrorReason<E>>,
) -> bool {
    &&& address_word(before, after, r, AddressKind::Code)
}

/// `c+`: the code address at the sum of two indices.
pub fn cplus<T, E, R, P>(vm: &mut Vm<T, E, R, P>) -> (r: Result<(), VmErrorReason<E>>)
    ensures
        cplus_does(*old(vm), *final(vm), r),
{
    call_aafa(vm, AddressKind::Code)
}

/// Whether `d+` may take the machine from `before` to `after` and hand
/// back `r`.
pub open spec fn dplus_does<T, E, R, P>(
    before: Vm<T, E, R, P>,
    after: Vm<T, E, R, P>,
    r: Result<(), VmErrorReason<E>>,
) -> bool {
    &&& address_word(before, after, r, AddressKind::Data)
}

/// `d+`: the data address at the sum of two indices.
pub fn dplus<T, E, R, P>(vm: &mut Vm<T, E, R, P>) -> (r: Result<(), VmErrorReason<E>>)
    ensures
        dplus_does(*old(vm), *final(vm), r),
{
    call_aafa(vm, AddressKind::Data)
}

/// Whether `e+` may take the machine from `before` to `after` and hand
/// back `r`.
pub open spec fn eplus_does<T, E, R, P>(
    before: Vm<T, E, R, P>,
    after: Vm<T, E, R, P>,
    r: Result<(), VmErrorReason<E>>,
) -> bool {
    &&& address_word(before, after, r, AddressKind::Env)
}

/// `e+`: the environment address at the sum of two offsets.
pub fn eplus<T, E, R, P>(vm: &mut Vm<T, E, R, P>) -> (r: Result<(), VmErrorReason<E>>)
    ensures
        eplus_does(*old(vm), *final(vm), r),
{
    call_aafa(vm, AddressKind::Env)
}

} // verus!
