//! The words of logic and of comparison. What is true is the integer one,
//! and what is false is the integer zero.

use super::order::i32_order;
use super::order::index_order;
use super::order::int_order;
use super::order::order_of_i32;
use super::order::order_of_index;
use super::order::lex_order;
use super::order::order_of_bytes;
use super::order::Order;
use super::util::binary_word;
use super::util::call_xfx;
use super::util::call_xxfx;
use super::util::unary_word;
use super::Builtin;
use crate::lang::value::Address;
use crate::lang::value::Value;
use crate::lang::vm::bodies_added;
use crate::lang::vm::one_more_body;
use crate::lang::vm::Vm;
use crate::lang::vm::VmErrorReason;
use core::cmp::Ordering;
use std::rc::Rc;
use vstd::prelude::*;
use vstd::std_specs::cmp::PartialEqSpec;
use vstd::std_specs::cmp::PartialOrdSpec;
use vstd::utf8::encode_utf8;

verus! {

/// Defines the words of this file.
pub fn initialize<T, E, R, P: Copy + From<Builtin>>(vm: &mut Vm<T, E, R, P>)
    ensures
        bodies_added(old(vm).code_buffer@, final(vm).code_buffer@, 9),
        final(vm).word_dictionary.committed().contains_key("&&"@),
        final(vm).word_dictionary.committed().contains_key("||"@),
        final(vm).word_dictionary.committed().contains_key("!"@),
        final(vm).word_dictionary.committed().contains_key("="@),
        final(vm).word_dictionary.committed().contains_key("<>"@),
        final(vm).word_dictionary.committed().contains_key("<"@),
        final(vm).word_dictionary.committed().contains_key("<="@),
        final(vm).word_dictionary.committed().contains_key(">"@),
        final(vm).word_dictionary.committed().contains_key(">="@),
        final(vm).machine() == old(vm).machine(),
        final(vm).state == old(vm).state,
        forall|n: Seq<char>|
            old(vm).word_dictionary.committed().contains_key(n) ==> #[trigger] final(
                vm
            ).word_dictionary.committed().contains_key(n),
{
    let ghost start = vm.code_buffer@;
    assert(start.take(start.len() as int) =~= start);
    let ghost code = vm.code_buffer@;
    let f = P::from(Builtin::And);
    vm.define_primitive_word(
        "&&".to_owned(),
        false,
        "a b -- [a and b]; ".to_owned(),
        f,
    );
    proof {
        one_more_body(start, code, f, 0);
    }
    let ghost code = vm.code_buffer@;
    let f = P::from(Builtin::Or);
    vm.define_primitive_word(
        "||".to_owned(),
        false,
        "a b -- [a or b]; ".to_owned(),
        f,
    );
    proof {
        one_more_body(start, code, f, 1);
    }
    let ghost code = vm.code_buffer@;
    let f = P::from(Builtin::Not);
    vm.define_primitive_word("!".to_owned(), false, "a -- [not a]; ".to_owned(), f);
    proof {
        one_more_body(start, code, f, 2);
    }
    let ghost code = vm.code_buffer@;
    let f = P::from(Builtin::Eq);
    vm.define_primitive_word("=".to_owned(), false, "a b -- [a==b]; ".to_owned(), f);
    proof {
        one_more_body(start, code, f, 3);
    }
    let ghost code = vm.code_buffer@;
    let f = P::from(Builtin::NotEq);
    vm.define_primitive_word(
        "<>".to_owned(),
        false,
        "a b -- [a<>b]; ".to_owned(),
        f,
    );
    proof {
        one_more_body(start, code, f, 4);
    }
    let ghost code = vm.code_buffer@;
    let f = P::from(Builtin::Less);
    vm.define_primitive_word("<".to_owned(), false, "a b -- [a<b]; ".to_owned(), f);
    proof {
        one_more_body(start, code, f, 5);
    }
    let ghost code = vm.code_buffer@;
    let f = P::from(Builtin::LessEq);
    vm.define_primitive_word(
        "<=".to_owned(),
        false,
        "a b -- [a<=b]; ".to_owned(),
        f,
    );
    proof {
        one_more_body(start, code, f, 6);
    }
    let ghost code = vm.code_buffer@;
    let f = P::from(Builtin::Gt);
    vm.define_primitive_word(">".to_owned(), false, "a b -- [a>b]; ".to_owned(), f);
    proof {
        one_more_body(start, code, f, 7);
    }
    let ghost code = vm.code_buffer@;
    let f = P::from(Builtin::GtEq);
    vm.define_primitive_word(
        ">=".to_owned(),
        false,
        "a b -- [a>=b]; ".to_owned(),
        f,
    );
    proof {
        one_more_body(start, code, f, 8);
    }
}

/// The text of the script that defines the words which are made of the
/// words of this file.
pub const PRELOAD_SCRIPT: &'static str = r#"
    : 0= ( a -- [a==0]; ) 0 = ;
    : 0<> ( a -- [a<>0]; ) 0 <> ;
    : 0< ( a -- [a<0]; ) 0 < ;
    : 0> ( a -- [a>0]; ) 0 > ;
    : 0<= ( a -- [a<=0]; ) 0 <= ;
    : 0>= ( a -- [a>=0]; ) 0 >= ;
"#;

/// The script that defines the words which are made of the words of this
/// file.
pub fn preload_script() -> (r: &'static str)
    ensures
        r == PRELOAD_SCRIPT,
{
    PRELOAD_SCRIPT
}

/// The integer that stands for what is true or false.
pub open spec fn truth<T>(b: bool) -> Value<T> {
    if b {
        Value::IntValue(1)
    } else {
        Value::IntValue(0)
    }
}

/// Whether `v` counts as true: every value does but the integer zero.
pub open spec fn holds<T>(v: Value<T>) -> bool {
    !(v matches Value::IntValue(0))
}

/// The integer that stands for what is true or false.
fn truth_of<T>(b: bool) -> (r: Value<T>)
    ensures
        r == truth::<T>(b),
{
    if b {
        Value::IntValue(1)
    } else {
        Value::IntValue(0)
    }
}

/// Whether `v` counts as true.
fn holds_of<T>(v: &Value<T>) -> (r: bool)
    ensures
        r == holds(*v),
{
    match v {
        Value::IntValue(i) => *i != 0,
        _ => true,
    }
}

/// Whether two values are the same: they are of one kind and hold the same.
/// Values of the host are the same where the host says so.
pub open spec fn same_value<T: PartialEq>(a: Value<T>, b: Value<T>) -> bool {
    match (a, b) {
        (Value::IntValue(x), Value::IntValue(y)) => x == y,
        (Value::StrValue(x), Value::StrValue(y)) => x@ == y@,
        (Value::CodeAddress(x), Value::CodeAddress(y)) => x == y,
        (Value::DataAddress(x), Value::DataAddress(y)) => x == y,
        (Value::EnvAddress(x), Value::EnvAddress(y)) => x == y,
        (Value::ExtValue(x), Value::ExtValue(y)) => x.eq_spec(&y),
        (Value::Empty, Value::Empty) => true,
        _ => false,
    }
}

/// Whether the two addresses are the same.
fn same_address(a: &Address, b: &Address) -> (r: bool)
    ensures
        r == (*a == *b),
{
    match a {
        Address::Root => match b {
            Address::Root => true,
            Address::Entity(_) => false,
        },
        Address::Entity(x) => match b {
            Address::Root => false,
            Address::Entity(y) => *x == *y,
        },
    }
}

/// Whether two values are the same.
pub fn value_eq<T: PartialEq>(a: &Value<T>, b: &Value<T>) -> (r: bool)
    ensures
        T::obeys_eq_spec() ==> r == same_value(*a, *b),
{
    match a {
        Value::IntValue(x) => match b {
            Value::IntValue(y) => *x == *y,
            _ => false,
        },
        Value::StrValue(x) => match b {
            Value::StrValue(y) => *x == *y,
            _ => false,
        },
        Value::CodeAddress(x) => match b {
            Value::CodeAddress(y) => same_address(&x.0, &y.0),
            _ => false,
        },
        Value::DataAddress(x) => match b {
            Value::DataAddress(y) => same_address(&x.0, &y.0),
            _ => false,
        },
        Value::EnvAddress(x) => match b {
            Value::EnvAddress(y) => x.0 == y.0,
            _ => false,
        },
        Value::ExtValue(x) => match b {
            Value::ExtValue(y) => x.eq(y),
            _ => false,
        },
        Value::Empty => match b {
            Value::Empty => true,
            _ => false,
        },
    }
}

/// The place of the kind of a value among the kinds.
pub open spec fn kind_rank<T>(v: Value<T>) -> int {
    match v {
        Value::IntValue(_) => 0,
        Value::StrValue(_) => 1,
        Value::CodeAddress(_) => 2,
        Value::DataAddress(_) => 3,
        Value::EnvAddress(_) => 4,
        Value::ExtValue(_) => 5,
        Value::Empty => 6,
    }
}

/// The place of an address among the addresses: the root comes first.
pub open spec fn address_rank(a: Address) -> int {
    match a {
        Address::Root => -1,
        Address::Entity(i) => i as int,
    }
}

/// What the host says of the order of two of its values.
pub open spec fn host_order(o: Option<Ordering>) -> Option<Order> {
    match o {
        Some(Ordering::Less) => Some(Order::Less),
        Some(Ordering::Equal) => Some(Order::Equal),
        Some(Ordering::Greater) => Some(Order::Greater),
        None => None,
    }
}

/// How `a` stands to `b`. Values of different kinds stand as their kinds
/// do: integers first, then strings, code addresses, data addresses,
/// environment addresses, values of the host, and empty cells. Integers
/// and addresses stand as numbers do, with the root address first; strings
/// stand in the order of the dictionary, by the bytes of their encoding.
/// Values of the host stand as the host says, which may be in no order.
pub open spec fn value_order<T: PartialOrd>(a: Value<T>, b: Value<T>) -> Option<Order> {
    if kind_rank(a) < kind_rank(b) {
        Some(Order::Less)
    } else if kind_rank(a) > kind_rank(b) {
        Some(Order::Greater)
    } else {
        match (a, b) {
            (Value::IntValue(x), Value::IntValue(y)) => Some(i32_order(x, y)),
            (Value::StrValue(x), Value::StrValue(y)) => Some(
                lex_order(encode_utf8(x@), encode_utf8(y@)),
            ),
            (Value::CodeAddress(x), Value::CodeAddress(y)) => Some(
                int_order(address_rank(x.0), address_rank(y.0)),
            ),
            (Value::DataAddress(x), Value::DataAddress(y)) => Some(
                int_order(address_rank(x.0), address_rank(y.0)),
            ),
            (Value::EnvAddress(x), Value::EnvAddress(y)) => Some(index_order(x.0, y.0)),
            (Value::ExtValue(x), Value::ExtValue(y)) => host_order(x.partial_cmp_spec(&y)),
            _ => Some(Order::Equal),
        }
    }
}

/// How the address `a` stands to the address `b`.
fn order_of_address(a: &Address, b: &Address) -> (r: Order)
    ensures
        r == int_order(address_rank(*a), address_rank(*b)),
{
    match a {
        Address::Root => match b {
            Address::Root => Order::Equal,
            Address::Entity(_) => Order::Less,
        },
        Address::Entity(x) => match b {
            Address::Root => Order::Greater,
            Address::Entity(y) => order_of_index(*x, *y),
        },
    }
}

/// The place of the kind of a value among the kinds.
fn kind_rank_of<T>(v: &Value<T>) -> (r: u8)
    ensures
        r == kind_rank(*v),
{
    match v {
        Value::IntValue(_) => 0,
        Value::StrValue(_) => 1,
        Value::CodeAddress(_) => 2,
        Value::DataAddress(_) => 3,
        Value::EnvAddress(_) => 4,
        Value::ExtValue(_) => 5,
        Value::Empty => 6,
    }
}

/// What the host says of the order of two of its values.
fn order_of_host_values<T: PartialOrd>(x: &T, y: &T) -> (r: Option<Order>)
    ensures
        T::obeys_partial_cmp_spec() ==> r == host_order(x.partial_cmp_spec(y)),
{
    match x.partial_cmp(y) {
        Some(Ordering::Less) => Some(Order::Less),
        Some(Ordering::Equal) => Some(Order::Equal),
        Some(Ordering::Greater) => Some(Order::Greater),
        None => None,
    }
}

/// How `a` stands to `b`.
pub fn order_of_values<T: PartialOrd>(a: &Value<T>, b: &Value<T>) -> (r: Option<Order>)
    ensures
        T::obeys_partial_cmp_spec() ==> r == value_order(*a, *b),
{
    let ka: u8 = kind_rank_of(a);
    let kb: u8 = kind_rank_of(b);
    if ka < kb {
        return Some(Order::Less);
    }
    if ka > kb {
        return Some(Order::Greater);
    }
    match a {
        Value::IntValue(x) => match b {
            Value::IntValue(y) => Some(order_of_i32(*x, *y)),
            _ => Some(Order::Equal),
        },
        Value::StrValue(x) => match b {
            Value::StrValue(y) => Some(
                order_of_bytes(x.as_str().as_bytes(), y.as_str().as_bytes()),
            ),
            _ => Some(Order::Equal),
        },
        Value::CodeAddress(x) => match b {
            Value::CodeAddress(y) => Some(order_of_address(&x.0, &y.0)),
            _ => Some(Order::Equal),
        },
        Value::DataAddress(x) => match b {
            Value::DataAddress(y) => Some(order_of_address(&x.0, &y.0)),
            _ => Some(Order::Equal),
        },
        Value::EnvAddress(x) => match b {
            Value::EnvAddress(y) => Some(order_of_index(x.0, y.0)),
            _ => Some(Order::Equal),
        },
        Value::ExtValue(x) => match b {
            Value::ExtValue(y) => order_of_host_values(x, y),
            _ => Some(Order::Equal),
        },
        Value::Empty => Some(Order::Equal),
    }
}

/// What `&&` makes of two values.
fn both<T>(lhs: Rc<Value<T>>, rhs: Rc<Value<T>>) -> (out: Value<T>)
    ensures
        out == truth::<T>(holds(*lhs) && holds(*rhs)),
{
    truth_of(holds_of(&*lhs) && holds_of(&*rhs))
}

/// What `||` makes of two values.
fn either<T>(lhs: Rc<Value<T>>, rhs: Rc<Value<T>>) -> (out: Value<T>)
    ensures
        out == truth::<T>(holds(*lhs) || holds(*rhs)),
{
    truth_of(holds_of(&*lhs) || holds_of(&*rhs))
}

/// What `!` makes of a value.
fn neither<T>(lhs: Rc<Value<T>>) -> (out: Value<T>)
    ensures
        out == truth::<T>(!holds(*lhs)),
{
    truth_of(!holds_of(&*lhs))
}

/// What `=` makes of two values.
fn equal<T: PartialEq>(lhs: Rc<Value<T>>, rhs: Rc<Value<T>>) -> (out: Value<T>)
    ensures
        T::obeys_eq_spec() ==> out == truth::<T>(same_value(*lhs, *rhs)),
{
    truth_of(value_eq(&*lhs, &*rhs))
}

/// What `<>` makes of two values.
fn different<T: PartialEq>(lhs: Rc<Value<T>>, rhs: Rc<Value<T>>) -> (out: Value<T>)
    ensures
        T::obeys_eq_spec() ==> out == truth::<T>(!same_value(*lhs, *rhs)),
{
    truth_of(!value_eq(&*lhs, &*rhs))
}

/// What `<` makes of two values.
fn before<T: PartialOrd>(lhs: Rc<Value<T>>, rhs: Rc<Value<T>>) -> (out: Value<T>)
    ensures
        T::obeys_partial_cmp_spec() ==> out == truth::<T>(
            value_order(*lhs, *rhs) == Some(Order::Less),
        ),
{
    match order_of_values(&*lhs, &*rhs) {
        Some(Order::Less) => truth_of(true),
        _ => truth_of(false),
    }
}

/// What `<=` makes of two values.
fn not_behind<T: PartialOrd>(lhs: Rc<Value<T>>, rhs: Rc<Value<T>>) -> (out: Value<T>)
    ensures
        T::obeys_partial_cmp_spec() ==> out == truth::<T>(
            value_order(*lhs, *rhs) == Some(Order::Less) || value_order(*lhs, *rhs) == Some(
                Order::Equal,
            ),
        ),
{
    match order_of_values(&*lhs, &*rhs) {
        Some(Order::Less) => truth_of(true),
        Some(Order::Equal) => truth_of(true),
        _ => truth_of(false),
    }
}

/// What `>` makes of two values.
fn behind<T: PartialOrd>(lhs: Rc<Value<T>>, rhs: Rc<Value<T>>) -> (out: Value<T>)
    ensures
        T::obeys_partial_cmp_spec() ==> out == truth::<T>(
            value_order(*lhs, *rhs) == Some(Order::Greater),
        ),
{
    match order_of_values(&*lhs, &*rhs) {
        Some(Order::Greater) => truth_of(true),
        _ => truth_of(false),
    }
}

/// What `>=` makes of two values.
fn not_before<T: PartialOrd>(lhs: Rc<Value<T>>, rhs: Rc<Value<T>>) -> (out: Value<T>)
    ensures
        T::obeys_partial_cmp_spec() ==> out == truth::<T>(
            value_order(*lhs, *rhs) == Some(Order::Greater) || value_order(*lhs, *rhs) == Some(
                Order::Equal,
            ),
        ),
{
    match order_of_values(&*lhs, &*rhs) {
        Some(Order::Greater) => truth_of(true),
        Some(Order::Equal) => truth_of(true),
        _ => truth_of(false),
    }
}

/// Whether `&&` may take the machine from `before` to `after` and hand
/// back `r`.
pub open spec fn and_does<T, E, R, P>(
    before: Vm<T, E, R, P>,
    after: Vm<T, E, R, P>,
    r: Result<(), VmErrorReason<E>>,
) -> bool {
    &&& binary_word(
        before,
        after,
        r,
        |a: Rc<Value<T>>, b: Rc<Value<T>>, out: Value<T>|
            out == truth::<T>(holds(*a) && holds(*b)),
    )
}

/// `&&`: whether both values count as true.
pub fn and<T, E, R, P>(vm: &mut Vm<T, E, R, P>) -> (r: Result<(), VmErrorReason<E>>)
    ensures
        and_does(*old(vm), *final(vm), r),
{
    call_xxfx(vm, both)
}

/// Whether `||` may take the machine from `before` to `after` and hand
/// back `r`.
pub open spec fn or_does<T, E, R, P>(
    before: Vm<T, E, R, P>,
    after: Vm<T, E, R, P>,
    r: Result<(), VmErrorReason<E>>,
) -> bool {
    &&& binary_word(
        before,
        after,
        r,
        |a: Rc<Value<T>>, b: Rc<Value<T>>, out: Value<T>|
            out == truth::<T>(holds(*a) || holds(*b)),
    )
}

/// `||`: whether one of the values counts as true.
pub fn or<T, E, R, P>(vm: &mut Vm<T, E, R, P>) -> (r: Result<(), VmErrorReason<E>>)
    ensures
        or_does(*old(vm), *final(vm), r),
{
    call_xxfx(vm, either)
}

/// Whether `!` may take the machine from `before` to `after` and hand
/// back `r`.
pub open spec fn not_does<T, E, R, P>(
    before: Vm<T, E, R, P>,
    after: Vm<T, E, R, P>,
    r: Result<(), VmErrorReason<E>>,
) -> bool {
    &&& unary_word(
        before,
        after,
        r,
        |a: Rc<Value<T>>, out: Value<T>| out == truth::<T>(!holds(*a)),
    )
}

/// `!`: whether the value counts as false.
pub fn not<T, E, R, P>(vm: &mut Vm<T, E, R, P>) -> (r: Result<(), VmErrorReason<E>>)
    ensures
        not_does(*old(vm), *final(vm), r),
{
    call_xfx(vm, neither)
}

/// Whether `=` may take the machine from `before` to `after` and hand
/// back `r`.
pub open spec fn eq_does<T: PartialEq, E, R, P>(
    before: Vm<T, E, R, P>,
    after: Vm<T, E, R, P>,
    r: Result<(), VmErrorReason<E>>,
) -> bool {
    &&& T::obeys_eq_spec() ==> binary_word(
        before,
        after,
        r,
        |a: Rc<Value<T>>, b: Rc<Value<T>>, out: Value<T>|
            out == truth::<T>(same_value(*a, *b)),
    )
}

/// `=`: whether the two values are the same.
pub fn eq<T: PartialEq, E, R, P>(vm: &mut Vm<T, E, R, P>) -> (r: Result<(), VmErrorReason<E>>)
    ensures
        eq_does(*old(vm), *final(vm), r),
{
    call_xxfx(vm, equal)
}

/// Whether `<>` may take the machine from `before` to `after` and hand
/// back `r`.
pub open spec fn noteq_does<T: PartialEq, E, R, P>(
    before: Vm<T, E, R, P>,
    after: Vm<T, E, R, P>,
    r: Result<(), VmErrorReason<E>>,
) -> bool {
    &&& T::obeys_eq_spec() ==> binary_word(
        before,
        after,
        r,
        |a: Rc<Value<T>>, b: Rc<Value<T>>, out: Value<T>|
            out == truth::<T>(!same_value(*a, *b)),
    )
}

/// `<>`: whether the two values are not the same.
pub fn noteq<T: PartialEq, E, R, P>(vm: &mut Vm<T, E, R, P>) -> (r: Result<(), VmErrorReason<E>>)
    ensures
        noteq_does(*old(vm), *final(vm), r),
{
    call_xxfx(vm, different)
}

/// Whether `<` may take the machine from `before` to `after` and hand
/// back `r`.
pub open spec fn less_does<T: PartialOrd, E, R, P>(
    before: Vm<T, E, R, P>,
    after: Vm<T, E, R, P>,
    r: Result<(), VmErrorReason<E>>,
) -> bool {
    &&& T::obeys_partial_cmp_spec() ==> binary_word(
        before,
        after,
        r,
        |a: Rc<Value<T>>, b: Rc<Value<T>>, out: Value<T>|
            out == truth::<T>(value_order(*a, *b) == Some(Order::Less)),
    )
}

/// `<`: whether the lower value stands before the upper.
pub fn less<T: PartialOrd, E, R, P>(vm: &mut Vm<T, E, R, P>) -> (r: Result<(), VmErrorReason<E>>)
    ensures
        less_does(*old(vm), *final(vm), r),
{
    call_xxfx(vm, before)
}

/// Whether `<=` may take the machine from `before` to `after` and hand
/// back `r`.
pub open spec fn lesseq_does<T: PartialOrd, E, R, P>(
    before: Vm<T, E, R, P>,
    after: Vm<T, E, R, P>,
    r: Result<(), VmErrorReason<E>>,
) -> bool {
    &&& T::obeys_partial_cmp_spec() ==> binary_word(
        before,
        after,
        r,
        |a: Rc<Value<T>>, b: Rc<Value<T>>, out: Value<T>|
            out == truth::<T>(
                value_order(*a, *b) == Some(Order::Less) || value_order(*a, *b) == Some(
                    Order::Equal,
                ),
            ),
    )
}

/// `<=`: whether the lower value does not stand behind the upper.
pub fn lesseq<T: PartialOrd, E, R, P>(vm: &mut Vm<T, E, R, P>) -> (r: Result<(), VmErrorReason<E>>)
    ensures
        lesseq_does(*old(vm), *final(vm), r),
{
    call_xxfx(vm, not_behind)
}

/// Whether `>` may take the machine from `before` to `after` and hand
/// back `r`.
pub open spec fn gt_does<T: PartialOrd, E, R, P>(
    before: Vm<T, E, R, P>,
    after: Vm<T, E, R, P>,
    r: Result<(), VmErrorReason<E>>,
) -> bool {
    &&& T::obeys_partial_cmp_spec() ==> binary_word(
        before,
        after,
        r,
        |a: Rc<Value<T>>, b: Rc<Value<T>>, out: Value<T>|
            out == truth::<T>(value_order(*a, *b) == Some(Order::Greater)),
    )
}

/// `>`: whether the lower value stands behind the upper.
pub fn gt<T: PartialOrd, E, R, P>(vm: &mut Vm<T, E, R, P>) -> (r: Result<(), VmErrorReason<E>>)
    ensures
        gt_does(*old(vm), *final(vm), r),
{
    call_xxfx(vm, behind)
}

/// Whether `>=` may take the machine from `before` to `after` and hand
/// back `r`.
pub open spec fn gteq_does<T: PartialOrd, E, R, P>(
    before: Vm<T, E, R, P>,
    after: Vm<T, E, R, P>,
    r: Result<(), VmErrorReason<E>>,
) -> bool {
    &&& T::obeys_partial_cmp_spec() ==> binary_word(
        before,
        after,
        r,
        |a: Rc<Value<T>>, b: Rc<Value<T>>, out: Value<T>|
            out == truth::<T>(
                value_order(*a, *b) == Some(Order::Greater) || value_order(*a, *b) == Some(
                    Order::Equal,
                ),
            ),
    )
}

/// `>=`: whether the lower value does not stand before the upper.
pub fn gteq<T: PartialOrd, E, R, P>(vm: &mut Vm<T, E, R, P>) -> (r: Result<(), VmErrorReason<E>>)
    ensures
        gteq_does(*old(vm), *final(vm), r),
{
    call_xxfx(vm, not_before)
}

} // verus!
