//! What the built-in words have in common: taking their operands off the
//! data stack, and reading the name that follows them in the script.

use crate::lang::tokenizer::token_read;
use crate::lang::tokenizer::Token;
use crate::lang::tokenizer::TokenIterator;
use crate::lang::tokenizer::TokenStream;
use crate::lang::tokenizer::ValueToken;
use crate::lang::value::TypeMismatchError;
use crate::lang::value::Value;
use crate::lang::value::ValueTryInto;
use crate::lang::vm::data_underflow;
use crate::lang::vm::reading_from;
use crate::lang::vm::Machine;
use crate::lang::vm::Vm;
use crate::lang::vm::VmErrorReason;
use std::rc::Rc;
use vstd::prelude::*;

verus! {

/// Whether `after` differs from `before` in nothing but the data stack.
pub open spec fn only_data_changed<T, E, R, P>(before: Vm<T, E, R, P>, after: Vm<T, E, R, P>) -> bool {
    &&& before.same_surroundings(&after)
    &&& after.machine() == (Machine { data: after.data_stack@, ..before.machine() })
}

/// The parts of the machine that a word may change.
pub struct Touched {
    pub state: bool,
    pub execution_state: bool,
    pub input: bool,
    pub words: bool,
    pub locals: bool,
    pub data: bool,
    pub calls: bool,
    pub env: bool,
    pub controlflow: bool,
    pub jumps: bool,
    pub code: bool,
    pub data_buffer: bool,
    pub pc: bool,
    pub scripts: bool,
    pub origins: bool,
    pub written: bool,
}

/// No part of the machine.
pub open spec fn untouched() -> Touched {
    Touched {
        state: false,
        execution_state: false,
        input: false,
        words: false,
        locals: false,
        data: false,
        calls: false,
        env: false,
        controlflow: false,
        jumps: false,
        code: false,
        data_buffer: false,
        pc: false,
        scripts: false,
        origins: false,
        written: false,
    }
}

/// Whether `after` is `before` in every part but those that `touched`
/// names. The line and the column of the token read last and what the host
/// offers are never changed.
pub open spec fn kept<T, E, R, P>(before: Vm<T, E, R, P>, after: Vm<T, E, R, P>, touched: Touched) -> bool {
    &&& after.current_line_number == before.current_line_number
    &&& after.current_column_number == before.current_column_number
    &&& after.resources == before.resources
    &&& touched.state || after.state == before.state
    &&& touched.execution_state || after.execution_state == before.execution_state
    &&& touched.input || after.input == before.input
    &&& touched.words || after.word_dictionary == before.word_dictionary
    &&& touched.locals || after.local_dictionary == before.local_dictionary
    &&& touched.data || after.data_stack@ == before.data_stack@
    &&& touched.calls || after.return_stack@ == before.return_stack@
    &&& touched.env || after.env_stack@ == before.env_stack@
    &&& touched.controlflow || after.controlflow_stack@ == before.controlflow_stack@
    &&& touched.jumps || after.long_jump_stack@ == before.long_jump_stack@
    &&& touched.code || after.code_buffer@ == before.code_buffer@
    &&& touched.data_buffer || after.data_buffer@ == before.data_buffer@
    &&& touched.pc || after.program_counter == before.program_counter
    &&& touched.scripts || after.script_call_stack@ == before.script_call_stack@
    &&& touched.origins || after.debug_info_store == before.debug_info_store
    &&& touched.written || after.written == before.written
}

/// Whether `e` says that a value of the kind `expected` was needed where
/// one of the kind `actual` was found.
pub open spec fn mismatch<E>(e: VmErrorReason<E>, expected: Seq<char>, actual: Seq<char>) -> bool {
    e matches VmErrorReason::TypeMismatchError(m) && m.0@ == expected && m.1@ == actual
}

/// The two integers that a word takes off the data stack, the lower first,
/// or the name of the kind of the first value that is no integer.
pub open spec fn int_pair<T>(lhs: Value<T>, rhs: Value<T>) -> Result<(i32, i32), Seq<char>> {
    match lhs {
        Value::IntValue(a) => match rhs {
            Value::IntValue(b) => Ok((a, b)),
            _ => Err(rhs.spec_type_name()),
        },
        _ => Err(lhs.spec_type_name()),
    }
}

/// Whether `e` says that an integer was needed where a value of the kind
/// `actual` was found.
pub open spec fn no_integer<E>(e: VmErrorReason<E>, actual: Seq<char>) -> bool {
    e matches VmErrorReason::TypeMismatchError(m) && m.0@ == "INT"@ && m.1@ == actual
}

/// Whether a word that makes one value of the two on top of the data stack
/// may take the machine from `before` to `after` and hand back `r`, where
/// `made(lhs, rhs, out)` says that the word may make `out` of `lhs` and
/// `rhs`. The value on top is `rhs`. With fewer than two values the word
/// fails, and the stack is left empty.
pub open spec fn binary_word<T, E, R, P>(
    before: Vm<T, E, R, P>,
    after: Vm<T, E, R, P>,
    r: Result<(), VmErrorReason<E>>,
    made: spec_fn(Rc<Value<T>>, Rc<Value<T>>, Value<T>) -> bool,
) -> bool {
    let data = before.data_stack@;
    &&& only_data_changed(before, after)
    &&& if data.len() < 2 {
        r == Err::<(), VmErrorReason<E>>(data_underflow()) && after.data_stack@.len() == 0
    } else {
        r is Ok && after.data_stack@.len() == data.len() - 1 && after.data_stack@.drop_last()
            == data.take(data.len() - 2) && made(
            data[data.len() - 2],
            data[data.len() - 1],
            *after.data_stack@.last(),
        )
    }
}

/// Whether a word that makes one value of the one on top of the data stack
/// may take the machine from `before` to `after` and hand back `r`.
pub open spec fn unary_word<T, E, R, P>(
    before: Vm<T, E, R, P>,
    after: Vm<T, E, R, P>,
    r: Result<(), VmErrorReason<E>>,
    made: spec_fn(Rc<Value<T>>, Value<T>) -> bool,
) -> bool {
    let data = before.data_stack@;
    &&& only_data_changed(before, after)
    &&& if data.len() < 1 {
        r == Err::<(), VmErrorReason<E>>(data_underflow()) && after.data_stack@.len() == 0
    } else {
        r is Ok && after.data_stack@.len() == data.len() && after.data_stack@.drop_last()
            == data.drop_last() && made(data.last(), *after.data_stack@.last())
    }
}

/// Whether a word that makes one integer of the two integers on top of the
/// data stack may take the machine from `before` to `after` and hand back
/// `r`, where `made(a, b, x)` says that the word may make `x` of `a` and
/// `b`. The values are taken off also where one of them is no integer,
/// which is a failure.
pub open spec fn binary_int_word<T, E, R, P>(
    before: Vm<T, E, R, P>,
    after: Vm<T, E, R, P>,
    r: Result<(), VmErrorReason<E>>,
    made: spec_fn(i32, i32, i32) -> bool,
) -> bool {
    let data = before.data_stack@;
    &&& only_data_changed(before, after)
    &&& if data.len() < 2 {
        r == Err::<(), VmErrorReason<E>>(data_underflow()) && after.data_stack@.len() == 0
    } else {
        match int_pair(*data[data.len() - 2], *data[data.len() - 1]) {
            Ok((a, b)) => r is Ok && after.data_stack@.len() == data.len() - 1
                && after.data_stack@.drop_last() == data.take(data.len() - 2)
                && *after.data_stack@.last() is IntValue && made(
                a,
                b,
                after.data_stack@.last()->IntValue_0,
            ),
            Err(actual) => r is Err && no_integer(r->Err_0, actual) && after.data_stack@
                == data.take(data.len() - 2),
        }
    }
}

/// Whether a word that makes one integer of the integer on top of the data
/// stack may take the machine from `before` to `after` and hand back `r`.
pub open spec fn unary_int_word<T, E, R, P>(
    before: Vm<T, E, R, P>,
    after: Vm<T, E, R, P>,
    r: Result<(), VmErrorReason<E>>,
    made: spec_fn(i32, i32) -> bool,
) -> bool {
    let data = before.data_stack@;
    &&& only_data_changed(before, after)
    &&& if data.len() < 1 {
        r == Err::<(), VmErrorReason<E>>(data_underflow()) && after.data_stack@.len() == 0
    } else {
        match *data.last() {
            Value::IntValue(a) => r is Ok && after.data_stack@.len() == data.len()
                && after.data_stack@.drop_last() == data.drop_last() && *after.data_stack@.last()
                is IntValue && made(a, after.data_stack@.last()->IntValue_0),
            _ => r is Err && no_integer(r->Err_0, data.last().spec_type_name())
                && after.data_stack@ == data.drop_last(),
        }
    }
}

/// Takes the two values on top of the data stack off: the lower one and
/// the one on top.
pub fn pop_pair<T, E, R, P>(vm: &mut Vm<T, E, R, P>) -> (r: Result<
    (Rc<Value<T>>, Rc<Value<T>>),
    VmErrorReason<E>,
>)
    ensures
        only_data_changed(*old(vm), *final(vm)),
        match r {
            Ok((lhs, rhs)) => old(vm).data_stack@.len() >= 2 && lhs == old(
                vm,
            ).data_stack@[old(vm).data_stack@.len() - 2] && rhs == old(vm).data_stack@.last()
                && final(vm).data_stack@ == old(vm).data_stack@.take(
                old(vm).data_stack@.len() - 2,
            ),
            Err(e) => old(vm).data_stack@.len() < 2 && e == data_underflow::<E>() && final(
                vm
            ).data_stack@.len() == 0,
        },
{
    let rhs = match vm.data_stack.pop() {
        Ok(v) => v,
        Err(e) => {
            return Err(VmErrorReason::DataStackAccessError(e));
        },
    };
    let lhs = match vm.data_stack.pop() {
        Ok(v) => v,
        Err(e) => {
            return Err(VmErrorReason::DataStackAccessError(e));
        },
    };
    Ok((lhs, rhs))
}

/// Takes the value on top of the data stack off.
pub fn pop_one<T, E, R, P>(vm: &mut Vm<T, E, R, P>) -> (r: Result<Rc<Value<T>>, VmErrorReason<E>>)
    ensures
        only_data_changed(*old(vm), *final(vm)),
        match r {
            Ok(top) => old(vm).data_stack@.len() >= 1 && top == old(vm).data_stack@.last()
                && final(vm).data_stack@ == old(vm).data_stack@.drop_last(),
            Err(e) => old(vm).data_stack@.len() < 1 && e == data_underflow::<E>() && final(
                vm
            ).data_stack@.len() == 0,
        },
{
    match vm.data_stack.pop() {
        Ok(v) => Ok(v),
        Err(e) => Err(VmErrorReason::DataStackAccessError(e)),
    }
}

/// The integer that `value` is.
pub fn int_of<T, E>(value: &Value<T>) -> (r: Result<i32, VmErrorReason<E>>)
    ensures
        match *value {
            Value::IntValue(v) => r == Ok::<i32, VmErrorReason<E>>(v),
            _ => r is Err && no_integer(r->Err_0, value.spec_type_name()),
        },
{
    let got: Result<&i32, TypeMismatchError> = ValueTryInto::<i32>::try_into(value);
    match got {
        Ok(v) => Ok(*v),
        Err(e) => Err(VmErrorReason::TypeMismatchError(e)),
    }
}

/// The word that takes two values off the data stack and puts on it what
/// `f` makes of them.
pub fn call_xxfx<T, E, R, P, F>(vm: &mut Vm<T, E, R, P>, f: F) -> (r: Result<(), VmErrorReason<E>>)
    where F: Fn(Rc<Value<T>>, Rc<Value<T>>) -> Value<T>
    requires
        forall|a: Rc<Value<T>>, b: Rc<Value<T>>| f.requires((a, b)),
    ensures
        binary_word(
            *old(vm),
            *final(vm),
            r,
            |a: Rc<Value<T>>, b: Rc<Value<T>>, out: Value<T>| f.ensures((a, b), out),
        ),
{
    let (lhs, rhs) = match pop_pair(vm) {
        Ok(p) => p,
        Err(e) => {
            return Err(e);
        },
    };
    let ghost rest = vm.data_stack@;
    let out = f(lhs, rhs);
    vm.data_stack.push(Rc::new(out));
    assert(vm.data_stack@.drop_last() =~= rest);
    Ok(())
}

/// The word that takes a value off the data stack and puts on it what `f`
/// makes of it.
pub fn call_xfx<T, E, R, P, F>(vm: &mut Vm<T, E, R, P>, f: F) -> (r: Result<(), VmErrorReason<E>>)
    where F: Fn(Rc<Value<T>>) -> Value<T>
    requires
        forall|a: Rc<Value<T>>| f.requires((a,)),
    ensures
        unary_word(
            *old(vm),
            *final(vm),
            r,
            |a: Rc<Value<T>>, out: Value<T>| f.ensures((a,), out),
        ),
{
    let lhs = match pop_one(vm) {
        Ok(p) => p,
        Err(e) => {
            return Err(e);
        },
    };
    let ghost rest = vm.data_stack@;
    let out = f(lhs);
    vm.data_stack.push(Rc::new(out));
    assert(vm.data_stack@.drop_last() =~= rest);
    Ok(())
}

/// The word that takes two integers off the data stack and puts on it the
/// integer that `f` makes of them.
pub fn call_iifi<T, E, R, P, F>(vm: &mut Vm<T, E, R, P>, f: F) -> (r: Result<(), VmErrorReason<E>>)
    where F: Fn(i32, i32) -> i32
    requires
        forall|a: i32, b: i32| f.requires((a, b)),
    ensures
        binary_int_word(*old(vm), *final(vm), r, |a: i32, b: i32, x: i32| f.ensures((a, b), x)),
{
    let (lhs, rhs) = match pop_pair(vm) {
        Ok(p) => p,
        Err(e) => {
            return Err(e);
        },
    };
    let ghost rest = vm.data_stack@;
    let lv: i32 = match int_of(&*lhs) {
        Ok(v) => v,
        Err(e) => {
            return Err(e);
        },
    };
    let rv: i32 = match int_of(&*rhs) {
        Ok(v) => v,
        Err(e) => {
            return Err(e);
        },
    };
    let out = f(lv, rv);
    vm.data_stack.push(Rc::new(Value::IntValue(out)));
    assert(vm.data_stack@.drop_last() =~= rest);
    Ok(())
}

/// The word that takes an integer off the data stack and puts on it the
/// integer that `f` makes of it.
pub fn call_ifi<T, E, R, P, F>(vm: &mut Vm<T, E, R, P>, f: F) -> (r: Result<(), VmErrorReason<E>>)
    where F: Fn(i32) -> i32
    requires
        forall|a: i32| f.requires((a,)),
    ensures
        unary_int_word(*old(vm), *final(vm), r, |a: i32, x: i32| f.ensures((a,), x)),
{
    let top = match pop_one(vm) {
        Ok(p) => p,
        Err(e) => {
            return Err(e);
        },
    };
    let ghost rest = vm.data_stack@;
    let v: i32 = match int_of(&*top) {
        Ok(v) => v,
        Err(e) => {
            return Err(e);
        },
    };
    let out = f(v);
    vm.data_stack.push(Rc::new(Value::IntValue(out)));
    assert(vm.data_stack@.drop_last() =~= rest);
    Ok(())
}

/// Whether `e` says that a symbol was needed where something of the kind
/// `actual` was found.
pub open spec fn no_symbol<E>(e: VmErrorReason<E>, actual: Seq<char>) -> bool {
    e matches VmErrorReason::TypeMismatchError(m) && m.0@ == "Symbol"@ && m.1@ == actual
}

/// The name that the token is, where it is a symbol.
pub open spec fn token_name(token: Option<Token>) -> Option<String> {
    match token {
        Some(t) => match t.value_token {
            Ok(ValueToken::Symbol(name)) => Some(name),
            _ => None,
        },
        None => None,
    }
}

/// Whether `e` is the failure that is owed where `token` is no symbol.
pub open spec fn no_name<E>(token: Option<Token>, e: VmErrorReason<E>) -> bool {
    match token {
        Some(t) => match t.value_token {
            Ok(_) => no_symbol(e, "UNKNOWN"@),
            Err(f) => e == VmErrorReason::<E>::TokenError(f),
        },
        None => no_symbol(e, "EMPTY"@),
    }
}

/// What the token that follows a word gives as a name: a symbol is its
/// name; anything else is a failure, and so is the end of the script.
pub open spec fn name_of_token<E>(token: Option<Token>, r: Result<String, VmErrorReason<E>>) -> bool {
    match token_name(token) {
        Some(name) => r == Ok::<String, VmErrorReason<E>>(name),
        None => r is Err && no_name(token, r->Err_0),
    }
}

/// Whether a word that works on the name that follows it in the script
/// may take the machine from `before` to `after` and hand back `r`, where
/// `then(read, name, after, r)` says what the word does with the name once
/// the machine has read it. Where no name follows, the word fails, the
/// token read.
pub open spec fn named_word<T, E, R, P>(
    before: Vm<T, E, R, P>,
    after: Vm<T, E, R, P>,
    r: Result<(), VmErrorReason<E>>,
    then: spec_fn(Vm<T, E, R, P>, String, Vm<T, E, R, P>, Result<(), VmErrorReason<E>>) -> bool,
) -> bool {
    exists|input: TokenStream, token: Option<Token>|
        #[trigger] token_read(before.input, input, token) && match token_name(token) {
            Some(name) => then(reading_from(before, input), name, after, r),
            None => after == reading_from(before, input) && r is Err && no_name(token, r->Err_0),
        }
}

/// Reads the next token of the script, which has to be a symbol, and
/// returns it as the name that a word works on.
pub fn call_with_name<T, E, R, P>(vm: &mut Vm<T, E, R, P>) -> (r: Result<String, VmErrorReason<E>>)
    ensures
        exists|token: Option<Token>|
            #[trigger] token_read(old(vm).input, final(vm).input, token) && name_of_token(
                token,
                r,
            ),
        *final(vm) == reading_from(*old(vm), final(vm).input),
        forall|after: Vm<T, E, R, P>, res: Result<(), VmErrorReason<E>>, then: spec_fn(
            Vm<T, E, R, P>,
            String,
            Vm<T, E, R, P>,
            Result<(), VmErrorReason<E>>,
        ) -> bool|
            (match r {
                Ok(name) => then(*final(vm), name, after, res),
                Err(e) => after == *final(vm) && res == Err::<(), VmErrorReason<E>>(e),
            }) ==> #[trigger] named_word(*old(vm), after, res, then),
{
    let next = vm.input.next_token();
    match next {
        Some(t) => match t.value_token {
            Ok(token) => match token {
                ValueToken::Symbol(name) => Ok(name),
                _ => Err(VmErrorReason::TypeMismatchError(TypeMismatchError("Symbol", "UNKNOWN"))),
            },
            Err(e) => Err(VmErrorReason::TokenError(e)),
        },
        None => Err(VmErrorReason::TypeMismatchError(TypeMismatchError("Symbol", "EMPTY"))),
    }
}

} // verus!
