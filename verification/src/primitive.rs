//! The built-in words.
//!
//! Every word is a function on the virtual machine. [`Builtin`] names the
//! words, so that a host can keep them in the code buffer beside primitives
//! of its own.

pub mod arithmetic;
pub mod bit;
pub mod compile;
pub mod controlflow;
pub mod data;
pub mod debug;
pub mod environment;
pub mod io;
pub mod logical;
pub mod order;
pub mod stack;
pub mod system;
pub mod util;
pub mod word;

use crate::lang::resource::Resources;
use crate::lang::text::Text;
use crate::lang::tokenizer::new_token_stream_from_str;
use crate::lang::vm::bodies_added;
use crate::lang::vm::more_bodies;
use crate::lang::vm::ran;
use crate::lang::vm::script_called;
use crate::lang::vm::Primitive;
use crate::lang::vm::Vm;
use crate::lang::vm::VmErrorReason;
use crate::lang::vm::VmExecutionState;
use crate::lang::vm::VmState;
use vstd::prelude::*;

verus! {

/// The built-in words, each under the name of the function that it is.
#[derive(Debug, Clone, Copy, PartialEq, Eq, Structural)]
pub enum Builtin {
    /// `stack::drop`.
    Drop,
    /// `stack::dup`.
    Dup,
    /// `stack::pick`.
    Pick,
    /// `stack::roll`.
    Roll,
    /// `arithmetic::plus`.
    Plus,
    /// `arithmetic::minus`.
    Minus,
    /// `arithmetic::multiple`.
    Multiple,
    /// `arithmetic::division`.
    Division,
    /// `arithmetic::modulus`.
    Modulus,
    /// `arithmetic::cplus`.
    CPlus,
    /// `arithmetic::dplus`.
    DPlus,
    /// `arithmetic::eplus`.
    EPlus,
    /// `bit::and`.
    BitAnd,
    /// `bit::or`.
    BitOr,
    /// `bit::xor`.
    BitXor,
    /// `bit::not`.
    BitNot,
    /// `bit::lshift`.
    LShift,
    /// `bit::rshift`.
    RShift,
    /// `bit::arshift`.
    ARShift,
    /// `logical::and`.
    And,
    /// `logical::or`.
    Or,
    /// `logical::not`.
    Not,
    /// `logical::eq`.
    Eq,
    /// `logical::noteq`.
    NotEq,
    /// `logical::less`.
    Less,
    /// `logical::lesseq`.
    LessEq,
    /// `logical::gt`.
    Gt,
    /// `logical::gteq`.
    GtEq,
    /// `environment::to_e`.
    ToE,
    /// `environment::pop_e`.
    PopE,
    /// `environment::peek_e`.
    PeekE,
    /// `environment::create_local`.
    CreateLocal,
    /// `controlflow::to_c`.
    ToC,
    /// `controlflow::pop_c`.
    PopC,
    /// `controlflow::peek_c`.
    PeekC,
    /// `system::quit`.
    Quit,
    /// `system::bye`.
    Bye,
    /// `system::to_interpletation`.
    ToInterpletation,
    /// `system::to_compilation`.
    ToCompilation,
    /// `system::load`.
    Load,
    /// `data::allot`.
    Allot,
    /// `data::create_one_cell`.
    CreateOneCell,
    /// `data::get`.
    Fetch,
    /// `data::set`.
    Store,
    /// `data::body`.
    Body,
    /// `data::constant`.
    Constant,
    /// `word::colon`.
    Colon,
    /// `word::noname`.
    Noname,
    /// `word::recursive`.
    Recursive,
    /// `word::semicolon`.
    Semicolon,
    /// `word::immidiate`.
    Immidiate,
    /// `word::defer`.
    Defer,
    /// `word::tick`.
    Tick,
    /// `word::is`.
    Is,
    /// `word::create`.
    Create,
    /// `word::recurse`.
    Recurse,
    /// `compile::parse`.
    Parse,
    /// `compile::parse_name`.
    ParseName,
    /// `compile::literal`.
    Literal,
    /// `compile::compile`.
    Compile,
    /// `compile::compile_immidiate`.
    CompileImmidiate,
    /// `compile::document_word`.
    DocumentWord,
    /// `compile::cdp`.
    Cdp,
    /// `compile::trap_dummy_instruction_execution`.
    TrapDummyInstructionExecution,
    /// `compile::trap_user_trap`.
    TrapUserTrap,
    /// `compile::jump`.
    Jump,
    /// `compile::branch`.
    Branch,
    /// `compile::exec`.
    Exec,
    /// `compile::ret`.
    Ret,
    /// `compile::instruction_at`.
    InstructionAt,
    /// `compile::postpone`.
    Postpone,
    /// `io::dot`.
    Dot,
    /// `io::cr`.
    Cr,
    /// `debug::dump_all`.
    DumpAll,
    /// `debug::dump_vm_state`.
    DumpVmState,
    /// `debug::dump_word`.
    DumpWord,
    /// `debug::dump_all_word`.
    DumpAllWord,
    /// `debug::dump_dictionary`.
    DumpDictionary,
    /// `debug::dump_stack`.
    DumpStack,
    /// `debug::dump_env`.
    DumpEnv,
    /// `debug::dump_controlflow_stack`.
    DumpControlflowStack,
}

/// Whether the built-in word `which` may take the machine from `before` to
/// `after` and hand back `r`.
pub open spec fn builtin_does<T: PartialEq + PartialOrd + Text, E, R: Resources, P: Copy + From<Builtin>>(
    which: Builtin,
    before: Vm<T, E, R, P>,
    after: Vm<T, E, R, P>,
    r: Result<(), VmErrorReason<E>>,
) -> bool {
    match which {
        Builtin::Drop => stack::drop_does(before, after, r),
        Builtin::Dup => stack::dup_does(before, after, r),
        Builtin::Pick => stack::pick_does(before, after, r),
        Builtin::Roll => stack::roll_does(before, after, r),
        Builtin::Plus => arithmetic::plus_does(before, after, r),
        Builtin::Minus => arithmetic::minus_does(before, after, r),
        Builtin::Multiple => arithmetic::multiple_does(before, after, r),
        Builtin::Division => arithmetic::division_does(before, after, r),
        Builtin::Modulus => arithmetic::modulus_does(before, after, r),
        Builtin::CPlus => arithmetic::cplus_does(before, after, r),
        Builtin::DPlus => arithmetic::dplus_does(before, after, r),
        Builtin::EPlus => arithmetic::eplus_does(before, after, r),
        Builtin::BitAnd => bit::and_does(before, after, r),
        Builtin::BitOr => bit::or_does(before, after, r),
        Builtin::BitXor => bit::xor_does(before, after, r),
        Builtin::BitNot => bit::not_does(before, after, r),
        Builtin::LShift => bit::lshift_does(before, after, r),
        Builtin::RShift => bit::rshift_does(before, after, r),
        Builtin::ARShift => bit::arshift_does(before, after, r),
        Builtin::And => logical::and_does(before, after, r),
        Builtin::Or => logical::or_does(before, after, r),
        Builtin::Not => logical::not_does(before, after, r),
        Builtin::Eq => logical::eq_does(before, after, r),
        Builtin::NotEq => logical::noteq_does(before, after, r),
        Builtin::Less => logical::less_does(before, after, r),
        Builtin::LessEq => logical::lesseq_does(before, after, r),
        Builtin::Gt => logical::gt_does(before, after, r),
        Builtin::GtEq => logical::gteq_does(before, after, r),
        Builtin::ToE => environment::to_e_does(before, after, r),
        Builtin::PopE => environment::pop_e_does(before, after, r),
        Builtin::PeekE => environment::peek_e_does(before, after, r),
        Builtin::CreateLocal => environment::create_local_does(before, after, r),
        Builtin::ToC => controlflow::to_c_does(before, after, r),
        Builtin::PopC => controlflow::pop_c_does(before, after, r),
        Builtin::PeekC => controlflow::peek_c_does(before, after, r),
        Builtin::Quit => system::quit_does(before, after, r),
        Builtin::Bye => system::bye_does(before, after, r),
        Builtin::ToInterpletation => system::to_interpletation_does(before, after, r),
        Builtin::ToCompilation => system::to_compilation_does(before, after, r),
        Builtin::Load => system::load_does(before, after, r),
        Builtin::Allot => data::allot_does(before, after, r),
        Builtin::CreateOneCell => data::create_one_cell_does(before, after, r),
        Builtin::Fetch => data::get_does(before, after, r),
        Builtin::Store => data::set_does(before, after, r),
        Builtin::Body => data::body_does(before, after, r),
        Builtin::Constant => data::constant_does(before, after, r),
        Builtin::Colon => word::colon_does(before, after, r),
        Builtin::Noname => word::noname_does(before, after, r),
        Builtin::Recursive => word::recursive_does(before, after, r),
        Builtin::Semicolon => word::semicolon_does(before, after, r),
        Builtin::Immidiate => word::immidiate_does(before, after, r),
        Builtin::Defer => word::defer_does(before, after, r),
        Builtin::Tick => word::tick_does(before, after, r),
        Builtin::Is => word::is_does(before, after, r),
        Builtin::Create => word::create_does(before, after, r),
        Builtin::Recurse => word::recurse_does(before, after, r),
        Builtin::Parse => compile::parse_does(before, after, r),
        Builtin::ParseName => compile::parse_name_does(before, after, r),
        Builtin::Literal => compile::literal_does(before, after, r),
        Builtin::Compile => compile::compile_does(before, after, r),
        Builtin::CompileImmidiate => compile::compile_immidiate_does(before, after, r),
        Builtin::DocumentWord => compile::document_word_does(before, after, r),
        Builtin::Cdp => compile::cdp_does(before, after, r),
        Builtin::TrapDummyInstructionExecution => compile::trap_dummy_instruction_execution_does(before, after, r),
        Builtin::TrapUserTrap => compile::trap_user_trap_does(before, after, r),
        Builtin::Jump => compile::jump_does(before, after, r),
        Builtin::Branch => compile::branch_does(before, after, r),
        Builtin::Exec => compile::exec_does(before, after, r),
        Builtin::Ret => compile::ret_does(before, after, r),
        Builtin::InstructionAt => compile::instruction_at_does(before, after, r),
        Builtin::Postpone => compile::postpone_does(before, after, r),
        Builtin::Dot => io::dot_does(before, after, r),
        Builtin::Cr => io::cr_does(before, after, r),
        Builtin::DumpAll => debug::dump_all_does(before, after, r),
        Builtin::DumpVmState => debug::dump_vm_state_does(before, after, r),
        Builtin::DumpWord => debug::dump_word_does(before, after, r),
        Builtin::DumpAllWord => debug::dump_all_word_does(before, after, r),
        Builtin::DumpDictionary => debug::dump_dictionary_does(before, after, r),
        Builtin::DumpStack => debug::dump_stack_does(before, after, r),
        Builtin::DumpEnv => debug::dump_env_does(before, after, r),
        Builtin::DumpControlflowStack => debug::dump_controlflow_stack_does(before, after, r),
    }
}

impl Builtin {
    /// Runs the word on `vm`.
    pub fn run<T: PartialEq + PartialOrd + Text, E, R: Resources, P: Copy + From<Builtin>>(
        &self,
        vm: &mut Vm<T, E, R, P>,
    ) -> (r: Result<(), VmErrorReason<E>>)
        ensures
            builtin_does(*self, *old(vm), *final(vm), r),
    {
        match self {
            Builtin::Drop => stack::drop(vm),
            Builtin::Dup => stack::dup(vm),
            Builtin::Pick => stack::pick(vm),
            Builtin::Roll => stack::roll(vm),
            Builtin::Plus => arithmetic::plus(vm),
            Builtin::Minus => arithmetic::minus(vm),
            Builtin::Multiple => arithmetic::multiple(vm),
            Builtin::Division => arithmetic::division(vm),
            Builtin::Modulus => arithmetic::modulus(vm),
            Builtin::CPlus => arithmetic::cplus(vm),
            Builtin::DPlus => arithmetic::dplus(vm),
            Builtin::EPlus => arithmetic::eplus(vm),
            Builtin::BitAnd => bit::and(vm),
            Builtin::BitOr => bit::or(vm),
            Builtin::BitXor => bit::xor(vm),
            Builtin::BitNot => bit::not(vm),
            Builtin::LShift => bit::lshift(vm),
            Builtin::RShift => bit::rshift(vm),
            Builtin::ARShift => bit::arshift(vm),
            Builtin::And => logical::and(vm),
            Builtin::Or => logical::or(vm),
            Builtin::Not => logical::not(vm),
            Builtin::Eq => logical::eq(vm),
            Builtin::NotEq => logical::noteq(vm),
            Builtin::Less => logical::less(vm),
            Builtin::LessEq => logical::lesseq(vm),
            Builtin::Gt => logical::gt(vm),
            Builtin::GtEq => logical::gteq(vm),
            Builtin::ToE => environment::to_e(vm),
            Builtin::PopE => environment::pop_e(vm),
            Builtin::PeekE => environment::peek_e(vm),
            Builtin::CreateLocal => environment::create_local(vm),
            Builtin::ToC => controlflow::to_c(vm),
            Builtin::PopC => controlflow::pop_c(vm),
            Builtin::PeekC => controlflow::peek_c(vm),
            Builtin::Quit => system::quit(vm),
            Builtin::Bye => system::bye(vm),
            Builtin::ToInterpletation => system::to_interpletation(vm),
            Builtin::ToCompilation => system::to_compilation(vm),
            Builtin::Load => system::load(vm),
            Builtin::Allot => data::allot(vm),
            Builtin::CreateOneCell => data::create_one_cell(vm),
            Builtin::Fetch => data::get(vm),
            Builtin::Store => data::set(vm),
            Builtin::Body => data::body(vm),
            Builtin::Constant => data::constant(vm),
            Builtin::Colon => word::colon(vm),
            Builtin::Noname => word::noname(vm),
            Builtin::Recursive => word::recursive(vm),
            Builtin::Semicolon => word::semicolon(vm),
            Builtin::Immidiate => word::immidiate(vm),
            Builtin::Defer => word::defer(vm),
            Builtin::Tick => word::tick(vm),
            Builtin::Is => word::is(vm),
            Builtin::Create => word::create(vm),
            Builtin::Recurse => word::recurse(vm),
            Builtin::Parse => compile::parse(vm),
            Builtin::ParseName => compile::parse_name(vm),
            Builtin::Literal => compile::literal(vm),
            Builtin::Compile => compile::compile(vm),
            Builtin::CompileImmidiate => compile::compile_immidiate(vm),
            Builtin::DocumentWord => compile::document_word(vm),
            Builtin::Cdp => compile::cdp(vm),
            Builtin::TrapDummyInstructionExecution => compile::trap_dummy_instruction_execution(vm),
            Builtin::TrapUserTrap => compile::trap_user_trap(vm),
            Builtin::Jump => compile::jump(vm),
            Builtin::Branch => compile::branch(vm),
            Builtin::Exec => compile::exec(vm),
            Builtin::Ret => compile::ret(vm),
            Builtin::InstructionAt => compile::instruction_at(vm),
            Builtin::Postpone => compile::postpone(vm),
            Builtin::Dot => io::dot(vm),
            Builtin::Cr => io::cr(vm),
            Builtin::DumpAll => debug::dump_all(vm),
            Builtin::DumpVmState => debug::dump_vm_state(vm),
            Builtin::DumpWord => debug::dump_word(vm),
            Builtin::DumpAllWord => debug::dump_all_word(vm),
            Builtin::DumpDictionary => debug::dump_dictionary(vm),
            Builtin::DumpStack => debug::dump_stack(vm),
            Builtin::DumpEnv => debug::dump_env(vm),
            Builtin::DumpControlflowStack => debug::dump_controlflow_stack(vm),
        }
    }
}

impl<T: PartialEq + PartialOrd + Text, E, R: Resources> Primitive<T, E, R> for Builtin {
    open spec fn effect(
        &self,
        before: Vm<T, E, R, Self>,
        after: Vm<T, E, R, Self>,
        result: Result<(), VmErrorReason<E>>,
    ) -> bool {
        builtin_does(*self, before, after, result)
    }

    fn invoke(&self, vm: &mut Vm<T, E, R, Self>) -> (r: Result<(), VmErrorReason<E>>) {
        self.run(vm)
    }
}

/// Has the machine read `script` next.
pub fn preload<T, E, R, P: Copy>(vm: &mut Vm<T, E, R, P>, script: &'static str)
    ensures
        script_called(*old(vm), *final(vm), final(vm).input),
        final(vm).input.reading().upcoming == crate::lang::utility::items(
            vstd::utf8::encode_utf8(script@),
        ),
{
    let token = new_token_stream_from_str(script);
    vm.call_script(token);
}

/// Defines the built-in words that are functions.
pub fn register<T, E, R, P: Copy + From<Builtin>>(vm: &mut Vm<T, E, R, P>)
    ensures
        registered(*old(vm), *final(vm)),
        final(vm).word_dictionary.committed().contains_key("drop"@),
        final(vm).word_dictionary.committed().contains_key("allot"@),
        final(vm).word_dictionary.committed().contains_key("quit"@),
        final(vm).word_dictionary.committed().contains_key("parse"@),
        final(vm).word_dictionary.committed().contains_key(":"@),
        final(vm).word_dictionary.committed().contains_key(";"@),
        final(vm).word_dictionary.committed().contains_key("+"@),
        final(vm).word_dictionary.committed().contains_key("="@),
        final(vm).word_dictionary.committed().contains_key("and"@),
        final(vm).word_dictionary.committed().contains_key(">C"@),
        final(vm).word_dictionary.committed().contains_key(">E"@),
        final(vm).word_dictionary.committed().contains_key("."@),
        final(vm).word_dictionary.committed().contains_key("see"@),
{
    let ghost start = vm.code_buffer@;
    stack::initialize(vm);
    let ghost code = vm.code_buffer@;
    data::initialize(vm);
    proof {
        more_bodies(start, code, vm.code_buffer@, 4, 6);
    }
    let ghost code = vm.code_buffer@;
    system::initialize(vm);
    proof {
        more_bodies(start, code, vm.code_buffer@, 10, 5);
    }
    let ghost code = vm.code_buffer@;
    compile::initialize(vm);
    proof {
        more_bodies(start, code, vm.code_buffer@, 15, 18);
    }
    let ghost code = vm.code_buffer@;
    word::initialize(vm);
    proof {
        more_bodies(start, code, vm.code_buffer@, 33, 11);
    }
    let ghost code = vm.code_buffer@;
    arithmetic::initialize(vm);
    proof {
        more_bodies(start, code, vm.code_buffer@, 44, 8);
    }
    let ghost code = vm.code_buffer@;
    logical::initialize(vm);
    proof {
        more_bodies(start, code, vm.code_buffer@, 52, 9);
    }
    let ghost code = vm.code_buffer@;
    bit::initialize(vm);
    proof {
        more_bodies(start, code, vm.code_buffer@, 61, 7);
    }
    let ghost code = vm.code_buffer@;
    controlflow::initialize(vm);
    proof {
        more_bodies(start, code, vm.code_buffer@, 68, 3);
    }
    let ghost code = vm.code_buffer@;
    environment::initialize(vm);
    proof {
        more_bodies(start, code, vm.code_buffer@, 71, 4);
    }
    let ghost code = vm.code_buffer@;
    io::initialize(vm);
    proof {
        more_bodies(start, code, vm.code_buffer@, 75, 2);
    }
    let ghost code = vm.code_buffer@;
    debug::initialize(vm);
    proof {
        more_bodies(start, code, vm.code_buffer@, 77, 8);
    }
}

/// How many rounds of work a built-in script may take.
pub const PRELOAD_LIMIT: usize = 0x1000_0000;

/// What running a script amounts to, given what the machine handed back:
/// a script that has not ended within the limit is a failure.
pub open spec fn script_outcome<E>(stopped: Result<bool, VmErrorReason<E>>) -> Result<
    (),
    VmErrorReason<E>,
> {
    match stopped {
        Ok(true) => Ok(()),
        Ok(false) => Err(VmErrorReason::InstructionError("a built-in script does not end")),
        Err(e) => Err(e),
    }
}

/// Whether running the script `text` to its end may take the machine from
/// `before` to `after` and hand back `r`: the script is called, and the
/// machine is run for at most [`PRELOAD_LIMIT`] rounds.
pub open spec fn script_run<T, E, R, P: Primitive<T, E, R>>(
    before: Vm<T, E, R, P>,
    after: Vm<T, E, R, P>,
    text: Seq<char>,
    r: Result<(), VmErrorReason<E>>,
) -> bool {
    exists|loaded: Vm<T, E, R, P>, stopped: Result<bool, VmErrorReason<E>>|
        #[trigger] ran(loaded, after, PRELOAD_LIMIT as nat, stopped) && script_called(
            before,
            loaded,
            loaded.input,
        ) && loaded.input.reading().upcoming == crate::lang::utility::items(
            vstd::utf8::encode_utf8(text),
        ) && r == script_outcome(stopped)
}

/// Whether running the scripts `texts` in turn, up to the first that
/// fails, may take the machine from `before` to `after` and hand back `r`.
pub open spec fn scripts_run<T, E, R, P: Primitive<T, E, R>>(
    before: Vm<T, E, R, P>,
    after: Vm<T, E, R, P>,
    texts: Seq<Seq<char>>,
    r: Result<(), VmErrorReason<E>>,
) -> bool
    decreases texts.len(),
{
    if texts.len() == 0 {
        after == before && r is Ok
    } else {
        exists|mid: Vm<T, E, R, P>, first: Result<(), VmErrorReason<E>>|
            #[trigger] script_run(before, mid, texts[0], first) && if first is Ok {
                scripts_run(mid, after, texts.drop_first(), r)
            } else {
                after == mid && r == first
            }
    }
}

/// Whether `after` is `before` with the built-in words that are functions:
/// the bodies of 85 primitives stand behind the code, and nothing but the
/// code, the dictionary and the debug store has changed.
pub open spec fn registered<T, E, R, P>(before: Vm<T, E, R, P>, after: Vm<T, E, R, P>) -> bool {
    &&& bodies_added(before.code_buffer@, after.code_buffer@, 85)
    &&& after.machine() == before.machine()
    &&& after.state == before.state
}

/// The texts of the built-in scripts, in the order in which they are run.
pub open spec fn preload_texts() -> Seq<Seq<char>> {
    seq![
        stack::PRELOAD_SCRIPT@,
        data::PRELOAD_SCRIPT@,
        system::PRELOAD_SCRIPT@,
        compile::PRELOAD_SCRIPT@,
        word::PRELOAD_SCRIPT@,
        arithmetic::PRELOAD_SCRIPT@,
        logical::PRELOAD_SCRIPT@,
        bit::PRELOAD_SCRIPT@,
        controlflow::PRELOAD_SCRIPT@,
        environment::PRELOAD_SCRIPT@,
        io::PRELOAD_SCRIPT@,
        debug::PRELOAD_SCRIPT@,
    ]
}

/// Whether defining the built-in words may take the machine from `before`
/// to `after` and hand back `r`: the words that are functions are
/// registered, and then the twelve built-in scripts are run in turn, up to
/// the first that fails.
pub open spec fn initialized<T, E, R, P: Primitive<T, E, R>>(
    before: Vm<T, E, R, P>,
    after: Vm<T, E, R, P>,
    r: Result<(), VmErrorReason<E>>,
) -> bool {
    exists|ready: Vm<T, E, R, P>|
        registered(before, ready) && #[trigger] scripts_run(ready, after, preload_texts(), r)
}

/// Runs the built-in script `script` to its end.
pub fn run_script<T, E, R, P: Primitive<T, E, R>>(
    vm: &mut Vm<T, E, R, P>,
    script: &'static str,
) -> (r: Result<(), VmErrorReason<E>>)
    ensures
        script_run(*old(vm), *final(vm), script@, r),
        r is Ok ==> final(vm).state == VmState::Interpretation && final(vm).execution_state
            == VmExecutionState::TokenIteration,
{
    preload(vm, script);
    let ghost loaded = *vm;
    let stopped = vm.exec(PRELOAD_LIMIT);
    assert(ran(loaded, *vm, PRELOAD_LIMIT as nat, stopped) && script_called(
        *old(vm),
        loaded,
        loaded.input,
    ));
    proof {
        if stopped == Ok::<bool, VmErrorReason<E>>(true) {
            crate::lang::vm::stopped_machine_is_ready(loaded, *vm, PRELOAD_LIMIT as nat);
        }
    }
    match stopped {
        Ok(true) => Ok(()),
        Ok(false) => Err(VmErrorReason::InstructionError("a built-in script does not end")),
        Err(e) => Err(e),
    }
}

/// Defines the built-in words: those that are functions, and then those
/// that the built-in scripts define. The first script that fails ends the
/// work, and its failure is handed back.
pub fn initialize<T, E, R, P: Primitive<T, E, R> + From<Builtin>>(vm: &mut Vm<T, E, R, P>) -> (r:
    Result<(), VmErrorReason<E>>)
    ensures
        initialized(*old(vm), *final(vm), r),
        r is Ok ==> final(vm).state == VmState::Interpretation && final(vm).execution_state
            == VmExecutionState::TokenIteration,
{
    register(vm);
    let ghost ready = *vm;
    let scripts: [&'static str; 12] = [
        stack::preload_script(),
        data::preload_script(),
        system::preload_script(),
        compile::preload_script(),
        word::preload_script(),
        arithmetic::preload_script(),
        logical::preload_script(),
        bit::preload_script(),
        controlflow::preload_script(),
        environment::preload_script(),
        io::preload_script(),
        debug::preload_script(),
    ];
    let ghost texts = scripts@.map_values(|t: &'static str| t@);
    let mut i: usize = 0;
    assert(texts =~= preload_texts());
    assert(texts.skip(0) =~= texts);
    while i < 12
        invariant
            i <= 12,
            registered(*old(vm), ready),
            texts == scripts@.map_values(|t: &'static str| t@),
            texts == preload_texts(),
            texts.len() == 12,
            i > 0 ==> vm.state == VmState::Interpretation && vm.execution_state
                == VmExecutionState::TokenIteration,
            forall|after: Vm<T, E, R, P>, res: Result<(), VmErrorReason<E>>| #[trigger]
                scripts_run(*vm, after, texts.skip(i as int), res) ==> scripts_run(
                    ready,
                    after,
                    texts,
                    res,
                ),
        decreases 12 - i,
    {
        let ghost here = *vm;
        let first = run_script(vm, scripts[i]);
        let ghost there = *vm;
        proof {
            assert(texts.skip(i as int)[0] == scripts@[i as int]@);
            assert(texts.skip(i as int).drop_first() =~= texts.skip(i + 1));
            assert(script_run(here, there, texts.skip(i as int)[0], first));
        }
        match first {
            Ok(_) => {
                proof {
                    assert forall|after: Vm<T, E, R, P>, res: Result<(), VmErrorReason<E>>| #[trigger]
                        scripts_run(there, after, texts.skip(i + 1), res) implies scripts_run(
                        ready,
                        after,
                        texts,
                        res,
                    ) by {
                        assert(scripts_run(here, after, texts.skip(i as int), res));
                    }
                }
            },
            Err(e) => {
                proof {
                    assert(scripts_run(here, there, texts.skip(i as int), first));
                }
                return Err(e);
            },
        }
        i = i + 1;
    }
    proof {
        assert(scripts_run(*vm, *vm, texts.skip(12), Ok::<(), VmErrorReason<E>>(())));
    }
    Ok(())
}

} // verus!
