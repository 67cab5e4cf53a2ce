//! The rounds in which the virtual machine is run.

use super::context::Context;
use crate::lang::resource::ResourceErrorReason;
use crate::lang::resource::Resources;
use crate::lang::tokenizer::TokenStream;
use crate::lang::vm::ran;
use crate::lang::vm::ran_with_args;
use crate::lang::vm::script_called;
use crate::lang::vm::Primitive;
use crate::lang::vm::Vm;
use crate::lang::vm::VmErrorReason;
use crate::lang::vm::VmExecutionState;
use crate::lang::vm::VmState;
use std::fmt::Debug;
use vstd::prelude::*;
use vstd::string::StringExecFns;

verus! {

/// How far a run has come.
#[derive(Debug, Clone, Copy, PartialEq, Eq, Structural)]
pub enum Phase {
    /// The start module has not been entered yet.
    Ready,
    /// The start module is being run.
    Running,
    /// A run has failed, and a session on the standard input is to begin.
    DebugReady,
    /// A session on the standard input is being run.
    Debugging,
    /// The run is over, with this exit code.
    Finished(i32),
}

/// The exit code of a run without a failure.
pub const EXIT_CLEAN: i32 = 0;

/// The exit code of a run in which something failed, also where a session
/// on the standard input followed and went well.
pub const EXIT_FAILED: i32 = 100;

/// The phase that follows a round. `debugging` says whether the round
/// belonged to a session on the standard input, `debug_mode` whether such
/// sessions are wanted, and `outcome` what the machine handed back: that
/// it has stopped, that it has not, or nothing where it failed.
pub open spec fn phase_after(debugging: bool, debug_mode: bool, outcome: Option<bool>) -> Phase {
    match outcome {
        Some(true) => Phase::Finished(
            if debugging {
                EXIT_FAILED
            } else {
                EXIT_CLEAN
            },
        ),
        Some(false) => if debugging {
            Phase::Debugging
        } else {
            Phase::Running
        },
        None => if debugging || debug_mode {
            Phase::DebugReady
        } else {
            Phase::Finished(EXIT_FAILED)
        },
    }
}

/// What a result of the machine says to the run: whether it has stopped,
/// or nothing where it failed.
pub open spec fn outcome_of<E>(r: Result<bool, VmErrorReason<E>>) -> Option<bool> {
    match r {
        Ok(stopped) => Some(stopped),
        Err(_) => None,
    }
}

impl Phase {
    /// The exit code, once the run is over.
    pub open spec fn spec_exit_code(self) -> Option<i32> {
        match self {
            Phase::Finished(code) => Some(code),
            _ => None,
        }
    }

    /// The exit code, once the run is over.
    #[verifier::when_used_as_spec(spec_exit_code)]
    pub fn exit_code(self) -> (r: Option<i32>)
        ensures
            r == self.spec_exit_code(),
    {
        match self {
            Phase::Finished(code) => Some(code),
            _ => None,
        }
    }

    /// The phase that follows a round.
    pub fn after(debugging: bool, debug_mode: bool, outcome: Option<bool>) -> (r: Phase)
        ensures
            r == phase_after(debugging, debug_mode, outcome),
    {
        match outcome {
            Some(true) => Phase::Finished(
                if debugging {
                    EXIT_FAILED
                } else {
                    EXIT_CLEAN
                },
            ),
            Some(false) => if debugging {
                Phase::Debugging
            } else {
                Phase::Running
            },
            None => if debugging || debug_mode {
                Phase::DebugReady
            } else {
                Phase::Finished(EXIT_FAILED)
            },
        }
    }
}

/// Whether entering the module `module` with the arguments `args` and
/// running it for at most `limit` rounds may take the machine from `before`
/// to `after` and hand back `r`. The resources are asked for the tokens of
/// the module. Where they have none, that is the failure, and nothing
/// changes. Where they have them, that script is called, the machine is set
/// to interpret tokens, and it is run with the arguments.
pub open spec fn started<T, E, R: Resources, P: Primitive<T, E, R>>(
    before: Vm<T, E, R, P>,
    module: Seq<char>,
    after: Vm<T, E, R, P>,
    args: Seq<String>,
    limit: nat,
    r: Result<bool, VmErrorReason<E>>,
) -> bool {
    exists|got: Result<TokenStream, ResourceErrorReason>| #[trigger]
        before.resources.gives(module, got) && match got {
            Err(e) => r == Err::<bool, VmErrorReason<E>>(VmErrorReason::ResourceError(e)) && after
                == before,
            Ok(script) => exists|called: Vm<T, E, R, P>| #[trigger]
                script_called(before, called, script) && ran_with_args(
                    (Vm {
                        execution_state: VmExecutionState::TokenIteration,
                        state: VmState::Interpretation,
                        ..called
                    }),
                    after,
                    args,
                    limit,
                    r,
                ),
        }
}

/// Calls `format` of std with the `Debug` form of `e`: the text of `e` as
/// `derive` has it written. Nothing is claimed of the text.
#[verifier::external_body]
fn debug_text<E: Debug>(e: &VmErrorReason<E>) -> (r: String) {
    format!("{:?}", e)
}

/// A virtual machine and the run that it is in.
pub struct Executor<T, E, R, P> {
    /// The machine.
    pub vm: Vm<T, E, R, P>,
    /// What the command line has asked for.
    pub ctx: Context,
    /// How far the run has come.
    pub phase: Phase,
}

impl<T, E: Debug, R: Resources, P: Primitive<T, E, R>> Executor<T, E, R, P> {
    /// A run of `vm` that has not begun.
    pub fn new(vm: Vm<T, E, R, P>, ctx: Context) -> (r: Self)
        ensures
            r.vm == vm,
            r.ctx == ctx,
            r.phase == Phase::Ready,
    {
        Executor { vm, ctx, phase: Phase::Ready }
    }

    /// Enters the module `module` and runs it with the arguments `args`,
    /// for at most `limit` rounds.
    pub fn simple_exec(vm: &mut Vm<T, E, R, P>, module: &String, args: &Vec<String>, limit: usize) -> (r:
        Result<bool, VmErrorReason<E>>)
        ensures
            started(*old(vm), module@, *final(vm), args@, limit as nat, r),
    {
        let got = vm.resources.get_token_iterator(module);
        assert(old(vm).resources.gives(module@, got));
        let start_module = match got {
            Ok(script) => script,
            Err(e) => {
                return Err(VmErrorReason::ResourceError(e));
            },
        };
        vm.call_script(start_module);
        let ghost called = *vm;
        vm.reset_vm_state();
        let r = vm.exec_with_args(args, limit);
        assert(script_called(*old(vm), called, start_module));
        r
    }

    /// Writes the failure `e` to the standard error.
    fn print_error(vm: &Vm<T, E, R, P>, e: &VmErrorReason<E>) {
        let mut text = "#### ERROR: ".to_owned();
        text.append(debug_text(e).as_str());
        text.append(" ####\n");
        vm.resources.write_stderr(text.as_str());
    }

    /// Writes to the standard output that a session on the standard input
    /// begins.
    fn print_debug_mode(vm: &Vm<T, E, R, P>) {
        vm.resources.write_stdout("#### START DEBUG ####\n");
    }

    /// Does the next part of the run, with at most `limit` rounds of the
    /// machine, and hands back the exit code once the run is over.
    ///
    /// A run begins with the start module and its arguments. Where the
    /// machine stops without a failure, the run is over and clean. A
    /// failure is written to the standard error. Without the debug mode it
    /// ends the run; with it, a session follows: the standard input is
    /// entered without arguments, again and again until the machine stops
    /// without a failure, and the run is then over as a failed one. A
    /// machine that has used up its rounds goes on in the next part.
    pub fn exec(&mut self, limit: usize) -> (code: Option<i32>)
        ensures
            final(self).ctx == old(self).ctx,
            code == final(self).phase.exit_code(),
            match old(self).phase {
                Phase::Finished(_) => *final(self) == *old(self),
                Phase::Ready => exists|r: Result<bool, VmErrorReason<E>>| #[trigger]
                    started(
                        old(self).vm,
                        old(self).ctx.module(),
                        final(self).vm,
                        old(self).ctx.arguments(),
                        limit as nat,
                        r,
                    )
                        && final(self).phase == phase_after(
                        false,
                        old(self).ctx.debugging(),
                        outcome_of(r),
                    ),
                Phase::Running => exists|r: Result<bool, VmErrorReason<E>>| #[trigger]
                    ran(old(self).vm, final(self).vm, limit as nat, r) && final(self).phase
                        == phase_after(false, old(self).ctx.debugging(), outcome_of(r)),
                Phase::DebugReady => exists|r: Result<bool, VmErrorReason<E>>| #[trigger]
                    started(
                        old(self).vm,
                        "%STDIN"@,
                        final(self).vm,
                        Seq::<String>::empty(),
                        limit as nat,
                        r,
                    )
                        && final(self).phase == phase_after(true, true, outcome_of(r)),
                Phase::Debugging => exists|r: Result<bool, VmErrorReason<E>>| #[trigger]
                    ran(old(self).vm, final(self).vm, limit as nat, r) && final(self).phase
                        == phase_after(true, true, outcome_of(r)),
            },
    {
        let debugging = match self.phase {
            Phase::Finished(code) => {
                return Some(code);
            },
            Phase::Ready | Phase::Running => false,
            Phase::DebugReady | Phase::Debugging => true,
        };
        let r = match self.phase {
            Phase::Ready => Self::simple_exec(
                &mut self.vm,
                self.ctx.start_module(),
                self.ctx.args(),
                limit,
            ),
            Phase::DebugReady => {
                let stdin = "%STDIN".to_owned();
                let none: Vec<String> = Vec::new();
                Self::simple_exec(&mut self.vm, &stdin, &none, limit)
            },
            _ => self.vm.exec(limit),
        };
        let outcome = match &r {
            Ok(stopped) => Some(*stopped),
            Err(e) => {
                Self::print_error(&self.vm, e);
                if debugging || self.ctx.debug_mode() {
                    Self::print_debug_mode(&self.vm);
                }
                None
            },
        };
        self.phase = Phase::after(debugging, self.ctx.debug_mode(), outcome);
        self.phase.exit_code()
    }
}

} // verus!
