use exst::lang::resource::ResourceErrorReason;
use exst::lang::resource::Resources;
use exst::lang::resource::StdResources;
use exst::lang::tokenizer::TokenStream;
use exst::lang::value::Value;
use exst::lang::vm::Primitive;
use exst::lang::vm::Vm;
use exst::lang::vm::VmErrorReason;
use exst::repl::context::CommandLine;
use exst::repl::context::Context;
use exst::repl::context::Program;
use exst::repl::exec::Executor;
use exst::repl::exec::Phase;
use exst::repl::exec::EXIT_CLEAN;
use exst::repl::exec::EXIT_FAILED;
use std::cell::RefCell;
use std::rc::Rc;

/// Resources that hold texts in memory, take the standard input from a
/// list of texts, and keep what is written.
struct Desk {
    texts: StdResources,
    input: RefCell<Vec<String>>,
    out: Rc<RefCell<String>>,
    err: Rc<RefCell<String>>,
}

impl Desk {
    fn new(texts: StdResources) -> Desk {
        Desk {
            texts,
            input: RefCell::new(Vec::new()),
            out: Rc::new(RefCell::new(String::new())),
            err: Rc::new(RefCell::new(String::new())),
        }
    }

    fn with_input(texts: StdResources, lines: &[&str]) -> Desk {
        let desk = Desk::new(texts);
        for line in lines.iter().rev() {
            desk.input.borrow_mut().push(String::from(*line));
        }
        desk
    }
}

impl Resources for Desk {
    fn write_stdout(&self, data: &str) {
        self.out.borrow_mut().push_str(data);
    }

    fn write_stderr(&self, data: &str) {
        self.err.borrow_mut().push_str(data);
    }

    fn get_token_iterator(&self, resource_name: &String) -> Result<TokenStream, ResourceErrorReason> {
        if resource_name == "%STDIN" {
            let text = self.input.borrow_mut().pop().unwrap_or_default();
            return self.texts.get_token_iterator(resource_name, Some(Ok(text.into_bytes())));
        }
        self.texts.get_token_iterator(resource_name, None)
    }

    fn get_string(&self, resource_name: &String) -> Result<String, ResourceErrorReason> {
        self.texts.get_string(resource_name, None)
    }
}

#[derive(Clone, Copy)]
enum Host {
    Plus,
    Fail,
}

type V = Vm<i32, i32, Desk, Host>;
type VError = VmErrorReason<i32>;

fn plus(v: &mut V) -> Result<(), VError> {
    if let Value::IntValue(v1) = *v.data_stack_mut().pop().unwrap() {
        if let Value::IntValue(v2) = *v.data_stack_mut().pop().unwrap() {
            v.data_stack_mut().push(Rc::new(Value::IntValue(v1 + v2)));
        }
    }
    Result::Ok(())
}

impl Primitive<i32, i32, Desk> for Host {
    fn invoke(&self, v: &mut V) -> Result<(), VError> {
        match self {
            Host::Plus => plus(v),
            Host::Fail => Err(VmErrorReason::ExtraPrimitiveWordError(42)),
        }
    }
}

const LIMIT: usize = 1_000_000;

fn example() -> Program {
    Program {
        name: String::from("example"),
        version: String::from("0.1.0"),
        author: String::from("nobody"),
        about: String::from("an example"),
    }
}

fn words(list: &[&str]) -> Vec<String> {
    list.iter().map(|s| String::from(*s)).collect()
}

fn machine(desk: Desk) -> V {
    let mut vm: V = Vm::new(desk);
    vm.define_primitive_word(String::from("+"), false, String::from("a b -- c"), Host::Plus);
    vm.define_primitive_word(String::from("fail"), false, String::from(" -- "), Host::Fail);
    vm
}

fn run<T, E: std::fmt::Debug, R: Resources, P: Primitive<T, E, R>>(e: &mut Executor<T, E, R, P>) -> i32 {
    loop {
        if let Some(code) = e.exec(LIMIT) {
            return code;
        }
    }
}

fn text_in(res: &StdResources, name: &str) -> String {
    res.get_string(&String::from(name), None).unwrap()
}

#[test]
fn test_default() {
    let mut ctx = Context::new();
    ctx.parse_arg(&example(), &words(&["example"])).unwrap();

    assert_eq!(ctx.debug_mode(), false);
    assert_eq!(ctx.start_module(), "%STDIN");
    assert_eq!(ctx.args().len(), 0);
}

#[test]
fn test_short_debug() {
    let mut ctx = Context::new();
    ctx.parse_arg(&example(), &words(&["example", "-d"])).unwrap();

    assert_eq!(ctx.debug_mode(), true);
    assert_eq!(ctx.start_module(), "%STDIN");
    assert_eq!(ctx.args().len(), 0);
}

#[test]
fn test_long_debug() {
    let mut ctx = Context::new();
    ctx.parse_arg(&example(), &words(&["example", "--debug"])).unwrap();

    assert_eq!(ctx.debug_mode(), true);
    assert_eq!(ctx.start_module(), "%STDIN");
    assert_eq!(ctx.args().len(), 0);
}

#[test]
fn test_short_start_module() {
    let mut ctx = Context::new();
    ctx.parse_arg(&example(), &words(&["example", "-m", "xxx"])).unwrap();

    assert_eq!(ctx.debug_mode(), false);
    assert_eq!(ctx.start_module(), "xxx");
    assert_eq!(ctx.args().len(), 0);
}

#[test]
fn test_long_start_module() {
    let mut ctx = Context::new();
    ctx.parse_arg(&example(), &words(&["example", "--module", "xxx"])).unwrap();

    assert_eq!(ctx.debug_mode(), false);
    assert_eq!(ctx.start_module(), "xxx");
    assert_eq!(ctx.args().len(), 0);
}

#[test]
fn test_short_args() {
    let mut ctx = Context::new();
    ctx.parse_arg(&example(), &words(&["example", "-a", "A", "B", "C"])).unwrap();

    assert_eq!(ctx.debug_mode(), false);
    assert_eq!(ctx.start_module(), "%STDIN");
    assert_eq!(ctx.args().len(), 3);
    assert_eq!(ctx.args()[0], "A");
    assert_eq!(ctx.args()[1], "B");
    assert_eq!(ctx.args()[2], "C");
}

#[test]
fn test_long_args() {
    let mut ctx = Context::new();
    ctx.parse_arg(&example(), &words(&["example", "--arg", "A", "B", "C"])).unwrap();

    assert_eq!(ctx.debug_mode(), false);
    assert_eq!(ctx.start_module(), "%STDIN");
    assert_eq!(ctx.args().len(), 3);
    assert_eq!(ctx.args()[0], "A");
    assert_eq!(ctx.args()[1], "B");
    assert_eq!(ctx.args()[2], "C");
}

#[test]
fn test_short_vars() {
    let mut ctx = Context::new();
    let res = ctx.parse_arg(&example(), &words(&["example", "-v", "A=a", "B=", "C"])).unwrap();

    assert_eq!(ctx.debug_mode(), false);
    assert_eq!(ctx.start_module(), "%STDIN");
    assert_eq!(text_in(&res, "$A"), "a");
    assert_eq!(text_in(&res, "$B"), "");
    assert_eq!(text_in(&res, "$C"), "");
}

#[test]
fn test_long_vars() {
    let mut ctx = Context::new();
    let res = ctx.parse_arg(&example(), &words(&["example", "--var", "A=a", "B=", "C"])).unwrap();

    assert_eq!(ctx.debug_mode(), false);
    assert_eq!(ctx.start_module(), "%STDIN");
    assert_eq!(text_in(&res, "$A"), "a");
    assert_eq!(text_in(&res, "$B"), "");
    assert_eq!(text_in(&res, "$C"), "");
}

#[test]
fn test_main() {
    let mut ctx = Context::new();
    let res = ctx
        .parse_arg(
            &example(),
            &words(&["example", "-m", "$MAIN", "-v", "MAIN=1 2 +", "-a", "1", "2"]),
        )
        .unwrap();
    let vm = machine(Desk::new(res));
    let mut e = ctx.create(vm);
    assert_eq!(run(&mut e), 0);
}

#[test]
fn root_option_sets_the_project_root() {
    let mut ctx = Context::new();
    let res = ctx.parse_arg(&example(), &words(&["example", "-r", "/srv/project"])).unwrap();
    assert_eq!(res.project_root(), "/srv/project");
    let mut ctx = Context::new();
    let res = ctx.parse_arg(&example(), &words(&["example", "--root", "here"])).unwrap();
    assert_eq!(res.project_root(), "here");
    let mut ctx = Context::new();
    let res = ctx.parse_arg(&example(), &words(&["example"])).unwrap();
    assert_eq!(res.project_root(), ".");
}

#[test]
fn all_options_together() {
    let mut ctx = Context::new();
    let res = ctx
        .parse_arg(
            &example(),
            &words(&["example", "-d", "-r", "root", "-m", "$M", "-v", "M=1", "N=2=3", "-a", "x", "y"]),
        )
        .unwrap();
    assert_eq!(ctx.debug_mode(), true);
    assert_eq!(ctx.start_module(), "$M");
    assert_eq!(ctx.args(), &words(&["x", "y"]));
    assert_eq!(res.project_root(), "root");
    assert_eq!(text_in(&res, "$M"), "1");
    assert_eq!(text_in(&res, "$N"), "2=3");
}

#[test]
fn unknown_option_is_a_failure_and_changes_nothing() {
    let mut ctx = Context::new();
    let e = ctx.parse_arg(&example(), &words(&["example", "--nothing"])).err().unwrap();
    assert!(e.failure);
    assert!(!e.message.is_empty());
    assert_eq!(ctx.debug_mode(), false);
    assert_eq!(ctx.start_module(), "%STDIN");
    assert_eq!(ctx.args().len(), 0);
}

#[test]
fn request_for_help_is_no_failure() {
    let mut ctx = Context::new();
    let e = ctx.parse_arg(&example(), &words(&["example", "--help"])).err().unwrap();
    assert!(!e.failure);
    assert!(e.message.contains("--module"));
    assert!(e.message.contains("--debug"));
    assert!(e.message.contains("--root"));
    assert!(e.message.contains("--var"));
    assert!(e.message.contains("--arg"));
    assert!(e.message.contains("an example"));
}

#[test]
fn request_for_the_version_is_no_failure() {
    let mut ctx = Context::new();
    let e = ctx.parse_arg(&example(), &words(&["example", "--version"])).err().unwrap();
    assert!(!e.failure);
}

#[test]
fn new_context_reads_the_standard_input() {
    let ctx = Context::new();
    assert_eq!(ctx.debug_mode(), false);
    assert_eq!(ctx.start_module(), "%STDIN");
    assert!(ctx.args().is_empty());
}

#[test]
fn parse_variable_splits_at_the_first_equals_sign() {
    assert_eq!(Context::parse_variable("A=a"), (String::from("A"), String::from("a")));
    assert_eq!(Context::parse_variable("B="), (String::from("B"), String::new()));
    assert_eq!(Context::parse_variable("C"), (String::from("C"), String::new()));
    assert_eq!(Context::parse_variable(""), (String::new(), String::new()));
    assert_eq!(Context::parse_variable("=x"), (String::new(), String::from("x")));
    assert_eq!(Context::parse_variable("a=b=c"), (String::from("a"), String::from("b=c")));
    assert_eq!(Context::parse_variable("名前=値"), (String::from("名前"), String::from("値")));
}

#[test]
fn configure_takes_defaults_where_nothing_is_given() {
    let mut ctx = Context::new();
    let res = ctx.configure(CommandLine {
        debug: true,
        module: None,
        root: None,
        arguments: None,
        variables: None,
    });
    assert_eq!(ctx.debug_mode(), true);
    assert_eq!(ctx.start_module(), "%STDIN");
    assert!(ctx.args().is_empty());
    assert_eq!(res.project_root(), ".");
    assert!(res.get_string(&String::from("$A"), None).is_err());
}

#[test]
fn configure_lets_a_later_variable_replace_an_earlier_one() {
    let mut ctx = Context::new();
    let res = ctx.configure(CommandLine {
        debug: false,
        module: Some(String::from("$A")),
        root: Some(String::from("r")),
        arguments: Some(words(&["1"])),
        variables: Some(words(&["A=first", "B=b", "A=second"])),
    });
    assert_eq!(ctx.start_module(), "$A");
    assert_eq!(ctx.args(), &words(&["1"]));
    assert_eq!(res.project_root(), "r");
    assert_eq!(text_in(&res, "$A"), "second");
    assert_eq!(text_in(&res, "$B"), "b");
}

#[test]
fn phase_after_a_round() {
    assert_eq!(Phase::after(false, false, Some(true)), Phase::Finished(0));
    assert_eq!(Phase::after(false, true, Some(true)), Phase::Finished(0));
    assert_eq!(Phase::after(true, true, Some(true)), Phase::Finished(100));
    assert_eq!(Phase::after(false, false, Some(false)), Phase::Running);
    assert_eq!(Phase::after(true, true, Some(false)), Phase::Debugging);
    assert_eq!(Phase::after(false, false, None), Phase::Finished(100));
    assert_eq!(Phase::after(false, true, None), Phase::DebugReady);
    assert_eq!(Phase::after(true, true, None), Phase::DebugReady);
    assert_eq!(EXIT_CLEAN, 0);
    assert_eq!(EXIT_FAILED, 100);
}

#[test]
fn exit_code_only_when_finished() {
    assert_eq!(Phase::Ready.exit_code(), None);
    assert_eq!(Phase::Running.exit_code(), None);
    assert_eq!(Phase::DebugReady.exit_code(), None);
    assert_eq!(Phase::Debugging.exit_code(), None);
    assert_eq!(Phase::Finished(7).exit_code(), Some(7));
}

fn context_of(list: &[&str]) -> (Context, StdResources) {
    let mut ctx = Context::new();
    let res = ctx.parse_arg(&example(), &words(list)).unwrap();
    (ctx, res)
}

#[test]
fn clean_run_ends_with_zero_and_loads_the_arguments() {
    let (ctx, res) = context_of(&["example", "-m", "$MAIN", "-v", "MAIN=1 2 +", "-a", "x", "y"]);
    let mut e = ctx.create(machine(Desk::new(res)));
    assert_eq!(e.phase, Phase::Ready);
    assert_eq!(e.exec(LIMIT), Some(0));
    assert_eq!(e.phase, Phase::Finished(0));
    assert_eq!(e.vm.data_stack().here().0, 1);
    assert!(matches!(*e.vm.data_stack().peek().unwrap(), Value::IntValue(3)));
    assert_eq!(e.vm.env_stack().here().0, 2);
    assert_eq!(e.exec(LIMIT), Some(0));
}

#[test]
fn failure_without_debug_mode_ends_with_one_hundred() {
    let (ctx, res) = context_of(&["example", "-m", "$MAIN", "-v", "MAIN=1 fail 2"]);
    let desk = Desk::new(res);
    let err = desk.err.clone();
    let out = desk.out.clone();
    let mut e = ctx.create(machine(desk));
    assert_eq!(run(&mut e), 100);
    assert_eq!(err.borrow().as_str(), "#### ERROR: ExtraPrimitiveWordError(42) ####\n");
    assert_eq!(out.borrow().as_str(), "");
}

#[test]
fn missing_module_is_a_failure() {
    let (ctx, res) = context_of(&["example", "-m", "$NONE"]);
    let desk = Desk::new(res);
    let err = desk.err.clone();
    let mut e = ctx.create(machine(desk));
    assert_eq!(e.exec(LIMIT), Some(100));
    assert!(err.borrow().starts_with("#### ERROR: ResourceError(ResourceNotFound("));
}

#[test]
fn failure_in_debug_mode_is_followed_by_sessions_until_one_is_clean() {
    let (ctx, res) = context_of(&["example", "-d", "-m", "$MAIN", "-v", "MAIN=1 nothing"]);
    let desk = Desk::with_input(res, &["2 other", "3 +"]);
    let err = desk.err.clone();
    let out = desk.out.clone();
    let mut e = ctx.create(machine(desk));
    assert_eq!(e.exec(LIMIT), None);
    assert_eq!(e.phase, Phase::DebugReady);
    assert_eq!(out.borrow().as_str(), "#### START DEBUG ####\n");
    assert_eq!(err.borrow().as_str(), "#### ERROR: WordError(UndefinedWord(\"nothing\")) ####\n");
    assert_eq!(e.exec(LIMIT), None);
    assert_eq!(e.phase, Phase::DebugReady);
    assert_eq!(e.exec(LIMIT), Some(100));
    assert_eq!(e.phase, Phase::Finished(100));
    assert_eq!(out.borrow().as_str(), "#### START DEBUG ####\n".repeat(2));
    assert_eq!(err.borrow().matches("#### ERROR: ").count(), 2);
    assert!(matches!(*e.vm.data_stack().peek().unwrap(), Value::IntValue(5)));
    assert_eq!(e.vm.data_stack().here().0, 2);
}

#[test]
fn session_goes_back_to_what_had_failed() {
    let (ctx, res) = context_of(&["example", "-d", "-m", "$MAIN", "-v", "MAIN=fail"]);
    let desk = Desk::with_input(res, &["1 2 +"]);
    let err = desk.err.clone();
    let mut e = ctx.create(machine(desk));
    assert_eq!(e.exec(LIMIT), None);
    assert_eq!(e.exec(LIMIT), None);
    assert_eq!(e.phase, Phase::DebugReady);
    assert_eq!(err.borrow().as_str(), "#### ERROR: ExtraPrimitiveWordError(42) ####\n".repeat(2));
    assert!(matches!(*e.vm.data_stack().peek().unwrap(), Value::IntValue(3)));
}

#[test]
fn run_that_uses_up_its_rounds_goes_on_in_the_next_part() {
    let (ctx, res) = context_of(&["example", "-m", "$MAIN", "-v", "MAIN=1 2 + 3 +"]);
    let mut e = ctx.create(machine(Desk::new(res)));
    assert_eq!(e.exec(1), None);
    assert_eq!(e.phase, Phase::Running);
    let mut parts = 1;
    while e.exec(1).is_none() {
        parts += 1;
        assert!(parts < 100);
    }
    assert_eq!(e.phase, Phase::Finished(0));
    assert!(matches!(*e.vm.data_stack().peek().unwrap(), Value::IntValue(6)));
}

#[test]
fn simple_exec_enters_the_module() {
    let (_, res) = context_of(&["example", "-v", "MAIN=1 2 +"]);
    let mut vm = machine(Desk::new(res));
    let r = Executor::simple_exec(&mut vm, &String::from("$MAIN"), &words(&["a"]), LIMIT);
    assert!(matches!(r, Ok(true)));
    assert!(matches!(*vm.data_stack().peek().unwrap(), Value::IntValue(3)));
    assert!(matches!(&*vm.env_stack().peek().unwrap(), Value::StrValue(s) if s == "a"));
    let r = Executor::simple_exec(&mut vm, &String::from("$OTHER"), &words(&[]), LIMIT);
    assert!(matches!(r, Err(VmErrorReason::ResourceError(ResourceErrorReason::ResourceNotFound(_)))));
}
