use exst::lang::mem::BufferErrorReason;
use exst::lang::mem::CodeBufferErrorReason;
use exst::lang::mem::DataStackErrorReason;
use exst::lang::mem::EnvironmentStackErrorReason;
use exst::lang::mem::LongJumpStackErrorReason;
use exst::lang::mem::ReturnStackErrorReason;
use exst::lang::resource::ResourceErrorReason;
use exst::lang::resource::Resources;
use exst::lang::resource::StdResources;
use exst::lang::tokenizer::new_token_stream_from_str;
use exst::lang::tokenizer::Token;
use exst::lang::tokenizer::TokenStream;
use exst::lang::tokenizer::TokenizerError;
use exst::lang::tokenizer::TokenizerErrorReason;
use exst::lang::tokenizer::ValueToken;
use exst::lang::value::Address;
use exst::lang::value::CodeAddress;
use exst::lang::value::DataStackAddress;
use exst::lang::value::DebugLabel;
use exst::lang::value::EnvironmentStackAddress;
use exst::lang::value::EnvironmentStackRelativeAddress;
use exst::lang::value::Instruction;
use exst::lang::value::ReturnStackAddress;
use exst::lang::value::TrapReason;
use exst::lang::value::Value;
use exst::lang::vm::compile::compile_token;
use exst::lang::vm::Primitive;
use exst::lang::vm::Vm;
use exst::lang::vm::VmErrorReason;
use exst::lang::vm::VmExecutionState;
use exst::lang::vm::VmState;
use exst::lang::word::Word;
use exst::lang::word::WordErrorReason;
use std::rc::Rc;

/// Resources that hold texts in memory and have nothing else.
struct Texts(StdResources);

impl Resources for Texts {
    fn write_stdout(&self, _data: &str) {}

    fn write_stderr(&self, _data: &str) {}

    fn get_token_iterator(&self, resource_name: &String) -> Result<TokenStream, ResourceErrorReason> {
        self.0.get_token_iterator(resource_name, None)
    }

    fn get_string(&self, resource_name: &String) -> Result<String, ResourceErrorReason> {
        self.0.get_string(resource_name, None)
    }
}

#[derive(Clone, Copy)]
enum Host {
    Plus,
    Fail,
    ThreeThenFail,
    Quit,
}

type V = Vm<i32, i32, Texts, Host>;
type VError = VmErrorReason<i32>;

fn plus(v: &mut V) -> Result<(), VError> {
    if let Value::IntValue(v1) = *v.data_stack_mut().pop().unwrap() {
        if let Value::IntValue(v2) = *v.data_stack_mut().pop().unwrap() {
            v.data_stack_mut().push(Rc::new(Value::IntValue(v1 + v2)));
        }
    }
    Result::Ok(())
}

impl Primitive<i32, i32, Texts> for Host {
    fn invoke(&self, v: &mut V) -> Result<(), VError> {
        match self {
            Host::Plus => plus(v),
            Host::Fail => Err(VmErrorReason::ExtraPrimitiveWordError(42)),
            Host::ThreeThenFail => {
                v.data_stack_mut().push(Rc::new(Value::IntValue(1)));
                v.data_stack_mut().push(Rc::new(Value::IntValue(2)));
                v.data_stack_mut().push(Rc::new(Value::IntValue(3)));
                Err(VmErrorReason::ExtraPrimitiveWordError(7))
            }
            Host::Quit => {
                v.set_state(VmState::Return);
                Ok(())
            }
        }
    }
}

const LIMIT: usize = 1_000_000;

fn texts(pairs: &[(&str, &str)]) -> StdResources {
    let mut r = StdResources::new(String::from("this"));
    for (name, text) in pairs {
        r.add_resource(String::from(*name), String::from(*text));
    }
    r
}

fn tokens_of(r: &StdResources, name: &str) -> TokenStream {
    r.get_token_iterator(&String::from(name), None).unwrap()
}

fn machine() -> V {
    Vm::new(Texts(StdResources::new(String::from("this"))))
}

fn cell(v: i32) -> Rc<Value<i32>> {
    Rc::new(Value::IntValue(v))
}

/// Takes the integers off the data stack, the lowest first.
fn drain(v: &mut V) -> Vec<i32> {
    let mut out = Vec::new();
    while let Ok(top) = v.data_stack_mut().pop() {
        match *top {
            Value::IntValue(i) => out.push(i),
            _ => panic!("only integers are expected on the stack"),
        }
    }
    out.reverse();
    out
}

#[test]
fn test_simple_interpretation() {
    let r = texts(&[("", "1 \"2\" 3")]);

    let s = tokens_of(&r, "$");
    let mut v: V = Vm::new(Texts(r));
    v.call_script(s);
    assert_eq!(v.exec(LIMIT).expect("!"), true);

    assert_eq!(*v.data_stack_mut().pop().unwrap(), Value::IntValue(3));
    assert_eq!(*v.data_stack_mut().pop().unwrap(), Value::StrValue(String::from("2")));
    assert_eq!(*v.data_stack_mut().pop().unwrap(), Value::IntValue(1));
}

#[test]
fn test_simple_compilation() {
    let r = texts(&[("", "1 \"2\" 3")]);

    let s = tokens_of(&r, "$");
    let mut v: V = Vm::new(Texts(r));
    v.call_script(s);
    v.set_state(VmState::Compilation);
    assert_eq!(v.exec(LIMIT).expect("!"), true);

    assert_eq!(v.data_stack_mut().pop().is_err(), true);
    assert_eq!(
        match v.code_buffer_mut().get(From::from(0)) {
            Result::Ok(Instruction::Push(ref val)) if **val == Value::IntValue(1) => true,
            _ => false,
        },
        true
    );
    assert_eq!(
        match v.code_buffer_mut().get(From::from(1)) {
            Result::Ok(Instruction::Push(ref val)) if **val == Value::StrValue(String::from("2")) =>
                true,
            _ => false,
        },
        true
    );
    assert_eq!(
        match v.code_buffer_mut().get(From::from(2)) {
            Result::Ok(Instruction::Push(ref val)) if **val == Value::IntValue(3) => true,
            _ => false,
        },
        true
    );
}

#[test]
fn test_word_primitive_call() {
    let r = texts(&[("", "1 2 + 3 +")]);

    let s = tokens_of(&r, "$");
    let mut v: V = Vm::new(Texts(r));
    v.define_primitive_word(String::from("+"), false, String::from("NO COMMENT"), Host::Plus);
    v.call_script(s);
    assert_eq!(v.exec(LIMIT).expect("!"), true);

    assert_eq!(*v.data_stack_mut().pop().unwrap(), Value::IntValue(6));
    assert_eq!(v.data_stack_mut().pop().is_err(), true);
}

#[test]
fn test_script_call() {
    let r = texts(&[("1", "1 2 + 3 +"), ("2", "2 3 + 4 +"), ("3", "1 + +")]);

    let s1 = tokens_of(&r, "$1");
    let s2 = tokens_of(&r, "$2");
    let s3 = tokens_of(&r, "$3");
    let mut v: V = Vm::new(Texts(r));
    v.define_primitive_word(String::from("+"), false, String::from("NO COMMENT"), Host::Plus);
    v.call_script(s3);
    v.call_script(s2);
    v.call_script(s1);
    assert_eq!(v.exec(LIMIT).expect("!"), true);

    assert_eq!(*v.data_stack_mut().pop().unwrap(), Value::IntValue(16));
    assert_eq!(v.data_stack_mut().pop().is_err(), true);
}

fn define_from(v: &mut V, name: &str, body: TokenStream, terminator: bool) {
    let code_point = v.code_buffer_mut().here();
    v.word_dictionary_mut().reserve_word_def(String::from(name), Word::new(code_point));
    v.call_script(body);
    v.set_state(VmState::Compilation);
    assert_eq!(v.exec(LIMIT).expect("!"), true);
    v.code_buffer_mut().push(Instruction::Return);
    if terminator {
        v.code_buffer_mut().push(Instruction::DebugLabel(DebugLabel::WordTerminator));
    }
    v.word_dictionary_mut().complate_word_def().unwrap();
}

#[test]
fn test_user_word_call() {
    let r = texts(&[("1", "1 +"), ("2", "2 w1 +"), ("3", "3 w2 +"), ("4", "4 w3")]);

    let w1 = tokens_of(&r, "$1");
    let w2 = tokens_of(&r, "$2");
    let w3 = tokens_of(&r, "$3");
    let s1 = tokens_of(&r, "$4");
    let mut v: V = Vm::new(Texts(r));

    v.define_primitive_word(String::from("+"), false, String::from("NO COMMENT"), Host::Plus);

    define_from(&mut v, "w1", w1, false);
    assert_eq!(v.data_stack_mut().pop().is_err(), true);
    define_from(&mut v, "w2", w2, false);
    assert_eq!(v.data_stack_mut().pop().is_err(), true);
    define_from(&mut v, "w3", w3, false);
    assert_eq!(v.data_stack_mut().pop().is_err(), true);

    v.set_state(VmState::Interpretation);
    v.call_script(s1);
    assert_eq!(v.exec(LIMIT).expect("!"), true);

    assert_eq!(*v.data_stack_mut().pop().unwrap(), Value::IntValue(10));
    assert_eq!(v.data_stack_mut().pop().is_err(), true);
}

#[test]
fn test_user_immidiate_word_call() {
    let r = texts(&[("1", "1 1 +"), ("2", "2 w1 +")]);

    let w1 = tokens_of(&r, "$1");
    let w2 = tokens_of(&r, "$2");
    let mut v: V = Vm::new(Texts(r));

    v.define_primitive_word(String::from("+"), false, String::from("NO COMMENT"), Host::Plus);

    define_from(&mut v, "w1", w1, false);
    v.word_dictionary_mut().last_word_change_immidiate();
    assert_eq!(v.data_stack_mut().pop().is_err(), true);
    define_from(&mut v, "w2", w2, false);

    assert_eq!(*v.data_stack_mut().pop().unwrap(), Value::IntValue(2));
    assert_eq!(v.data_stack_mut().pop().is_err(), true);
}

#[test]
fn test_user_trap() {
    let r = texts(&[("1", "1 +"), ("2", "2 w1 trap +"), ("3", "3 w2 +"), ("4", "4 w3")]);

    let w1 = tokens_of(&r, "$1");
    let w2 = tokens_of(&r, "$2");
    let w3 = tokens_of(&r, "$3");
    let s1 = tokens_of(&r, "$4");
    let mut v: V = Vm::new(Texts(r));

    v.define_primitive_word(String::from("+"), false, String::from("NO COMMENT"), Host::Plus);

    let code_point = v.code_buffer_mut().here();
    v.word_dictionary_mut().reserve_word_def(String::from("trap"), Word::new(code_point));
    v.code_buffer_mut().push(Instruction::Trap(TrapReason::UserTrap));
    v.code_buffer_mut().push(Instruction::Return);
    v.code_buffer_mut().push(Instruction::DebugLabel(DebugLabel::WordTerminator));
    v.word_dictionary_mut().complate_word_def().unwrap();

    define_from(&mut v, "w1", w1, true);
    assert_eq!(v.data_stack_mut().pop().is_err(), true);
    define_from(&mut v, "w2", w2, true);
    assert_eq!(v.data_stack_mut().pop().is_err(), true);
    define_from(&mut v, "w3", w3, true);
    assert_eq!(v.data_stack_mut().pop().is_err(), true);

    v.set_state(VmState::Interpretation);
    v.call_script(s1);
    assert_eq!(
        match v.exec(LIMIT) {
            Result::Err(VmErrorReason::TrapError(TrapReason::UserTrap)) => true,
            _ => false,
        },
        true
    );

    assert_eq!(v.exec(LIMIT).expect("!"), true);

    assert_eq!(*v.data_stack_mut().pop().unwrap(), Value::IntValue(10));
    assert_eq!(v.data_stack_mut().pop().is_err(), true);
}

#[test]
fn test_compile_token() {
    let mut v: V = machine();

    v.local_dictionary_mut().push(String::from("local01"));
    v.local_dictionary_mut().push(String::from("local02"));
    v.word_dictionary_mut().reserve_word_def(String::from("word01"), Word::new(From::from(0)));
    v.word_dictionary_mut().complate_word_def().unwrap();
    v.word_dictionary_mut().reserve_word_def(String::from("word02"), Word::new(From::from(1)));
    v.word_dictionary_mut().last_word_change_immidiate();
    v.word_dictionary_mut().complate_word_def().unwrap();
    v.word_dictionary_mut().reserve_word_def(String::from("local02"), Word::new(From::from(2)));
    v.word_dictionary_mut().complate_word_def().unwrap();
    v.word_dictionary_mut().reserve_word_def(String::from("word03"), Word::new(From::from(3)));

    assert_eq!(
        match compile_token(&v, ValueToken::IntValue(100), false).unwrap() {
            (Instruction::Push(_), imm) if imm == false => true,
            _ => false,
        },
        true
    );
    assert_eq!(
        match compile_token(&v, ValueToken::StrValue(String::from("a")), false).unwrap() {
            (Instruction::Push(_), imm) if imm == false => true,
            _ => false,
        },
        true
    );
    assert_eq!(
        match compile_token(&v, ValueToken::Symbol(String::from("local01")), false).unwrap() {
            (Instruction::LocalRef(a), imm) if a == From::from(0) && imm == false => true,
            _ => false,
        },
        true
    );
    assert_eq!(
        match compile_token(&v, ValueToken::Symbol(String::from("local02")), false).unwrap() {
            (Instruction::LocalRef(a), imm) if a == From::from(1) && imm == false => true,
            _ => false,
        },
        true
    );
    assert_eq!(
        match compile_token(&v, ValueToken::Symbol(String::from("word01")), false).unwrap() {
            (Instruction::Call(a), imm) if a == From::from(0) && imm == false => true,
            _ => false,
        },
        true
    );
    assert_eq!(
        match compile_token(&v, ValueToken::Symbol(String::from("word02")), false).unwrap() {
            (Instruction::Call(a), imm) if a == From::from(1) && imm == true => true,
            _ => false,
        },
        true
    );
    assert_eq!(compile_token(&v, ValueToken::Symbol(String::from("word03")), false).is_err(), true);
    assert_eq!(
        match compile_token(&v, ValueToken::Symbol(String::from("word03")), true).unwrap() {
            (Instruction::Call(a), imm) if a == From::from(3) && imm == false => true,
            _ => false,
        },
        true
    );
}

#[test]
fn test_immediate_word_in_compilation() {
    let r = texts(&[("1", "1 +"), ("2", "2 w1 +")]);
    let w1 = tokens_of(&r, "$1");
    let w2 = tokens_of(&r, "$2");
    let mut v: V = Vm::new(Texts(r));
    v.define_primitive_word(String::from("+"), false, String::from("adds"), Host::Plus);
    define_from(&mut v, "w1", w1, true);
    v.word_dictionary_mut().last_word_change_immidiate();

    // `2` is compiled, not pushed, so the immediate word finds the value
    // that the host has put on the stack before.
    v.data_stack_mut().push(cell(2));
    define_from(&mut v, "w2", w2, true);
    assert_eq!(drain(&mut v), vec![3]);
}

#[test]
fn test_new_machine() {
    let mut v = machine();
    assert_eq!(v.state(), VmState::Interpretation);
    assert_eq!(v.exec_state(), VmExecutionState::TokenIteration);
    assert_eq!(v.program_counter(), CodeAddress(Address::Root));
    assert_eq!(v.line_number(), 0);
    assert_eq!(v.column_number(), 0);
    assert_eq!(v.data_stack().here(), DataStackAddress(0));
    assert_eq!(v.return_stack().here(), ReturnStackAddress(0));
    assert_eq!(v.env_stack().here(), EnvironmentStackAddress(0));
    assert_eq!(v.controlflow_stack().here(), 0);
    assert_eq!(v.long_jump_stack().here(), 0);
    assert_eq!(v.code_buffer().here(), CodeAddress(Address::Entity(0)));
    assert_eq!(v.data_buffer().here().0, Address::Entity(0));
    assert_eq!(v.word_dictionary().len(), 0);
    assert_eq!(v.local_dictionary().len(), 0);
    assert!(v.debug_info_store().current_script_name().is_none());
    assert_eq!(v.resources().0.project_root(), "this");
    assert_eq!(v.resources_mut().0.project_root(), "this");
    // Without a script the machine leaves at once and stops.
    assert_eq!(v.step().unwrap(), false);
    assert_eq!(v.state(), VmState::Return);
    assert_eq!(v.step().unwrap(), false);
    assert_eq!(v.state(), VmState::Stop);
    assert_eq!(v.step().unwrap(), true);
    assert_eq!(v.state(), VmState::Interpretation);
}

#[test]
fn test_setters_return_what_was_set() {
    let mut v = machine();
    assert_eq!(v.set_state(VmState::Compilation), VmState::Interpretation);
    assert_eq!(v.set_state(VmState::Stop), VmState::Compilation);
    assert_eq!(v.set_exec_state(VmExecutionState::CodeExecution), VmExecutionState::TokenIteration);
    assert_eq!(v.exec_state(), VmExecutionState::CodeExecution);
    assert_eq!(v.set_program_counter(From::from(4)), CodeAddress(Address::Root));
    assert_eq!(v.program_counter(), CodeAddress(Address::Entity(4)));
    v.reset_vm_state();
    assert_eq!(v.state(), VmState::Interpretation);
    assert_eq!(v.exec_state(), VmExecutionState::TokenIteration);
}

#[test]
fn test_exec_stops_at_the_limit() {
    let mut v = machine();
    v.code_buffer_mut().push(Instruction::Jump(From::from(0)));
    v.set_program_counter(From::from(0));
    v.set_exec_state(VmExecutionState::CodeExecution);
    assert_eq!(v.exec(1000).unwrap(), false);
    assert_eq!(v.exec(0).unwrap(), false);
    assert_eq!(v.program_counter(), CodeAddress(Address::Entity(0)));
    assert_eq!(v.exec_state(), VmExecutionState::CodeExecution);
}

#[test]
fn test_program_counter_stays_within_the_code() {
    let mut v = machine();
    v.code_buffer_mut().push(Instruction::Nop);
    v.set_program_counter(From::from(0));
    v.set_exec_state(VmExecutionState::CodeExecution);
    assert_eq!(v.step().unwrap(), false);
    assert_eq!(v.program_counter(), CodeAddress(Address::Entity(1)));
    match v.step() {
        Err(VmErrorReason::CodeBufferAccessError(CodeBufferErrorReason::BufferAccessError(
            BufferErrorReason::OutOfRangeAccess(1, 1),
        ))) => {}
        _ => panic!("no instruction lies behind the code"),
    }
    assert_eq!(v.program_counter(), CodeAddress(Address::Entity(1)));
    v.set_program_counter(CodeAddress(Address::Root));
    assert_eq!(v.step().unwrap(), false);
    assert_eq!(v.exec_state(), VmExecutionState::TokenIteration);
}

#[test]
fn test_program_counter_at_the_last_address() {
    let mut v = machine();
    v.set_program_counter(From::from(usize::MAX));
    assert!(matches!(
        v.apply_instruction(Instruction::Nop),
        Err(VmErrorReason::InstructionError(_))
    ));
    assert_eq!(v.program_counter(), CodeAddress(Address::Entity(usize::MAX)));
    assert!(matches!(
        v.apply_instruction(Instruction::Push(cell(1))),
        Err(VmErrorReason::InstructionError(_))
    ));
    assert!(v.data_stack_mut().pop().is_err());
}

#[test]
fn test_push_call_return() {
    let mut v = machine();
    v.set_program_counter(From::from(10));
    v.env_stack_mut().push(cell(100));
    v.apply_instruction(Instruction::Push(cell(5))).unwrap();
    assert_eq!(v.program_counter(), CodeAddress(Address::Entity(11)));
    v.apply_instruction(Instruction::Call(From::from(40))).unwrap();
    assert_eq!(v.program_counter(), CodeAddress(Address::Entity(40)));
    let frame = v.return_stack().peek().unwrap();
    assert_eq!(frame.return_address(), CodeAddress(Address::Entity(12)));
    assert_eq!(frame.stack_address(), EnvironmentStackAddress(1));
    // What the word leaves on the environment stack is dropped at the return.
    v.env_stack_mut().push(cell(101));
    v.env_stack_mut().push(cell(102));
    v.apply_instruction(Instruction::Return).unwrap();
    assert_eq!(v.env_stack().here(), EnvironmentStackAddress(1));
    assert_eq!(v.program_counter(), CodeAddress(Address::Entity(12)));
    assert_eq!(v.return_stack().here(), ReturnStackAddress(0));
    assert_eq!(drain(&mut v), vec![5]);
    match v.apply_instruction(Instruction::Return) {
        Err(VmErrorReason::ReturnStackAccessError(ReturnStackErrorReason::BufferAccessError(
            BufferErrorReason::UnderflowAccessError,
        ))) => {}
        _ => panic!("nothing is there to return to"),
    }
}

#[test]
fn test_return_with_a_lowered_environment() {
    let mut v = machine();
    v.env_stack_mut().push(cell(1));
    v.env_stack_mut().push(cell(2));
    v.apply_instruction(Instruction::Call(From::from(3))).unwrap();
    v.env_stack_mut().pop().unwrap();
    match v.apply_instruction(Instruction::Return) {
        Err(VmErrorReason::EnvironmentStackAccessError(
            EnvironmentStackErrorReason::BufferAccessError(BufferErrorReason::InvalidRollbackPosition(
                1,
                2,
            )),
        )) => {}
        _ => panic!("the environment stack is lower than at the call"),
    }
    assert_eq!(v.return_stack().here(), ReturnStackAddress(0));
    assert_eq!(v.program_counter(), CodeAddress(Address::Entity(3)));
}

#[test]
fn test_local_ref() {
    let mut v = machine();
    v.set_program_counter(From::from(0));
    assert!(matches!(
        v.apply_instruction(Instruction::LocalRef(EnvironmentStackRelativeAddress(0))),
        Err(VmErrorReason::ReturnStackAccessError(_))
    ));
    v.env_stack_mut().push(cell(7));
    v.apply_instruction(Instruction::Call(From::from(20))).unwrap();
    v.env_stack_mut().push(cell(8));
    v.env_stack_mut().push(cell(9));
    v.apply_instruction(Instruction::LocalRef(EnvironmentStackRelativeAddress(1))).unwrap();
    assert_eq!(v.program_counter(), CodeAddress(Address::Entity(21)));
    assert!(matches!(
        v.apply_instruction(Instruction::LocalRef(EnvironmentStackRelativeAddress(2))),
        Err(VmErrorReason::EnvironmentStackAccessError(
            EnvironmentStackErrorReason::BufferAccessError(BufferErrorReason::OutOfRangeAccess(3, 3))
        ))
    ));
    assert_eq!(v.program_counter(), CodeAddress(Address::Entity(21)));
    assert_eq!(drain(&mut v), vec![9]);
}

#[test]
fn test_branch() {
    let mut v = machine();
    v.set_program_counter(From::from(3));
    v.data_stack_mut().push(cell(0));
    v.apply_instruction(Instruction::Branch(From::from(30))).unwrap();
    assert_eq!(v.program_counter(), CodeAddress(Address::Entity(4)));
    v.data_stack_mut().push(cell(-1));
    v.apply_instruction(Instruction::Branch(From::from(30))).unwrap();
    assert_eq!(v.program_counter(), CodeAddress(Address::Entity(30)));
    v.data_stack_mut().push(Rc::new(Value::StrValue(String::from("0"))));
    v.apply_instruction(Instruction::Branch(From::from(50))).unwrap();
    assert_eq!(v.program_counter(), CodeAddress(Address::Entity(50)));
    v.data_stack_mut().push(Rc::new(Value::Empty));
    v.apply_instruction(Instruction::Branch(From::from(60))).unwrap();
    assert_eq!(v.program_counter(), CodeAddress(Address::Entity(60)));
    match v.apply_instruction(Instruction::Branch(From::from(70))) {
        Err(VmErrorReason::DataStackAccessError(DataStackErrorReason::BufferAccessError(
            BufferErrorReason::UnderflowAccessError,
        ))) => {}
        _ => panic!("there is nothing to branch on"),
    }
    assert_eq!(v.program_counter(), CodeAddress(Address::Entity(60)));
    v.apply_instruction(Instruction::Jump(CodeAddress(Address::Root))).unwrap();
    assert_eq!(v.program_counter(), CodeAddress(Address::Root));
}

#[test]
fn test_exec_instruction() {
    let mut v = machine();
    v.set_program_counter(From::from(1));
    v.data_stack_mut().push(cell(4));
    v.data_stack_mut().push(cell(5));
    v.apply_instruction(Instruction::Exec).unwrap();
    assert_eq!(v.program_counter(), CodeAddress(Address::Entity(2)));
    v.data_stack_mut().push(Rc::new(Value::StrValue(String::from("text"))));
    v.apply_instruction(Instruction::Exec).unwrap();
    assert_eq!(v.program_counter(), CodeAddress(Address::Entity(3)));
    assert_eq!(*v.data_stack_mut().pop().unwrap(), Value::StrValue(String::from("text")));
    assert_eq!(v.data_stack().here(), DataStackAddress(2));

    v.env_stack_mut().push(cell(70));
    v.data_stack_mut().push(Rc::new(Value::CodeAddress(From::from(90))));
    v.apply_instruction(Instruction::Exec).unwrap();
    assert_eq!(v.program_counter(), CodeAddress(Address::Entity(90)));
    assert_eq!(v.return_stack().peek().unwrap().return_address(), CodeAddress(Address::Entity(4)));
    assert_eq!(v.return_stack().peek().unwrap().stack_address(), EnvironmentStackAddress(1));

    v.env_stack_mut().push(cell(71));
    v.data_stack_mut().push(Rc::new(Value::EnvAddress(EnvironmentStackRelativeAddress(0))));
    v.apply_instruction(Instruction::Exec).unwrap();
    assert_eq!(v.program_counter(), CodeAddress(Address::Entity(91)));
    assert_eq!(drain(&mut v), vec![4, 5, 71]);
    assert!(matches!(
        v.apply_instruction(Instruction::Exec),
        Err(VmErrorReason::DataStackAccessError(_))
    ));
}

#[test]
fn test_long_jump() {
    let mut v = machine();
    v.set_program_counter(From::from(5));
    v.data_stack_mut().push(cell(1));
    v.env_stack_mut().push(cell(10));
    v.apply_instruction(Instruction::Call(From::from(20))).unwrap();
    v.apply_instruction(Instruction::SetJump(From::from(77))).unwrap();
    assert_eq!(v.program_counter(), CodeAddress(Address::Entity(21)));
    assert_eq!(v.long_jump_stack().here(), 1);

    v.apply_instruction(Instruction::Call(From::from(30))).unwrap();
    v.apply_instruction(Instruction::Call(From::from(40))).unwrap();
    v.env_stack_mut().push(cell(11));
    v.env_stack_mut().push(cell(12));
    v.data_stack_mut().push(cell(2));
    v.data_stack_mut().push(cell(3));
    v.data_stack_mut().push(cell(4));

    v.apply_instruction(Instruction::LongJump).unwrap();
    assert_eq!(v.program_counter(), CodeAddress(Address::Entity(77)));
    assert_eq!(v.return_stack().here(), ReturnStackAddress(1));
    assert_eq!(v.env_stack().here(), EnvironmentStackAddress(1));
    assert_eq!(v.long_jump_stack().here(), 0);
    assert_eq!(drain(&mut v), vec![1, 4]);

    match v.apply_instruction(Instruction::LongJump) {
        Err(VmErrorReason::LongJumpStackAccessError(LongJumpStackErrorReason::BufferAccessError(
            BufferErrorReason::UnderflowAccessError,
        ))) => {}
        _ => panic!("no target is recorded"),
    }
}

#[test]
fn test_pop_jump() {
    let mut v = machine();
    v.set_program_counter(From::from(0));
    v.apply_instruction(Instruction::SetJump(From::from(9))).unwrap();
    v.apply_instruction(Instruction::PopJump).unwrap();
    assert_eq!(v.long_jump_stack().here(), 0);
    assert_eq!(v.program_counter(), CodeAddress(Address::Entity(2)));
    assert!(matches!(
        v.apply_instruction(Instruction::PopJump),
        Err(VmErrorReason::LongJumpStackAccessError(_))
    ));
    assert_eq!(v.program_counter(), CodeAddress(Address::Entity(2)));
}

#[test]
fn test_nop_label_and_trap() {
    let mut v = machine();
    v.set_program_counter(From::from(0));
    v.apply_instruction(Instruction::Nop).unwrap();
    v.apply_instruction(Instruction::DebugLabel(DebugLabel::WordTerminator)).unwrap();
    assert_eq!(v.program_counter(), CodeAddress(Address::Entity(2)));
    assert!(matches!(
        v.apply_instruction(Instruction::Trap(TrapReason::DummyInstructionExecution)),
        Err(VmErrorReason::TrapError(TrapReason::DummyInstructionExecution))
    ));
    assert_eq!(v.program_counter(), CodeAddress(Address::Entity(3)));
    // The root address is followed by itself.
    v.set_program_counter(CodeAddress(Address::Root));
    v.apply_instruction(Instruction::Nop).unwrap();
    assert_eq!(v.program_counter(), CodeAddress(Address::Root));
}

#[test]
fn test_primitive_instruction_and_direct_call() {
    let mut by_instruction = machine();
    by_instruction.set_program_counter(From::from(0));
    by_instruction.data_stack_mut().push(cell(20));
    by_instruction.data_stack_mut().push(cell(22));
    by_instruction.apply_instruction(Instruction::CallPrimitive(Host::Plus)).unwrap();
    assert_eq!(by_instruction.program_counter(), CodeAddress(Address::Entity(1)));

    let mut directly = machine();
    directly.data_stack_mut().push(cell(20));
    directly.data_stack_mut().push(cell(22));
    Host::Plus.invoke(&mut directly).unwrap();

    assert_eq!(drain(&mut by_instruction), drain(&mut directly));
}

#[test]
fn test_failing_primitive() {
    let mut v = machine();
    v.set_program_counter(From::from(0));
    assert!(matches!(
        v.apply_instruction(Instruction::CallPrimitive(Host::Fail)),
        Err(VmErrorReason::ExtraPrimitiveWordError(42))
    ));
    assert_eq!(v.program_counter(), CodeAddress(Address::Entity(0)));
    assert!(matches!(
        v.apply_instruction(Instruction::CallPrimitive(Host::ThreeThenFail)),
        Err(VmErrorReason::ExtraPrimitiveWordError(7))
    ));
    assert_eq!(drain(&mut v), vec![1, 2, 3]);
}

#[test]
fn test_primitive_word_body() {
    let mut v = machine();
    v.define_primitive_word(String::from("stop"), true, String::from("leaves"), Host::Quit);
    assert!(matches!(
        v.code_buffer().get(From::from(0)).unwrap(),
        Instruction::CallPrimitive(Host::Quit)
    ));
    assert!(matches!(v.code_buffer().get(From::from(1)).unwrap(), Instruction::Return));
    assert!(matches!(
        v.code_buffer().get(From::from(2)).unwrap(),
        Instruction::DebugLabel(DebugLabel::WordTerminator)
    ));
    let word = v.word_dictionary().find_word(&String::from("stop")).unwrap();
    assert_eq!(word.code(), CodeAddress(Address::Entity(0)));
    assert!(word.is_immediate());
    assert_eq!(word.document(), "leaves");
    assert_eq!(v.word_dictionary().guess_name(&From::from(2)).unwrap(), "stop");
}

#[test]
fn test_undefined_word() {
    let mut v = machine();
    v.call_script(new_token_stream_from_str("1 nothing 2"));
    match v.exec(LIMIT) {
        Err(VmErrorReason::WordError(WordErrorReason::UndefinedWord(ref n))) if n == "nothing" => {}
        _ => panic!("the word is not defined"),
    }
    assert_eq!(v.line_number(), 1);
    assert_eq!(v.column_number(), 2);
    // The machine goes on behind the token that failed.
    assert_eq!(v.exec(LIMIT).unwrap(), true);
    assert_eq!(drain(&mut v), vec![1, 2]);
}

#[test]
fn test_token_failure() {
    let mut v = machine();
    v.call_script(new_token_stream_from_str("1 \"open"));
    match v.exec(LIMIT) {
        Err(VmErrorReason::TokenError(TokenizerError(
            1,
            3,
            TokenizerErrorReason::StringLiteralIsNotClosed(ref t),
        ))) if t == "open" => {}
        _ => panic!("the string literal is not closed"),
    }
    assert_eq!(v.exec(LIMIT).unwrap(), true);
    assert_eq!(drain(&mut v), vec![1]);
}

#[test]
fn test_interpret_token_by_hand() {
    let mut v = machine();
    v.interpret_token(Some(Token {
        line_number: 3,
        column_number: 4,
        value_token: Ok(ValueToken::IntValue(8)),
    }))
    .unwrap();
    assert_eq!(v.line_number(), 3);
    assert_eq!(v.column_number(), 4);
    assert_eq!(v.state(), VmState::Interpretation);
    v.interpret_token(None).unwrap();
    assert_eq!(v.state(), VmState::Return);
    assert_eq!(drain(&mut v), vec![8]);
}

#[test]
fn test_compile_next_token_by_hand() {
    let mut v = machine();
    v.call_script(new_token_stream_from_str(""));
    v.compile_next_token(
        Some(Token { line_number: 5, column_number: 6, value_token: Ok(ValueToken::IntValue(8)) }),
        false,
    )
    .unwrap();
    assert!(v.data_stack_mut().pop().is_err());
    assert!(matches!(v.code_buffer().get(From::from(0)).unwrap(), Instruction::Push(_)));
    let info = v.debug_info_store().get(From::from(0)).unwrap();
    assert_eq!((info.line_number, info.column_number), (5, 6));
    assert_eq!(v.debug_info_store().get_script_name(info.script_name_handle).unwrap(), "##UNKNOWN###");
    v.compile_next_token(None, true).unwrap();
    assert_eq!(v.state(), VmState::Return);
}

#[test]
fn test_recursable_compilation() {
    let mut v = machine();
    v.word_dictionary_mut().reserve_word_def(String::from("me"), Word::new(From::from(0)));
    v.call_script(new_token_stream_from_str("me"));
    v.set_state(VmState::RecursableCompilation);
    assert_eq!(v.exec(LIMIT).unwrap(), true);
    assert!(matches!(
        v.code_buffer().get(From::from(0)).unwrap(),
        Instruction::Call(CodeAddress(Address::Entity(0)))
    ));
    v.call_script(new_token_stream_from_str("me"));
    v.set_state(VmState::Compilation);
    assert!(matches!(v.exec(LIMIT), Err(VmErrorReason::WordError(_))));
}

#[test]
fn test_exec_with_args() {
    let mut v = machine();
    v.call_script(new_token_stream_from_str("1"));
    let args = vec![String::from("a"), String::from("b")];
    assert_eq!(v.exec_with_args(&args, LIMIT).unwrap(), true);
    assert_eq!(*v.env_stack_mut().pop().unwrap(), Value::StrValue(String::from("b")));
    assert_eq!(*v.env_stack_mut().pop().unwrap(), Value::StrValue(String::from("a")));
    assert!(v.env_stack_mut().pop().is_err());
    assert_eq!(drain(&mut v), vec![1]);
}

#[test]
fn test_script_names_follow_the_calls() {
    let r = texts(&[("outer", "1"), ("inner", "2")]);
    let outer = tokens_of(&r, "$outer");
    let inner = tokens_of(&r, "$inner");
    let mut v: V = Vm::new(Texts(r));
    v.call_script(outer);
    assert_eq!(v.debug_info_store().current_script_name().unwrap(), "$outer");
    v.call_script(inner);
    assert_eq!(v.debug_info_store().current_script_name().unwrap(), "$inner");
    assert_eq!(exst::lang::tokenizer::TokenIterator::script_name(v.input_stream()), "$inner");
    assert_eq!(v.exec(LIMIT).unwrap(), true);
    assert_eq!(drain(&mut v), vec![2, 1]);
}

#[test]
fn test_primitive_that_leaves_the_script() {
    let mut v = machine();
    v.define_primitive_word(String::from("quit"), false, String::from("leaves"), Host::Quit);
    v.call_script(new_token_stream_from_str("1 quit 2"));
    assert_eq!(v.exec(LIMIT).unwrap(), true);
    assert_eq!(drain(&mut v), vec![1]);
}

#[test]
fn test_instructions_that_need_no_next_address() {
    let last = CodeAddress(Address::Entity(usize::MAX));
    let mut v = machine();
    v.set_program_counter(last);
    v.apply_instruction(Instruction::Jump(From::from(3))).unwrap();
    assert_eq!(v.program_counter(), From::from(3));

    let mut v = machine();
    v.data_stack_mut().push(cell(7));
    v.set_program_counter(last);
    v.apply_instruction(Instruction::Branch(From::from(4))).unwrap();
    assert_eq!(v.program_counter(), From::from(4));
    assert!(v.data_stack_mut().pop().is_err());

    let mut v = machine();
    v.env_stack_mut().push(cell(1));
    v.return_stack_mut().push(From::from(9), EnvironmentStackAddress(0));
    v.set_program_counter(last);
    v.apply_instruction(Instruction::Return).unwrap();
    assert_eq!(v.program_counter(), From::from(9));
    assert_eq!(v.env_stack().here().0, 0);

    let mut v = machine();
    v.set_program_counter(From::from(1));
    v.apply_instruction(Instruction::SetJump(From::from(6))).unwrap();
    v.data_stack_mut().push(cell(8));
    v.set_program_counter(last);
    v.apply_instruction(Instruction::LongJump).unwrap();
    assert_eq!(v.program_counter(), From::from(6));
    assert_eq!(drain(&mut v), vec![8]);
}

#[test]
fn test_failures_at_the_last_address() {
    let last = CodeAddress(Address::Entity(usize::MAX));
    let mut v = machine();
    v.set_program_counter(last);
    assert!(matches!(
        v.apply_instruction(Instruction::Branch(From::from(4))),
        Err(VmErrorReason::DataStackAccessError(_))
    ));
    assert!(matches!(
        v.apply_instruction(Instruction::PopJump),
        Err(VmErrorReason::LongJumpStackAccessError(_))
    ));
    assert!(matches!(
        v.apply_instruction(Instruction::Return),
        Err(VmErrorReason::ReturnStackAccessError(_))
    ));
    assert!(matches!(
        v.apply_instruction(Instruction::LocalRef(EnvironmentStackRelativeAddress(0))),
        Err(VmErrorReason::ReturnStackAccessError(_))
    ));
    v.data_stack_mut().push(cell(0));
    assert!(matches!(
        v.apply_instruction(Instruction::Branch(From::from(4))),
        Err(VmErrorReason::InstructionError(_))
    ));
    assert_eq!(drain(&mut v), vec![0]);
    v.data_stack_mut().push(cell(5));
    assert!(matches!(v.apply_instruction(Instruction::Exec), Err(VmErrorReason::InstructionError(_))));
    assert_eq!(drain(&mut v), vec![5]);
    v.data_stack_mut().push(Rc::new(Value::CodeAddress(From::from(2))));
    assert!(matches!(v.apply_instruction(Instruction::Exec), Err(VmErrorReason::InstructionError(_))));
    assert_eq!(v.data_stack().here().0, 1);
    assert_eq!(v.return_stack().here().0, 0);
    assert_eq!(v.program_counter(), last);
    assert!(matches!(
        v.apply_instruction(Instruction::Trap(TrapReason::UserTrap)),
        Err(VmErrorReason::InstructionError(_))
    ));
}
