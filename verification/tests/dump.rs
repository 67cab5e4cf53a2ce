use exst::lang::mem::BufferMemory;
use exst::lang::mem::DataStack;
use exst::lang::mem::LongJumpStack;
use exst::lang::mem::ReturnStack;
use exst::lang::resource::ResourceErrorReason;
use exst::lang::resource::Resources;
use exst::lang::resource::StdResources;
use exst::lang::text::Text;
use exst::lang::tokenizer::TokenStream;
use exst::lang::value::Address;
use exst::lang::value::CallFrame;
use exst::lang::value::CodeAddress;
use exst::lang::value::DataAddress;
use exst::lang::value::DataStackAddress;
use exst::lang::value::DebugLabel;
use exst::lang::value::EnvironmentStackAddress;
use exst::lang::value::EnvironmentStackRelativeAddress;
use exst::lang::value::Instruction;
use exst::lang::value::LongJumpFrame;
use exst::lang::value::ReturnStackAddress;
use exst::lang::value::TrapReason;
use exst::lang::value::Value;
use exst::lang::vm::dump::dump_all_info;
use exst::lang::vm::dump::dump_all_word;
use exst::lang::vm::dump::dump_all_word_code;
use exst::lang::vm::dump::dump_code;
use exst::lang::vm::dump::dump_code_mapping;
use exst::lang::vm::dump::dump_controlflow_stack;
use exst::lang::vm::dump::dump_data_stack;
use exst::lang::vm::dump::dump_env;
use exst::lang::vm::dump::dump_env_stack;
use exst::lang::vm::dump::dump_vm_sate;
use exst::lang::vm::dump::dump_word_code;
use exst::lang::vm::Vm;
use exst::lang::vm::VmExecutionState;
use exst::lang::vm::VmState;
use exst::lang::word::Dictionary;
use exst::lang::word::LocalDictionary;
use exst::lang::word::Word;
use exst::primitive::preload;
use exst::primitive::register;
use exst::primitive::Builtin;
use std::cell::RefCell;
use std::rc::Rc;

/// Resources that keep what is written and hold no texts.
struct Desk {
    texts: StdResources,
    written: RefCell<String>,
}

impl Resources for Desk {
    fn write_stdout(&self, data: &str) {
        self.written.borrow_mut().push_str(data);
    }

    fn write_stderr(&self, _data: &str) {}

    fn get_token_iterator(&self, resource_name: &String) -> Result<TokenStream, ResourceErrorReason> {
        self.texts.get_token_iterator(resource_name, None)
    }

    fn get_string(&self, resource_name: &String) -> Result<String, ResourceErrorReason> {
        self.texts.get_string(resource_name, None)
    }
}

type V = Vm<i32, i32, Desk, Builtin>;

const LIMIT: usize = 1_000_000;

fn bare() -> V {
    Vm::new(Desk { texts: StdResources::new(String::from(".")), written: RefCell::new(String::new()) })
}

fn machine() -> V {
    let mut v = bare();
    register(&mut v);
    v
}

fn run(v: &mut V, script: &'static str) {
    preload(v, script);
    assert_eq!(v.exec(LIMIT).unwrap(), true);
}

fn text<V: Text>(v: &V) -> String {
    let mut s = String::from("before ");
    v.write_text(&mut s);
    assert!(s.starts_with("before "));
    s.split_off(7)
}

fn dumped(v: &V, dump: fn(&V, &mut String)) -> String {
    let mut s = String::from("head\n");
    dump(v, &mut s);
    assert!(s.starts_with("head\n"));
    s.split_off(5)
}

#[test]
fn texts_of_numbers_and_flags() {
    assert_eq!(text(&0usize), "0");
    assert_eq!(text(&usize::MAX), format!("{}", usize::MAX));
    assert_eq!(text(&4_294_967_295u32), "4294967295");
    assert_eq!(text(&i32::MIN), "-2147483648");
    assert_eq!(text(&true), "true");
    assert_eq!(text(&false), "false");
    assert_eq!(text(&String::from("as it is")), "as it is");
}

#[test]
fn texts_of_addresses() {
    assert_eq!(text(&Address::Root), "Root");
    assert_eq!(text(&Address::Entity(12)), "12");
    assert_eq!(text(&CodeAddress(Address::Entity(3))), "CodeAddress(3)");
    assert_eq!(text(&CodeAddress(Address::Root)), "CodeAddress(Root)");
    assert_eq!(text(&DataAddress(Address::Entity(4))), "DataAddress(4)");
    assert_eq!(text(&EnvironmentStackAddress(5)), "EnvironmentStackAddress(5)");
    assert_eq!(text(&ReturnStackAddress(6)), "ReturnStackAddress(6)");
    assert_eq!(text(&DataStackAddress(7)), "DataStackAddress(7)");
    assert_eq!(text(&EnvironmentStackRelativeAddress(8)), "EnvironmentStackRelativeAddress(8)");
}

#[test]
fn texts_of_frames() {
    let frame = CallFrame { return_address: CodeAddress(Address::Entity(9)), stack_address: EnvironmentStackAddress(2) };
    assert_eq!(text(&frame), "CallFrame(CodeAddress(9),EnvironmentStackAddress(2))");
    let jump = LongJumpFrame {
        return_address: CodeAddress(Address::Root),
        return_stack_address: ReturnStackAddress(1),
        env_stack_address: EnvironmentStackAddress(2),
        data_stack_address: DataStackAddress(3),
    };
    assert_eq!(
        text(&jump),
        "LongJumpFrame(CodeAddress(Root),ReturnStackAddress(1),EnvironmentStackAddress(2),DataStackAddress(3))"
    );
}

#[test]
fn texts_of_instructions() {
    type I = Instruction<i32, Builtin>;
    assert_eq!(text(&I::Push(Rc::new(Value::IntValue(-4)))), "Push(-4)");
    assert_eq!(text(&I::Push(Rc::new(Value::StrValue(String::from("s"))))), "Push(s)");
    assert_eq!(text(&I::Push(Rc::new(Value::Empty))), "Push(Value(EMPTY))");
    assert_eq!(text(&I::Call(CodeAddress(Address::Entity(2)))), "Call(CodeAddress(2))");
    assert_eq!(text(&I::CallPrimitive(Builtin::Dup)), "CallPrimitive(_)");
    assert_eq!(text(&I::Return), "Return");
    assert_eq!(
        text(&I::LocalRef(EnvironmentStackRelativeAddress(1))),
        "LocalRef(EnvironmentStackRelativeAddress(1))"
    );
    assert_eq!(text(&I::Nop), "Nop");
    assert_eq!(text(&I::Trap(TrapReason::UserTrap)), "Trap(UserTrap)");
    assert_eq!(text(&I::Trap(TrapReason::DummyInstructionExecution)), "Trap(DummyInstructionExecution)");
    assert_eq!(text(&I::DebugLabel(DebugLabel::WordTerminator)), "DebugLabel(WordTerminator)");
    assert_eq!(text(&I::Branch(CodeAddress(Address::Entity(7)))), "Branch(CodeAddress(7))");
    assert_eq!(text(&I::Jump(CodeAddress(Address::Root))), "Jump(CodeAddress(Root))");
    assert_eq!(text(&I::Exec), "Exec");
    assert_eq!(text(&I::SetJump(CodeAddress(Address::Entity(1)))), "SetJump(CodeAddress(1))");
    assert_eq!(text(&I::LongJump), "LongJump");
    assert_eq!(text(&I::PopJump), "PopJump");
}

#[test]
fn texts_of_states() {
    assert_eq!(text(&VmState::Compilation), "Compilation");
    assert_eq!(text(&VmState::RecursableCompilation), "RecursableCompilation");
    assert_eq!(text(&VmState::Interpretation), "Interpretation");
    assert_eq!(text(&VmState::Return), "Return");
    assert_eq!(text(&VmState::Stop), "Stop");
    assert_eq!(text(&VmExecutionState::CodeExecution), "CodeExecution");
    assert_eq!(text(&VmExecutionState::TokenIteration), "TokenIteration");
}

#[test]
fn texts_of_regions() {
    let mut b: BufferMemory<i32> = BufferMemory::new();
    assert_eq!(text(&b), "[\n]<-StackTop\n");
    b.push(10);
    b.push(-20);
    assert_eq!(text(&b), "[\n  <0,10>\n  <1,-20>\n]<-StackTop\n");
    let mut d: DataStack<i32> = DataStack::new();
    d.push(Rc::new(Value::IntValue(1)));
    d.push(Rc::new(Value::StrValue(String::from("two"))));
    assert_eq!(text(&d), "DataStack[\n  <0,1>\n  <1,two>\n]<-StackTop\n");
    let mut r = ReturnStack::new();
    r.push(CodeAddress(Address::Entity(4)), EnvironmentStackAddress(0));
    assert_eq!(
        text(&r),
        "ReturnStack[\n  <0,CallFrame(CodeAddress(4),EnvironmentStackAddress(0))>\n]<-StackTop\n"
    );
    assert_eq!(text(&LongJumpStack::new()), "LongJumpStack[\n]<-StackTop\n");
}

#[test]
fn texts_of_dictionaries() {
    let mut d = Dictionary::new();
    assert_eq!(text(&d), "Dictionary[\n]\n");
    d.reserve_word_def(String::from("one"), Word::new(CodeAddress(Address::Entity(5))));
    d.complate_word_def().unwrap();
    d.reserve_word_def(String::from("two"), Word::new(CodeAddress(Address::Entity(2))));
    d.complate_word_def().unwrap();
    d.last_word_change_immidiate();
    d.last_word_set_document(String::from("a -- b"));
    assert_eq!(
        text(&d),
        "Dictionary[\n  <one,Word(CodeAddress(5),false,)>;\n  <two,Word(CodeAddress(2),true,a -- b)>;\n]\n"
    );
    let mut l = LocalDictionary::new();
    l.push(String::from("x"));
    l.push(String::from("y"));
    assert_eq!(
        text(&l),
        "LocalDictionary[\n  <x,EnvironmentStackRelativeAddress(0)>;\n  <y,EnvironmentStackRelativeAddress(1)>;\n]\n"
    );
}

#[test]
fn state_of_a_fresh_machine() {
    let v = bare();
    assert_eq!(
        dumped(&v, dump_vm_sate),
        "vm state: Interpretation\n\
         program counter: CodeAddress(Root)\n\
         script name: \n\
         line number: 0\n\
         column number: 0\n\
         size of word dictionary: 0\n\
         size of local dictionary: 0\n\
         size of data stack: DataStackAddress(0)\n\
         size of return stack: ReturnStackAddress(0)\n\
         size of environment stack: EnvironmentStackAddress(0)\n\
         size of control flow stack: 0\n\
         size of data buffer: DataAddress(0)\n\
         size of code buffer: CodeAddress(0)\n"
    );
}

#[test]
fn word_with_its_body() {
    let mut v = bare();
    v.define_primitive_word(String::from("dup"), false, String::from("a -- a a"), Builtin::Dup);
    let mut s = String::new();
    dump_word_code(&v, &String::from("dup"), &mut s);
    assert_eq!(
        s,
        "dup: Word(CodeAddress(0),false,a -- a a){\n  \
         CodeAddress(0): CallPrimitive(_) |-,-,-|\n  \
         CodeAddress(1): Return |-,-,-|\n  \
         CodeAddress(2): DebugLabel(WordTerminator) |-,-,-|\n\
         }\n"
    );
    let mut s = String::new();
    dump_word_code(&v, &String::from("nothing"), &mut s);
    assert_eq!(s, "nothing: #UNDEFINED#{\n}\n");
}

#[test]
fn compiled_word_knows_its_place_in_the_script() {
    let mut v = machine();
    run(&mut v, ": twice dup + ;\n  : four 2 twice ;");
    let mut s = String::new();
    dump_word_code(&v, &String::from("four"), &mut s);
    let lines: Vec<&str> = s.lines().collect();
    assert!(lines[0].starts_with("four: Word(CodeAddress("));
    assert!(lines[1].contains(": Push(2) |"));
    assert!(lines[2].contains(": Call(CodeAddress("));
    assert_eq!(*lines.last().unwrap(), "}");
    assert!(lines[lines.len() - 2].contains("DebugLabel(WordTerminator)"));
    for line in &lines[1..lines.len() - 1] {
        assert!(line.starts_with("  CodeAddress("));
        assert!(line.ends_with('|'));
    }
}

#[test]
fn code_at_the_root_and_beyond_the_end() {
    let v = bare();
    let mut s = String::new();
    dump_code(&v, CodeAddress(Address::Root), &mut s);
    assert_eq!(s, "  _: _ |-,0,0|");
    let mut s = String::new();
    dump_code(&v, CodeAddress(Address::Entity(0)), &mut s);
    assert_eq!(s, "");
    let mut s = String::new();
    dump_code_mapping(&v, CodeAddress(Address::Entity(0)), &mut s);
    assert_eq!(s, "|-,-,-|");
}

#[test]
fn all_words_in_the_order_of_their_bodies() {
    let mut v = bare();
    v.define_primitive_word(String::from("b"), false, String::new(), Builtin::Dup);
    v.define_primitive_word(String::from("a"), false, String::new(), Builtin::Drop);
    let mut one = String::new();
    dump_word_code(&v, &String::from("b"), &mut one);
    dump_word_code(&v, &String::from("a"), &mut one);
    assert_eq!(dumped(&v, dump_all_word_code), one);
    assert_eq!(
        dumped(&v, dump_all_word),
        "Dictionary[\n  <b,Word(CodeAddress(0),false,)>;\n  <a,Word(CodeAddress(3),false,)>;\n]\n"
    );
}

#[test]
fn stacks_as_they_stand() {
    let mut v = machine();
    run(&mut v, "1 \"two\" 3 >C");
    assert_eq!(dumped(&v, dump_data_stack), "DataStack[\n  <0,1>\n  <1,two>\n]<-StackTop\n");
    assert_eq!(dumped(&v, dump_controlflow_stack), "ControlflowStack[\n  <0,3>\n]<-StackTop\n");
    assert_eq!(dumped(&v, dump_env), "ReturnStack[\n]<-StackTop\n");
}

#[test]
fn environments_of_the_calls() {
    let mut v = bare();
    v.env_stack_mut().push(Rc::new(Value::IntValue(10)));
    v.return_stack_mut().push(CodeAddress(Address::Root), EnvironmentStackAddress(1));
    v.env_stack_mut().push(Rc::new(Value::IntValue(20)));
    v.env_stack_mut().push(Rc::new(Value::IntValue(30)));
    v.return_stack_mut().push(CodeAddress(Address::Entity(9)), EnvironmentStackAddress(3));
    v.env_stack_mut().push(Rc::new(Value::StrValue(String::from("x"))));
    assert_eq!(
        dumped(&v, dump_env),
        "ReturnStack[\n  \
         CallFrame(CodeAddress(Root),EnvironmentStackAddress(1)):   _: _ |-,0,0|\n    \
         <EnvironmentStackRelativeAddress(0),20>\n    \
         <EnvironmentStackRelativeAddress(1),30>\n  \
         CallFrame(CodeAddress(9),EnvironmentStackAddress(3)): \n    \
         <EnvironmentStackRelativeAddress(0),x>\n\
         ]<-StackTop\n"
    );
    let mut s = String::new();
    dump_env_stack(&v, EnvironmentStackAddress(0), EnvironmentStackRelativeAddress(2), &mut s);
    assert_eq!(s, "    <EnvironmentStackRelativeAddress(0),10>\n    <EnvironmentStackRelativeAddress(1),20>\n");
    let mut s = String::new();
    dump_env_stack(&v, EnvironmentStackAddress(2), EnvironmentStackRelativeAddress(9), &mut s);
    assert_eq!(s, "    <EnvironmentStackRelativeAddress(0),30>\n    <EnvironmentStackRelativeAddress(1),x>\n");
}

#[test]
fn everything_under_its_headings() {
    let mut v = bare();
    v.define_primitive_word(String::from("dup"), false, String::new(), Builtin::Dup);
    v.data_stack_mut().push(Rc::new(Value::IntValue(1)));
    let mut expected = String::from("##### Vm State #########################################\n");
    dump_vm_sate(&v, &mut expected);
    expected.push_str("##### Word Definition ##################################\n");
    dump_all_word_code(&v, &mut expected);
    expected.push_str("##### Controlflow Stack ################################\n");
    dump_controlflow_stack(&v, &mut expected);
    expected.push_str("##### Return Stack Environment #########################\n");
    dump_env(&v, &mut expected);
    expected.push_str("##### Data Stack #######################################\n");
    dump_data_stack(&v, &mut expected);
    expected.push_str("########################################################\n");
    assert_eq!(dumped(&v, dump_all_info), expected);
    assert!(expected.contains("size of data stack: DataStackAddress(1)\n"));
    assert!(expected.contains("dup: Word(CodeAddress(0),false,){\n"));
    assert!(expected.contains("DataStack[\n  <0,1>\n]<-StackTop\n"));
}

#[test]
fn words_that_show_the_machine() {
    let mut v = machine();
    run(&mut v, "1 2 dump-stack");
    assert_eq!(v.resources().written.borrow().as_str(), "DataStack[\n  <0,1>\n  <1,2>\n]<-StackTop\n");
    v.resources().written.borrow_mut().clear();
    run(&mut v, "see dup");
    let shown = v.resources().written.borrow().clone();
    assert!(shown.starts_with("dup: Word(CodeAddress("));
    assert!(shown.ends_with("DebugLabel(WordTerminator) |-,-,-|\n}\n"));
    v.resources().written.borrow_mut().clear();
    run(&mut v, "dump-vm-state");
    assert!(v.resources().written.borrow().starts_with("vm state: Interpretation\n"));
    v.resources().written.borrow_mut().clear();
    run(&mut v, "words");
    assert!(v.resources().written.borrow().starts_with("Dictionary[\n  <drop,Word(CodeAddress(0),false,"));
    v.resources().written.borrow_mut().clear();
    run(&mut v, "dump-env dump-controlflow-stack");
    assert_eq!(
        v.resources().written.borrow().as_str(),
        "ReturnStack[\n  \
         CallFrame(CodeAddress(Root),EnvironmentStackAddress(0)):   _: _ |##UNKNOWN###,1,0|\n\
         ]<-StackTop\nControlflowStack[\n]<-StackTop\n"
    );
    v.resources().written.borrow_mut().clear();
    run(&mut v, "dump-all-word");
    assert!(v.resources().written.borrow().contains("see: Word(CodeAddress("));
    v.resources().written.borrow_mut().clear();
    run(&mut v, "dump-all");
    assert!(v.resources().written.borrow().starts_with("##### Vm State ####"));
    assert_eq!(v.data_stack().here().0, 2);
}
