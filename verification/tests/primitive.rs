use exst::lang::resource::ResourceErrorReason;
use exst::lang::resource::Resources;
use exst::lang::resource::StdResources;
use exst::lang::text::decimal_string;
use exst::lang::text::Text;
use exst::lang::tokenizer::new_token_stream_from_str;
use exst::lang::tokenizer::TokenStream;
use exst::lang::value::Address;
use exst::lang::value::AddressAccess;
use exst::lang::value::CodeAddress;
use exst::lang::value::DataAddress;
use exst::lang::value::EnvironmentStackRelativeAddress;
use exst::lang::value::Instruction;
use exst::lang::value::TrapReason;
use exst::lang::value::Value;
use exst::lang::vm::Primitive;
use exst::lang::vm::Vm;
use exst::lang::vm::VmErrorReason;
use exst::lang::vm::VmState;
use exst::lang::word::WordErrorReason;
use exst::primitive::arithmetic::call_aafa;
use exst::primitive::arithmetic::AddressKind;
use exst::primitive::environment::peek_e;
use exst::primitive::environment::pop_e;
use exst::primitive::environment::to_e;
use exst::primitive::initialize;
use exst::primitive::logical::order_of_values;
use exst::primitive::logical::value_eq;
use exst::primitive::order::order_of_bytes;
use exst::primitive::order::order_of_i32;
use exst::primitive::order::order_of_index;
use exst::primitive::order::Order;
use exst::primitive::preload;
use exst::primitive::register;
use exst::primitive::run_script;
use exst::primitive::util::call_ifi;
use exst::primitive::util::call_iifi;
use exst::primitive::util::call_with_name;
use exst::primitive::util::call_xfx;
use exst::primitive::util::call_xxfx;
use exst::primitive::Builtin;
use std::cell::RefCell;
use std::rc::Rc;

/// Resources that keep what is written and hold texts in memory.
struct Desk {
    texts: StdResources,
    written: RefCell<String>,
}

impl Resources for Desk {
    fn write_stdout(&self, data: &str) {
        self.written.borrow_mut().push_str(data);
    }

    fn write_stderr(&self, _data: &str) {}

    fn get_token_iterator(&self, resource_name: &String) -> Result<TokenStream, ResourceErrorReason> {
        self.texts.get_token_iterator(resource_name, None)
    }

    fn get_string(&self, resource_name: &String) -> Result<String, ResourceErrorReason> {
        self.texts.get_string(resource_name, None)
    }
}

type V = Vm<i32, i32, Desk, Builtin>;

const LIMIT: usize = 1_000_000;

fn machine() -> V {
    let mut texts = StdResources::new(String::from("."));
    texts.add_resource(String::from("lib"), String::from(": twice dup + ; 21 twice"));
    let mut v = Vm::new(Desk { texts, written: RefCell::new(String::new()) });
    register(&mut v);
    v
}

fn run(v: &mut V, script: &'static str) -> Result<bool, VmErrorReason<i32>> {
    preload(v, script);
    v.exec(LIMIT)
}

/// Runs `script` on a fresh machine and takes the integers off the data
/// stack, the lowest first.
fn ints(script: &'static str) -> Vec<i32> {
    let mut v = machine();
    assert_eq!(run(&mut v, script).unwrap(), true);
    drain(&mut v)
}

fn drain(v: &mut V) -> Vec<i32> {
    let mut out = Vec::new();
    while let Ok(top) = v.data_stack_mut().pop() {
        match *top {
            Value::IntValue(i) => out.push(i),
            _ => panic!("only integers are expected on the stack"),
        }
    }
    out.reverse();
    out
}

fn written(v: &V) -> String {
    v.resources().written.borrow().clone()
}

#[test]
fn test_built_in_scripts_fail_at_the_first_unknown_word() {
    let mut v: V = Vm::new(Desk {
        texts: StdResources::new(String::from(".")),
        written: RefCell::new(String::new()),
    });
    match initialize(&mut v) {
        Err(VmErrorReason::WordError(WordErrorReason::UndefinedWord(ref n))) if n == "(" => {}
        _ => panic!("the first script names a word that is defined by a later one"),
    }
    assert!(v.word_dictionary().find_word(&String::from("drop")).is_ok());
    assert!(v.word_dictionary().find_word(&String::from("postpone")).is_ok());
}

#[test]
fn test_stack_words() {
    assert_eq!(ints("1 2 drop"), vec![1]);
    assert_eq!(ints("1 2 dup"), vec![1, 2, 2]);
    assert_eq!(ints("1 2 3 0 pick"), vec![1, 2, 3, 3]);
    assert_eq!(ints("1 2 3 2 pick"), vec![1, 2, 3, 1]);
    assert_eq!(ints("1 2 3 1 roll"), vec![1, 3, 2]);
    assert_eq!(ints("1 2 3 2 roll"), vec![2, 3, 1]);
    assert_eq!(ints("1 2 3 0 roll"), vec![1, 2, 3]);
    let mut v = machine();
    assert!(matches!(run(&mut v, "drop"), Err(VmErrorReason::DataStackAccessError(_))));
    let mut v = machine();
    assert!(matches!(run(&mut v, "1 2 2 pick"), Err(VmErrorReason::DataStackAccessError(_))));
    assert_eq!(drain(&mut v), vec![1, 2]);
    let mut v = machine();
    assert!(matches!(run(&mut v, "1 \"x\" roll"), Err(VmErrorReason::TypeMismatchError(_))));
    let mut v = machine();
    assert!(matches!(run(&mut v, "1 -1 pick"), Err(VmErrorReason::DataStackAccessError(_))));
}

#[test]
fn test_arithmetic_words() {
    assert_eq!(ints("1 2 +"), vec![3]);
    assert_eq!(ints("1 2 -"), vec![-1]);
    assert_eq!(ints("6 7 *"), vec![42]);
    assert_eq!(ints("7 2 /"), vec![3]);
    assert_eq!(ints("-7 2 /"), vec![-3]);
    assert_eq!(ints("7 -2 /"), vec![-3]);
    assert_eq!(ints("-7 -2 /"), vec![3]);
    assert_eq!(ints("1 2 /"), vec![0]);
    assert_eq!(ints("-1 2 /"), vec![0]);
    assert_eq!(ints("7 2 %"), vec![1]);
    assert_eq!(ints("-7 2 %"), vec![-1]);
    assert_eq!(ints("7 -2 %"), vec![1]);
    assert_eq!(ints("-7 -2 %"), vec![-1]);
    assert_eq!(ints("-6 2 %"), vec![0]);
    assert_eq!(ints("2147483647 1 +"), vec![i32::MIN]);
    assert_eq!(ints("-2147483648 1 -"), vec![i32::MAX]);
    assert_eq!(ints("65536 65536 *"), vec![0]);
    assert_eq!(ints("-2147483648 -1 /"), vec![i32::MIN]);
    assert_eq!(ints("-2147483648 -1 %"), vec![0]);
    assert_eq!(ints("-2147483648 2147483647 /"), vec![-1]);
    let mut v = machine();
    match run(&mut v, "5 1 0 /") {
        Err(VmErrorReason::InstructionError(m)) => assert_eq!(m, "division by zero"),
        _ => panic!("nothing is divided by zero"),
    }
    assert_eq!(drain(&mut v), vec![5]);
    let mut v = machine();
    assert!(matches!(run(&mut v, "1 0 %"), Err(VmErrorReason::InstructionError(_))));
    let mut v = machine();
    assert!(matches!(run(&mut v, "1 +"), Err(VmErrorReason::DataStackAccessError(_))));
    assert!(drain(&mut v).is_empty());
    let mut v = machine();
    match run(&mut v, "\"a\" 1 +") {
        Err(VmErrorReason::TypeMismatchError(e)) => {
            assert_eq!(e.0, "INT");
            assert_eq!(e.1, "STR");
        }
        _ => panic!("a string is no summand"),
    }
    assert!(drain(&mut v).is_empty());
}

#[test]
fn test_address_sums() {
    let mut v = machine();
    run(&mut v, "3 4 c+").unwrap();
    assert_eq!(*v.data_stack_mut().pop().unwrap(), Value::CodeAddress(From::from(7)));
    run(&mut v, "cdp 1 c+").unwrap();
    let here = v.code_buffer().here();
    assert_eq!(*v.data_stack_mut().pop().unwrap(), Value::CodeAddress(here.next()));
    run(&mut v, "3 4 d+ 5 e+").unwrap();
    assert_eq!(
        *v.data_stack_mut().pop().unwrap(),
        Value::EnvAddress(EnvironmentStackRelativeAddress(12))
    );
    run(&mut v, "1 2 d+").unwrap();
    assert_eq!(*v.data_stack_mut().pop().unwrap(), Value::DataAddress(DataAddress(Address::Entity(3))));
    v.data_stack_mut().push(Rc::new(Value::CodeAddress(CodeAddress(Address::Root))));
    v.data_stack_mut().push(Rc::new(Value::IntValue(1)));
    match call_aafa(&mut v, AddressKind::Code) {
        Err(VmErrorReason::TypeMismatchError(e)) => {
            assert_eq!(e.0, "INT|ADDRESS");
            assert_eq!(e.1, "CODE_ADDRESS");
        }
        _ => panic!("the root address is at no index"),
    }
    v.data_stack_mut().push(Rc::new(Value::IntValue(-1)));
    v.data_stack_mut().push(Rc::new(Value::IntValue(1)));
    assert!(matches!(
        call_aafa(&mut v, AddressKind::Data),
        Err(VmErrorReason::InstructionError(_))
    ));
}

#[test]
fn test_bit_words() {
    assert_eq!(ints("12 10 and"), vec![8]);
    assert_eq!(ints("12 10 or"), vec![14]);
    assert_eq!(ints("12 10 xor"), vec![6]);
    assert_eq!(ints("0 not"), vec![-1]);
    assert_eq!(ints("-1 not"), vec![0]);
    assert_eq!(ints("-1 255 and"), vec![255]);
    assert_eq!(ints("-8 1 or"), vec![-7]);
    assert_eq!(ints("1 4 <<"), vec![16]);
    assert_eq!(ints("1 31 <<"), vec![i32::MIN]);
    assert_eq!(ints("1 32 <<"), vec![1]);
    assert_eq!(ints("1 -1 <<"), vec![i32::MIN]);
    assert_eq!(ints("-16 2 >>"), vec![0x3fff_fffc]);
    assert_eq!(ints("-16 2 A>>"), vec![-4]);
    assert_eq!(ints("16 2 >>"), vec![4]);
    assert_eq!(ints("16 2 A>>"), vec![4]);
    assert_eq!(ints("-1 33 >>"), vec![i32::MAX]);
    assert_eq!(ints("-2147483648 31 A>>"), vec![-1]);
}

#[test]
fn test_logical_words() {
    assert_eq!(ints("1 2 &&"), vec![1]);
    assert_eq!(ints("1 0 &&"), vec![0]);
    assert_eq!(ints("0 0 ||"), vec![0]);
    assert_eq!(ints("0 \"0\" ||"), vec![1]);
    assert_eq!(ints("1 2 ="), vec![0]);
    assert_eq!(ints("2 2 ="), vec![1]);
    assert_eq!(ints("\"a\" \"a\" ="), vec![1]);
    assert_eq!(ints("\"a\" \"b\" ="), vec![0]);
    assert_eq!(ints("1 \"1\" ="), vec![0]);
    assert_eq!(ints("1 \"1\" <>"), vec![1]);
    assert_eq!(ints("2 2 <>"), vec![0]);
    assert_eq!(ints("1 2 <"), vec![1]);
    assert_eq!(ints("2 2 <"), vec![0]);
    assert_eq!(ints("2 2 <="), vec![1]);
    assert_eq!(ints("3 2 <="), vec![0]);
    assert_eq!(ints("3 2 >"), vec![1]);
    assert_eq!(ints("2 2 >"), vec![0]);
    assert_eq!(ints("2 2 >="), vec![1]);
    assert_eq!(ints("-3 2 >="), vec![0]);
    assert_eq!(ints("\"a\" \"b\" <"), vec![1]);
    assert_eq!(ints("\"b\" \"ab\" <"), vec![0]);
    assert_eq!(ints("\"a\" \"ab\" <"), vec![1]);
    assert_eq!(ints("\"ab\" \"a\" >"), vec![1]);
    assert_eq!(ints("99 \"a\" <"), vec![1]);
    assert_eq!(ints("\"a\" cdp <"), vec![1]);
    assert_eq!(ints("cdp 0 0 d+ <"), vec![1]);
    // The data module is defined before the logical one, so that `!` is the
    // word of logic.
    assert_eq!(ints("0 !"), vec![1]);
    assert_eq!(ints("5 !"), vec![0]);
}

#[test]
fn test_orders_agree_with_the_derived_ones() {
    let values: Vec<Value<i32>> = vec![
        Value::IntValue(-5),
        Value::IntValue(7),
        Value::StrValue(String::from("")),
        Value::StrValue(String::from("a")),
        Value::StrValue(String::from("ab")),
        Value::StrValue(String::from("b")),
        Value::StrValue(String::from("\u{e9}")),
        Value::CodeAddress(CodeAddress(Address::Root)),
        Value::CodeAddress(From::from(0)),
        Value::CodeAddress(From::from(9)),
        Value::DataAddress(DataAddress(Address::Root)),
        Value::DataAddress(From::from(3)),
        Value::EnvAddress(EnvironmentStackRelativeAddress(0)),
        Value::EnvAddress(EnvironmentStackRelativeAddress(4)),
        Value::ExtValue(-1),
        Value::ExtValue(1),
        Value::Empty,
    ];
    for a in &values {
        for b in &values {
            let expected = match a.partial_cmp(b) {
                Some(std::cmp::Ordering::Less) => Some(Order::Less),
                Some(std::cmp::Ordering::Equal) => Some(Order::Equal),
                Some(std::cmp::Ordering::Greater) => Some(Order::Greater),
                None => None,
            };
            assert_eq!(order_of_values(a, b), expected, "{:?} and {:?}", a, b);
            assert_eq!(value_eq(a, b), a == b, "{:?} and {:?}", a, b);
        }
    }
    let floats = [Value::ExtValue(f32::NAN), Value::ExtValue(1.0f32)];
    assert_eq!(order_of_values(&floats[0], &floats[1]), None);
    assert_eq!(order_of_values(&floats[1], &floats[1]), Some(Order::Equal));
    assert!(!value_eq(&floats[0], &floats[0]));
    assert_eq!(order_of_bytes(b"abc", b"abd"), Order::Less);
    assert_eq!(order_of_bytes(b"abc", b"ab"), Order::Greater);
    assert_eq!(order_of_bytes(b"", b""), Order::Equal);
    assert_eq!(order_of_i32(-1, 1), Order::Less);
    assert_eq!(order_of_index(2, 1), Order::Greater);
}

fn text_of_value<V: Text>(v: &V) -> String {
    let mut s = String::from("*");
    v.write_text(&mut s);
    assert!(s.starts_with('*'));
    s.split_off(1)
}

#[test]
fn test_texts_of_values() {
    for n in [0, 7, -7, 10, 12345, i32::MAX, i32::MIN] {
        assert_eq!(decimal_string(n), format!("{}", n));
    }
    assert_eq!(text_of_value(&Value::<i32>::IntValue(-12)), "-12");
    assert_eq!(text_of_value(&Value::<i32>::StrValue(String::from("as it is"))), "as it is");
    assert_eq!(
        text_of_value(&Value::<i32>::CodeAddress(From::from(15))),
        "Value(CodeAddress(15))"
    );
    assert_eq!(
        text_of_value(&Value::<i32>::CodeAddress(CodeAddress(Address::Root))),
        "Value(CodeAddress(Root))"
    );
    assert_eq!(text_of_value(&Value::<i32>::DataAddress(From::from(0))), "Value(DataAddress(0))");
    assert_eq!(
        text_of_value(&Value::<i32>::EnvAddress(EnvironmentStackRelativeAddress(3))),
        "Value(EnvironmentStackRelativeAddress(3))"
    );
    assert_eq!(text_of_value(&Value::<i32>::ExtValue(-5)), "-5");
    assert_eq!(text_of_value(&Value::<usize>::ExtValue(5)), "5");
    assert_eq!(text_of_value(&Value::<i32>::Empty), "Value(EMPTY)");
}

#[test]
fn test_output_words() {
    let mut v = machine();
    run(&mut v, "1 2 + . cr \"text\" . -5 .").unwrap();
    assert_eq!(written(&v), "3\ntext-5");
    assert!(drain(&mut v).is_empty());
    assert!(matches!(run(&mut v, "."), Err(VmErrorReason::DataStackAccessError(_))));
}

#[test]
fn test_defining_words() {
    assert_eq!(ints(": sq dup * ; 7 sq"), vec![49]);
    assert_eq!(ints(": two 2 ; : four two two + ; four"), vec![4]);
    assert_eq!(ints("5 constant five five five +"), vec![10]);
    assert_eq!(ints(": w 1 ; : w 2 ; w"), vec![2]);
    // A word without a name is not reserved, so that `;` finds nothing to
    // complete; the body is compiled all the same.
    let mut v = machine();
    let start = v.code_buffer().here();
    assert!(matches!(
        run(&mut v, ":noname 3 ;"),
        Err(VmErrorReason::WordError(WordErrorReason::CompleteWordInUnreserved))
    ));
    assert_eq!(*v.data_stack_mut().pop().unwrap(), Value::CodeAddress(start));
    assert!(matches!(v.code_buffer().get(start).unwrap(), Instruction::Push(_)));
    assert!(matches!(v.code_buffer().get(start.next()).unwrap(), Instruction::Return));
    let mut v = machine();
    match run(&mut v, ": open 1") {
        Ok(true) => {}
        _ => panic!("the script ends inside the definition"),
    }
    assert!(v.word_dictionary().find_word(&String::from("open")).is_err());
    let mut v = machine();
    assert!(matches!(
        run(&mut v, ";"),
        Err(VmErrorReason::WordError(WordErrorReason::CompleteWordInUnreserved))
    ));
    let mut v = machine();
    match run(&mut v, ":") {
        Err(VmErrorReason::TypeMismatchError(e)) => {
            assert_eq!(e.0, "Symbol");
            assert_eq!(e.1, "EMPTY");
        }
        _ => panic!("no name follows"),
    }
    let mut v = machine();
    match run(&mut v, ": 5") {
        Err(VmErrorReason::TypeMismatchError(e)) => {
            assert_eq!(e.0, "Symbol");
            assert_eq!(e.1, "UNKNOWN");
        }
        _ => panic!("an integer is no name"),
    }
}

#[test]
fn test_immediate_and_recursive_words() {
    // An immediate word runs while the definition is compiled.
    assert_eq!(ints(": now 9 ; immidiate : later now ; later"), vec![9]);
    assert_eq!(ints(":recursive me 1 ; me"), vec![1]);
    let mut v = machine();
    run(&mut v, ": w recurse ;").unwrap();
    let word = v.word_dictionary().find_word(&String::from("w")).unwrap().code();
    assert!(matches!(v.code_buffer().get(word).unwrap(), Instruction::Call(a) if a == word));
}

#[test]
fn test_tick_defer_and_is() {
    let mut v = machine();
    run(&mut v, ": seven 7 ; defer later ' seven is later later").unwrap();
    assert_eq!(drain(&mut v), vec![7]);
    let mut v = machine();
    match run(&mut v, "defer later later") {
        Err(VmErrorReason::TrapError(TrapReason::DummyInstructionExecution)) => {}
        _ => panic!("the body of the word is still to come"),
    }
    let mut v = machine();
    assert!(matches!(
        run(&mut v, "' nothing"),
        Err(VmErrorReason::WordError(WordErrorReason::UndefinedWord(ref n))) if n == "nothing"
    ));
    let mut v = machine();
    assert!(matches!(run(&mut v, ": a 1 ; 5 is a"), Err(VmErrorReason::TypeMismatchError(_))));
    let mut v = machine();
    run(&mut v, ": a 1 ; : b ['] a ; b").unwrap();
    let a = v.word_dictionary().find_word(&String::from("a")).unwrap().code();
    assert_eq!(*v.data_stack_mut().pop().unwrap(), Value::CodeAddress(a));
}

#[test]
fn test_data_words() {
    assert_eq!(ints("create cell 5 , cell @"), vec![5]);
    let mut v = machine();
    run(&mut v, "create cell 1 allot 8 cell").unwrap();
    exst::primitive::data::set(&mut v).unwrap();
    run(&mut v, "cell @").unwrap();
    assert_eq!(drain(&mut v), vec![8]);
    assert_eq!(ints("create a 1 , create b 2 , a @ b @"), vec![1, 2]);
    let mut v = machine();
    run(&mut v, "create cell 3 allot").unwrap();
    assert_eq!(v.data_buffer().here(), DataAddress(Address::Entity(3)));
    assert_eq!(*v.data_buffer().get(From::from(2)).unwrap(), Value::Empty);
    let mut v = machine();
    assert!(matches!(run(&mut v, "create cell cell @"), Err(VmErrorReason::DataBufferAccessError(_))));
    let mut v = machine();
    match run(&mut v, "5 @") {
        Err(VmErrorReason::TypeMismatchError(e)) => {
            assert_eq!(e.0, "DataAddress|EnvAddress");
            assert_eq!(e.1, "UNKNOWN");
        }
        _ => panic!("an integer is no address"),
    }
    let mut v = machine();
    match run(&mut v, "-1 allot") {
        Err(VmErrorReason::InstructionError(m)) => assert_eq!(m, "data buffer overflow"),
        _ => panic!("the buffer does not grow by a negative size"),
    }
    assert_eq!(v.data_buffer().here(), DataAddress(Address::Entity(0)));
    let mut v = machine();
    run(&mut v, "9 constant nine ' nine body>").unwrap();
    assert_eq!(drain(&mut v), vec![9]);
    let mut v = machine();
    run(&mut v, "4 body>").unwrap();
    assert_eq!(drain(&mut v), vec![4]);
    let mut v = machine();
    run(&mut v, ": w 1 2 + ; ' w body>").unwrap();
    assert_eq!(drain(&mut v), vec![1]);
}

#[test]
fn test_environment_words() {
    let mut v = machine();
    v.data_stack_mut().push(Rc::new(Value::IntValue(1)));
    v.data_stack_mut().push(Rc::new(Value::IntValue(2)));
    to_e(&mut v).unwrap();
    to_e(&mut v).unwrap();
    assert_eq!(v.env_stack().here().0, 2);
    peek_e(&mut v).unwrap();
    pop_e(&mut v).unwrap();
    pop_e(&mut v).unwrap();
    assert_eq!(drain(&mut v), vec![1, 1, 2]);
    assert!(matches!(pop_e(&mut v), Err(VmErrorReason::EnvironmentStackAccessError(_))));
    assert!(matches!(peek_e(&mut v), Err(VmErrorReason::DataStackAccessError(_))));
    assert!(matches!(to_e(&mut v), Err(VmErrorReason::DataStackAccessError(_))));
    // What a word puts on the environment stack is gone when the word has
    // returned, and `>E` is a word.
    let mut v = machine();
    run(&mut v, "5 >E").unwrap();
    assert_eq!(v.env_stack().here().0, 0);
    assert!(matches!(run(&mut v, "E>"), Err(VmErrorReason::EnvironmentStackAccessError(_))));
    // A local variable is a slot of the environment of the call.
    let mut v = machine();
    v.env_stack_mut().push(Rc::new(Value::IntValue(10)));
    v.env_stack_mut().push(Rc::new(Value::IntValue(20)));
    v.return_stack_mut().push(CodeAddress(Address::Root), From::from(0));
    run(&mut v, ": locals create-local a create-local b b a ;").unwrap();
    assert_eq!(v.local_dictionary().len(), 2);
    let body = v.word_dictionary().find_word(&String::from("locals")).unwrap().code();
    assert!(matches!(
        v.code_buffer().get(body).unwrap(),
        Instruction::LocalRef(EnvironmentStackRelativeAddress(1))
    ));
    assert!(matches!(
        v.code_buffer().get(body.next()).unwrap(),
        Instruction::LocalRef(EnvironmentStackRelativeAddress(0))
    ));
}

#[test]
fn test_controlflow_words() {
    assert_eq!(ints("1 2 >C >C C> C>"), vec![1, 2]);
    assert_eq!(ints("5 >C C@ C>"), vec![5, 5]);
    let mut v = machine();
    assert!(matches!(run(&mut v, "C>"), Err(VmErrorReason::ControlflowStackAccessError(_))));
    let mut v = machine();
    assert!(matches!(run(&mut v, "C@"), Err(VmErrorReason::DataStackAccessError(_))));
}

#[test]
fn test_system_words() {
    assert_eq!(ints("1 quit 2"), vec![1]);
    assert_eq!(ints("1 bye 2"), vec![1]);
    // When the script that was loaded has been read, the machine is back
    // at the call of `load`, which reads the name of the next script.
    let mut v = machine();
    match run(&mut v, "load $lib") {
        Err(VmErrorReason::TypeMismatchError(e)) => {
            assert_eq!(e.0, "Symbol");
            assert_eq!(e.1, "EMPTY");
        }
        _ => panic!("no name of a script is left"),
    }
    assert_eq!(drain(&mut v), vec![42]);
    let mut v = machine();
    assert!(matches!(
        run(&mut v, "load $nothing"),
        Err(VmErrorReason::ResourceError(ResourceErrorReason::ResourceNotFound(ref n)))
            if n == "$nothing"
    ));
    // `]` has the tokens compiled and the immediate `[` has them interpreted
    // again.
    let mut v = machine();
    run(&mut v, "1 ] 2 3 [ 4").unwrap();
    assert_eq!(drain(&mut v), vec![1, 4]);
    assert_eq!(v.state(), VmState::Interpretation);
    assert_eq!(v.code_buffer().here().0, Address::Entity(255 + 2));
}

#[test]
fn test_compiling_words() {
    let mut v = machine();
    let start = v.code_buffer().here();
    run(&mut v, "5 literal").unwrap();
    assert!(
        matches!(v.code_buffer().get(start).unwrap(), Instruction::Push(ref x) if **x == Value::IntValue(5))
    );
    run(&mut v, "cdp compile, cdp __jump__ cdp __branch__ __exec__ __return__ __user_trap__")
        .unwrap();
    run(&mut v, "__dummy_instruction__").unwrap();
    let mut at = start.next();
    assert!(matches!(v.code_buffer().get(at).unwrap(), Instruction::Call(a) if a == at));
    at = at.next();
    assert!(matches!(v.code_buffer().get(at).unwrap(), Instruction::Jump(a) if a == at));
    at = at.next();
    assert!(matches!(v.code_buffer().get(at).unwrap(), Instruction::Branch(a) if a == at));
    at = at.next();
    assert!(matches!(v.code_buffer().get(at).unwrap(), Instruction::Exec));
    at = at.next();
    assert!(matches!(v.code_buffer().get(at).unwrap(), Instruction::Return));
    at = at.next();
    assert!(matches!(v.code_buffer().get(at).unwrap(), Instruction::Trap(TrapReason::UserTrap)));
    at = at.next();
    assert!(matches!(
        v.code_buffer().get(at).unwrap(),
        Instruction::Trap(TrapReason::DummyInstructionExecution)
    ));
    // The last instruction takes the place of the first.
    v.data_stack_mut().push(Rc::new(Value::CodeAddress(start)));
    run(&mut v, "instruction-at").unwrap();
    assert!(matches!(
        v.code_buffer().get(start).unwrap(),
        Instruction::Trap(TrapReason::DummyInstructionExecution)
    ));
    assert_eq!(v.code_buffer().here(), at);
    let mut v = machine();
    assert!(matches!(run(&mut v, "5 compile,"), Err(VmErrorReason::TypeMismatchError(_))));
}

#[test]
fn test_parse_words() {
    let mut v = machine();
    run(&mut v, "\")\" parse  a text ) 1").unwrap();
    assert_eq!(*v.data_stack_mut().pop().unwrap(), Value::IntValue(1));
    assert_eq!(*v.data_stack_mut().pop().unwrap(), Value::StrValue(String::from("  a text ")));
    let mut v = machine();
    run(&mut v, "parse-name anything").unwrap();
    assert_eq!(*v.data_stack_mut().pop().unwrap(), Value::StrValue(String::from("anything")));
    let mut v = machine();
    match run(&mut v, "1 parse") {
        Err(VmErrorReason::TypeMismatchError(e)) => {
            assert_eq!(e.0, "CHAR");
            assert_eq!(e.1, "INT");
        }
        _ => panic!("an integer names no character"),
    }
    let mut v = machine();
    assert!(matches!(run(&mut v, "\"\" parse"), Err(VmErrorReason::TypeMismatchError(_))));
    let mut v = machine();
    run(&mut v, ": w ; \"what it does\" document-word").unwrap();
    assert_eq!(v.word_dictionary().find_word(&String::from("w")).unwrap().document(), "what it does");
    let mut v = machine();
    assert!(matches!(run(&mut v, "5 document-word"), Err(VmErrorReason::TypeMismatchError(_))));
}

#[test]
fn test_postpone() {
    // Of an immediate word a call is compiled.
    let mut v = machine();
    run(&mut v, ": now 9 ; immidiate : later postpone now ; later").unwrap();
    assert_eq!(drain(&mut v), vec![9]);
    // Of another word the compilation of a call is compiled.
    let mut v = machine();
    run(&mut v, ": nine 9 ; : compiler postpone nine ; immidiate : user compiler ; user").unwrap();
    assert_eq!(drain(&mut v), vec![9]);
    let mut v = machine();
    run(&mut v, ": a 1 ; : b [compile] a ; b").unwrap();
    assert_eq!(drain(&mut v), vec![1]);
}

#[test]
fn test_the_functions_that_words_are_made_of() {
    fn add(a: i32, b: i32) -> i32 {
        a.wrapping_add(b)
    }
    fn negate(a: i32) -> i32 {
        a.wrapping_neg()
    }
    fn first(a: Rc<Value<i32>>, _b: Rc<Value<i32>>) -> Value<i32> {
        match *a {
            Value::IntValue(i) => Value::IntValue(i),
            _ => Value::Empty,
        }
    }
    fn kind(a: Rc<Value<i32>>) -> Value<i32> {
        Value::StrValue(String::from(a.value_type_name()))
    }
    let mut v = machine();
    v.data_stack_mut().push(Rc::new(Value::IntValue(2)));
    v.data_stack_mut().push(Rc::new(Value::IntValue(3)));
    call_iifi(&mut v, add).unwrap();
    call_ifi(&mut v, negate).unwrap();
    v.data_stack_mut().push(Rc::new(Value::StrValue(String::from("x"))));
    call_xxfx(&mut v, first).unwrap();
    call_xfx(&mut v, kind).unwrap();
    assert_eq!(*v.data_stack_mut().pop().unwrap(), Value::StrValue(String::from("INT")));
    assert!(matches!(call_xfx(&mut v, kind), Err(VmErrorReason::DataStackAccessError(_))));
    v.call_script(new_token_stream_from_str("name 5"));
    assert_eq!(call_with_name(&mut v).unwrap(), "name");
    assert!(matches!(call_with_name(&mut v), Err(VmErrorReason::TypeMismatchError(_))));
    assert!(matches!(call_with_name(&mut v), Err(VmErrorReason::TypeMismatchError(_))));
}

#[test]
fn test_builtin_as_primitive() {
    let mut v = machine();
    v.data_stack_mut().push(Rc::new(Value::IntValue(20)));
    v.data_stack_mut().push(Rc::new(Value::IntValue(22)));
    Builtin::Plus.invoke(&mut v).unwrap();
    assert_eq!(drain(&mut v), vec![42]);
    v.data_stack_mut().push(Rc::new(Value::IntValue(20)));
    Builtin::Dup.run(&mut v).unwrap();
    assert_eq!(drain(&mut v), vec![20, 20]);
}

fn exec_test(script: &'static str) {
    let mut vm = machine();
    let result = run(&mut vm, script);
    match result {
        Result::Ok(_) => {
            if vm.data_stack().here() != From::from(0) {
                panic!("data stack is not empty.")
            }
        }
        Result::Err(e) => {
            panic!("{:?}", e);
        }
    }
}

#[test]
fn test() {
    exec_test(
        r#"
            1 2 + . cr
        "#,
    );
}

#[test]
fn run_script_runs_a_script_to_its_end() {
    let mut v = machine();
    assert!(run_script(&mut v, "1 2 + 4 *").is_ok());
    assert_eq!(drain(&mut v), vec![12]);
    assert_eq!(v.state(), VmState::Interpretation);
    match run_script(&mut v, "5 nothing 6") {
        Err(VmErrorReason::WordError(WordErrorReason::UndefinedWord(n))) => assert_eq!(n, "nothing"),
        other => panic!("{:?}", other),
    }
    assert_eq!(drain(&mut v), vec![5]);
}
