use exst::lang::value::Address;
use exst::lang::value::AddressAccess;
use exst::lang::value::BufferAddressErrorReason;
use exst::lang::value::CallFrame;
use exst::lang::value::CodeAddress;
use exst::lang::value::DataAddress;
use exst::lang::value::EnvironmentStackAddress;
use exst::lang::value::EnvironmentStackRelativeAddress;
use exst::lang::value::Instruction;
use exst::lang::value::LongJumpFrame;
use exst::lang::value::TypeMismatchError;
use exst::lang::value::Value;
use exst::lang::value::ValueTryInto;
use std::rc::Rc;

#[test]
fn test_address() {
    assert_eq!(Address::Root.next(), Address::Root);
    assert_eq!(Address::Entity(0).next(), Address::Entity(1));
    assert_eq!(Address::Entity(1).next(), From::from(2));
    assert_eq!(Address::Entity(0).next().adr().unwrap(), 1);
    assert_eq!(Address::Entity(1).next().adr().unwrap(), 2);
    assert_eq!(
        match Address::Root.adr() {
            Result::Err(BufferAddressErrorReason::InvalidAddress) => true,
            _ => false,
        },
        true
    );
}

#[test]
fn test_code_address() {
    assert_eq!(CodeAddress(Address::Root.next()), CodeAddress(Address::Root));
    assert_eq!(CodeAddress(Address::Entity(0)).next(), CodeAddress(Address::Entity(1)));
    assert_eq!(CodeAddress(Address::Entity(1)).next(), From::from(2));
    assert_eq!(CodeAddress(Address::Entity(0)).next().adr().unwrap(), 1);
    assert_eq!(CodeAddress(Address::Entity(1)).next().adr().unwrap(), 2);
    assert_eq!(
        match CodeAddress(Address::Root).adr() {
            Result::Err(BufferAddressErrorReason::InvalidAddress) => true,
            _ => false,
        },
        true
    );
}

#[test]
fn test_data_address() {
    assert_eq!(DataAddress(Address::Root.next()), DataAddress(Address::Root));
    assert_eq!(DataAddress(Address::Entity(0)).next(), DataAddress(Address::Entity(1)));
    assert_eq!(DataAddress(Address::Entity(1)).next(), From::from(2));
    assert_eq!(DataAddress(Address::Entity(0)).next().adr().unwrap(), 1);
    assert_eq!(DataAddress(Address::Entity(1)).next().adr().unwrap(), 2);
    assert_eq!(
        match DataAddress(Address::Root).adr() {
            Result::Err(BufferAddressErrorReason::InvalidAddress) => true,
            _ => false,
        },
        true
    );
}

#[test]
fn test_environment_stack_address() {
    assert_eq!(EnvironmentStackAddress(0), Default::default());
    assert_eq!(EnvironmentStackAddress(1), From::from(1));
}

#[test]
fn test_call_frame() {
    assert_eq!(CallFrame::new(From::from(123), From::from(456)).return_address(), From::from(123));
    assert_eq!(CallFrame::new(From::from(123), From::from(456)).stack_address(), From::from(456));
}

#[test]
fn test_value() {
    assert_eq!(Value::<f32>::IntValue(100).value_type_name(), "INT");
    assert_eq!(Value::<f32>::StrValue("a".to_string()).value_type_name(), "STR");
    assert_eq!(Value::<f32>::CodeAddress(From::from(100)).value_type_name(), "CODE_ADDRESS");
    assert_eq!(Value::<f32>::DataAddress(From::from(100)).value_type_name(), "DATA_ADDRESS");
    assert_eq!(Value::<f32>::Empty.value_type_name(), "EMPTY");
    assert_eq!(Value::<f32>::ExtValue(1.1).value_type_name(), "EXTRA");
    assert_eq!(Value::<f32>::Empty, Default::default());
}

#[test]
fn test_env_address_value() {
    let v = Value::<i32>::EnvAddress(EnvironmentStackRelativeAddress(3));
    assert_eq!(v.value_type_name(), "ENV_ADDRESS");
    assert_eq!(EnvironmentStackRelativeAddress(3).next(), EnvironmentStackRelativeAddress(4));
}

#[test]
fn test_defaults() {
    assert_eq!(CodeAddress::default(), CodeAddress(Address::Root));
    assert_eq!(DataAddress::default(), DataAddress(Address::Root));
    assert_eq!(CallFrame::default(), CallFrame::new(CodeAddress(Address::Root), From::from(0)));
    let f = LongJumpFrame::default();
    assert_eq!(f.return_address(), CodeAddress(Address::Root));
    assert_eq!(f.return_stack_address().0, 0);
    assert_eq!(f.env_stack_address().0, 0);
    assert_eq!(f.data_stack_address().0, 0);
    let i: Instruction<i32, u8> = Default::default();
    assert!(matches!(i, Instruction::Nop));
}

#[test]
fn test_long_jump_frame() {
    let f = LongJumpFrame::new(From::from(1), From::from(2), From::from(3), From::from(4));
    assert_eq!(f.return_address(), CodeAddress(Address::Entity(1)));
    assert_eq!(f.return_stack_address().0, 2);
    assert_eq!(f.env_stack_address().0, 3);
    assert_eq!(f.data_stack_address().0, 4);
}

#[test]
fn test_try_into() {
    let v = Value::<i32>::IntValue(7);
    let got: Result<&i32, TypeMismatchError> = ValueTryInto::<i32>::try_into(&v);
    assert_eq!(*got.unwrap(), 7);
    let got: Result<&String, TypeMismatchError> = ValueTryInto::<String>::try_into(&v);
    let e = got.unwrap_err();
    assert_eq!(e.0, "STR");
    assert_eq!(e.1, "INT");
    let s = Value::<i32>::StrValue("x".to_string());
    let got: Result<&String, TypeMismatchError> = ValueTryInto::<String>::try_into(&s);
    assert_eq!(got.unwrap(), "x");
    let got: Result<&CodeAddress, TypeMismatchError> = ValueTryInto::<CodeAddress>::try_into(&s);
    let e = got.unwrap_err();
    assert_eq!(e.0, "CODE_ADDRESS");
    assert_eq!(e.1, "STR");
    let c = Value::<i32>::CodeAddress(From::from(5));
    let got: Result<&CodeAddress, TypeMismatchError> = ValueTryInto::<CodeAddress>::try_into(&c);
    assert_eq!(*got.unwrap(), CodeAddress(Address::Entity(5)));
    let d = Value::<i32>::DataAddress(From::from(6));
    let got: Result<&DataAddress, TypeMismatchError> = ValueTryInto::<DataAddress>::try_into(&d);
    assert_eq!(*got.unwrap(), DataAddress(Address::Entity(6)));
    let got: Result<&DataAddress, TypeMismatchError> = ValueTryInto::<DataAddress>::try_into(&c);
    assert_eq!(got.unwrap_err().0, "DATA_ADDRESS");
}

#[test]
fn test_try_into_usize() {
    assert_eq!(Value::<i32>::IntValue(0).try_into_usize().unwrap(), 0);
    assert_eq!(Value::<i32>::IntValue(41).try_into_usize().unwrap(), 41);
    assert_eq!(Value::<i32>::IntValue(-1).try_into_usize().unwrap(), usize::MAX);
    assert_eq!(Value::<i32>::IntValue(-2).try_into_usize().unwrap(), usize::MAX - 1);
    assert_eq!(
        Value::<i32>::IntValue(i32::MIN).try_into_usize().unwrap(),
        usize::MAX - (i32::MAX as usize)
    );
    let e = Value::<i32>::Empty.try_into_usize().unwrap_err();
    assert_eq!(e.0, "INT");
    assert_eq!(e.1, "EMPTY");
}

#[test]
fn test_instruction_clone() {
    let i: Instruction<i32, u8> = Instruction::Push(Rc::new(Value::IntValue(3)));
    match i.clone() {
        Instruction::Push(v) => assert_eq!(*v, Value::IntValue(3)),
        _ => panic!("a clone of a push is a push"),
    }
    let c: Instruction<i32, u8> = Instruction::CallPrimitive(9);
    assert!(matches!(c.clone(), Instruction::CallPrimitive(9)));
    let b: Instruction<i32, u8> = Instruction::Branch(From::from(4));
    assert!(matches!(b.clone(), Instruction::Branch(CodeAddress(Address::Entity(4)))));
}
