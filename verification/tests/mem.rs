use exst::lang::mem::BufferErrorReason;
use exst::lang::mem::BufferMemory;
use exst::lang::mem::CodeBuffer;
use exst::lang::mem::CodeBufferErrorReason;
use exst::lang::mem::ControlflowStack;
use exst::lang::mem::DataBuffer;
use exst::lang::mem::DataBufferErrorReason;
use exst::lang::mem::DataStack;
use exst::lang::mem::DataStackErrorReason;
use exst::lang::mem::EnvironmentStack;
use exst::lang::mem::EnvironmentStackErrorReason;
use exst::lang::mem::LongJumpStack;
use exst::lang::mem::LongJumpStackErrorReason;
use exst::lang::mem::ReturnStack;
use exst::lang::mem::ReturnStackErrorReason;
use exst::lang::value::Address;
use exst::lang::value::BufferAddressErrorReason;
use exst::lang::value::CodeAddress;
use exst::lang::value::DataAddress;
use exst::lang::value::DataStackAddress;
use exst::lang::value::EnvironmentStackAddress;
use exst::lang::value::EnvironmentStackRelativeAddress;
use exst::lang::value::Instruction;
use exst::lang::value::ReturnStackAddress;
use exst::lang::value::Value;
use std::rc::Rc;

#[test]
fn test_simple_stack() {
    let mut buf = BufferMemory::<i32>::new();

    assert_eq!(buf.here(), 0);
    buf.push(10);
    assert_eq!(buf.here(), 1);
    buf.push(20);
    assert_eq!(buf.here(), 2);

    assert_eq!(buf.get(0).unwrap(), 10);
    assert_eq!(buf.get(1).unwrap(), 20);
    assert_eq!(
        match buf.get(2).unwrap_err() {
            BufferErrorReason::OutOfRangeAccess(2, 2) => true,
            _ => false,
        },
        true
    );

    assert_eq!(buf.set(1, 21).unwrap(), 20);
    assert_eq!(buf.get(1).unwrap(), 21);
    assert_eq!(
        match buf.set(2, 10).unwrap_err() {
            BufferErrorReason::OutOfRangeAccess(2, 2) => true,
            _ => false,
        },
        true
    );

    assert_eq!(buf.pop().unwrap(), 21);
    assert_eq!(buf.pop().unwrap(), 10);
    assert_eq!(
        match buf.pop().unwrap_err() {
            BufferErrorReason::UnderflowAccessError => true,
            _ => false,
        },
        true
    );
}

#[test]
fn test_seq_mem() {
    let mut buf = BufferMemory::<i32>::new();

    assert_eq!(buf.allocate(4), 4);
    assert_eq!(buf.here(), 4);
    assert_eq!(buf.get(0).unwrap(), 0);
    assert_eq!(buf.get(1).unwrap(), 0);
    assert_eq!(buf.get(2).unwrap(), 0);
    assert_eq!(buf.get(3).unwrap(), 0);

    buf.set(0, 1).unwrap();
    buf.set(1, 2).unwrap();
    buf.set(2, 3).unwrap();
    buf.set(3, 4).unwrap();
    assert_eq!(buf.get(0).unwrap(), 1);
    assert_eq!(buf.get(1).unwrap(), 2);
    assert_eq!(buf.get(2).unwrap(), 3);
    assert_eq!(buf.get(3).unwrap(), 4);

    assert_eq!(buf.allocate(2), 6);
    assert_eq!(buf.here(), 6);
    assert_eq!(buf.get(0).unwrap(), 1);
    assert_eq!(buf.get(1).unwrap(), 2);
    assert_eq!(buf.get(2).unwrap(), 3);
    assert_eq!(buf.get(3).unwrap(), 4);
    assert_eq!(buf.get(4).unwrap(), 0);
    assert_eq!(buf.get(5).unwrap(), 0);

    assert_eq!(buf.allocate(2), 8);
    assert_eq!(buf.remove(3).unwrap(), 5);
    assert_eq!(buf.here(), 5);
    assert_eq!(buf.get(0).unwrap(), 1);
    assert_eq!(buf.get(1).unwrap(), 2);
    assert_eq!(buf.get(2).unwrap(), 3);
    assert_eq!(buf.get(3).unwrap(), 4);
    assert_eq!(buf.get(4).unwrap(), 0);

    assert_eq!(buf.allocate(2), 7);
    assert_eq!(buf.rollback(3).unwrap(), 4);
    assert_eq!(buf.here(), 3);
    assert_eq!(buf.get(0).unwrap(), 1);
    assert_eq!(buf.get(1).unwrap(), 2);
    assert_eq!(buf.get(2).unwrap(), 3);

    assert_eq!(
        match buf.remove(4).unwrap_err() {
            BufferErrorReason::UnderflowAccessError => true,
            _ => false,
        },
        true
    );
    assert_eq!(
        match buf.rollback(4).unwrap_err() {
            BufferErrorReason::InvalidRollbackPosition(3, 4) => true,
            _ => false,
        },
        true
    );
}

#[test]
fn test_complex_stack() {
    let mut buf = BufferMemory::<i32>::new();
    buf.push(1);
    buf.push(2);
    buf.push(3);
    buf.push(4);
    buf.push(5);
    assert_eq!(buf.here(), 5);

    buf.pick(0).unwrap();
    buf.pick(3).unwrap();
    assert_eq!(buf.here(), 7);
    assert_eq!(buf.get(0).unwrap(), 1);
    assert_eq!(buf.get(1).unwrap(), 2);
    assert_eq!(buf.get(2).unwrap(), 3);
    assert_eq!(buf.get(3).unwrap(), 4);
    assert_eq!(buf.get(4).unwrap(), 5);
    assert_eq!(buf.get(5).unwrap(), 5);
    assert_eq!(buf.get(6).unwrap(), 3);
    assert_eq!(
        match buf.pick(7).unwrap_err() {
            BufferErrorReason::OutOfRangeAccess(7, 7) => true,
            _ => false,
        },
        true
    );

    buf.roll(3).unwrap();
    assert_eq!(buf.here(), 7);
    assert_eq!(buf.get(0).unwrap(), 1);
    assert_eq!(buf.get(1).unwrap(), 2);
    assert_eq!(buf.get(2).unwrap(), 3);
    assert_eq!(buf.get(3).unwrap(), 5);
    assert_eq!(buf.get(4).unwrap(), 5);
    assert_eq!(buf.get(5).unwrap(), 3);
    assert_eq!(buf.get(6).unwrap(), 4);
    assert_eq!(
        match buf.roll(7).unwrap_err() {
            BufferErrorReason::OutOfRangeAccess(7, 7) => true,
            _ => false,
        },
        true
    );
}

fn filled(values: &[i32]) -> BufferMemory<i32> {
    let mut buf = BufferMemory::<i32>::new();
    for v in values {
        buf.push(*v);
    }
    buf
}

fn content(buf: &BufferMemory<i32>) -> Vec<i32> {
    (0..buf.here()).map(|i| buf.get(i).unwrap()).collect()
}

#[test]
fn test_peek_and_references() {
    let buf = filled(&[4, 5, 6]);
    assert_eq!(buf.peek().unwrap(), 6);
    assert_eq!(*buf.peek_ref().unwrap(), 6);
    assert_eq!(*buf.get_ref(1).unwrap(), 5);
    assert_eq!(buf.get_ref(3).unwrap_err(), BufferErrorReason::OutOfRangeAccess(3, 3));
    let empty = BufferMemory::<i32>::new();
    assert_eq!(empty.peek().unwrap_err(), BufferErrorReason::UnderflowAccessError);
    assert_eq!(empty.peek_ref().unwrap_err(), BufferErrorReason::UnderflowAccessError);
}

#[test]
fn test_rollback_to_here_and_to_zero() {
    let mut buf = filled(&[1, 2, 3]);
    assert_eq!(buf.rollback(3).unwrap(), 0);
    assert_eq!(content(&buf), vec![1, 2, 3]);
    assert_eq!(buf.rollback(0).unwrap(), 3);
    assert_eq!(buf.here(), 0);
    assert_eq!(buf.rollback(0).unwrap(), 0);
}

#[test]
fn test_roll_zero_and_one() {
    let mut buf = filled(&[1, 2, 3]);
    buf.roll(0).unwrap();
    assert_eq!(content(&buf), vec![1, 2, 3]);
    buf.roll(1).unwrap();
    assert_eq!(content(&buf), vec![1, 3, 2]);
    buf.roll(1).unwrap();
    assert_eq!(content(&buf), vec![1, 2, 3]);
}

#[test]
fn test_roll_twice_is_no_identity() {
    let mut buf = filled(&[9, 1, 2, 3]);
    buf.roll(2).unwrap();
    assert_eq!(content(&buf), vec![9, 2, 3, 1]);
    buf.roll(2).unwrap();
    assert_eq!(content(&buf), vec![9, 3, 1, 2]);
    buf.roll(2).unwrap();
    assert_eq!(content(&buf), vec![9, 1, 2, 3]);
}

#[test]
fn test_net_zero_sequences() {
    let mut buf = filled(&[7, 8, 9]);
    buf.push(1);
    assert_eq!(buf.pop().unwrap(), 1);
    buf.pick(2).unwrap();
    assert_eq!(buf.pop().unwrap(), 7);
    buf.roll(2).unwrap();
    buf.roll(2).unwrap();
    buf.roll(2).unwrap();
    assert_eq!(content(&buf), vec![7, 8, 9]);
    assert_eq!(buf.here(), 3);
}

type Cell = Rc<Value<i32>>;

fn int_cell(v: i32) -> Cell {
    Rc::new(Value::IntValue(v))
}

#[test]
fn test_code_buffer() {
    let mut code = CodeBuffer::<i32, u8>::new();
    assert_eq!(code.here(), CodeAddress(Address::Entity(0)));
    assert_eq!(code.push(Instruction::Return), CodeAddress(Address::Entity(1)));
    assert_eq!(code.push(Instruction::CallPrimitive(3)), CodeAddress(Address::Entity(2)));
    assert!(matches!(code.get(From::from(0)).unwrap(), Instruction::Return));
    assert!(matches!(code.get(From::from(1)).unwrap(), Instruction::CallPrimitive(3)));
    assert_eq!(
        code.get(From::from(2)).err().unwrap(),
        CodeBufferErrorReason::BufferAccessError(BufferErrorReason::OutOfRangeAccess(2, 2))
    );
    assert_eq!(
        code.get(CodeAddress(Address::Root)).err().unwrap(),
        CodeBufferErrorReason::BufferAddressError(BufferAddressErrorReason::InvalidAddress)
    );
    assert!(matches!(code.set(From::from(0), Instruction::Nop).unwrap(), Instruction::Return));
    assert!(matches!(code.get(From::from(0)).unwrap(), Instruction::Nop));
    assert!(code.set(CodeAddress(Address::Root), Instruction::Nop).is_err());
    assert_eq!(code.allocate(2), CodeAddress(Address::Entity(4)));
    assert!(matches!(code.get(From::from(3)).unwrap(), Instruction::Nop));
    assert!(matches!(code.pop().unwrap(), Instruction::Nop));
    assert_eq!(code.here(), CodeAddress(Address::Entity(3)));
}

#[test]
fn test_data_buffer() {
    let mut data = DataBuffer::<i32>::new();
    assert_eq!(data.here(), DataAddress(Address::Entity(0)));
    assert_eq!(data.allocate(2), DataAddress(Address::Entity(2)));
    assert_eq!(*data.get(From::from(1)).unwrap(), Value::Empty);
    assert_eq!(*data.set(From::from(1), int_cell(5)).unwrap(), Value::Empty);
    assert_eq!(*data.get(From::from(1)).unwrap(), Value::IntValue(5));
    assert_eq!(data.push(int_cell(6)), DataAddress(Address::Entity(3)));
    assert_eq!(
        data.get(From::from(3)).err().unwrap(),
        DataBufferErrorReason::BufferAccessError(BufferErrorReason::OutOfRangeAccess(3, 3))
    );
    assert_eq!(
        data.get(DataAddress(Address::Root)).err().unwrap(),
        DataBufferErrorReason::BufferAddressError(BufferAddressErrorReason::InvalidAddress)
    );
}

#[test]
fn test_data_stack() {
    let mut stack = DataStack::<i32>::new();
    assert_eq!(
        stack.pop().err().unwrap(),
        DataStackErrorReason::BufferAccessError(BufferErrorReason::UnderflowAccessError)
    );
    stack.push(int_cell(1));
    stack.push(int_cell(2));
    stack.push(int_cell(3));
    assert_eq!(stack.here(), DataStackAddress(3));
    assert_eq!(*stack.peek().unwrap(), Value::IntValue(3));
    stack.pick(2).unwrap();
    assert_eq!(*stack.pop().unwrap(), Value::IntValue(1));
    stack.roll(2).unwrap();
    assert_eq!(*stack.pop().unwrap(), Value::IntValue(1));
    assert_eq!(*stack.peek().unwrap(), Value::IntValue(3));
    assert!(stack.pick(2).is_err());
    assert!(stack.roll(2).is_err());
    stack.push(int_cell(4));
    stack.rollback(DataStackAddress(1)).unwrap();
    assert_eq!(stack.here(), DataStackAddress(1));
    assert_eq!(*stack.peek().unwrap(), Value::IntValue(2));
    assert_eq!(
        stack.rollback(DataStackAddress(2)).err().unwrap(),
        DataStackErrorReason::BufferAccessError(BufferErrorReason::InvalidRollbackPosition(1, 2))
    );
}

#[test]
fn test_controlflow_stack() {
    let mut stack = ControlflowStack::<i32>::new();
    assert!(stack.peek().is_err());
    stack.push(int_cell(1));
    stack.push(int_cell(2));
    assert_eq!(stack.here(), 2);
    stack.pick(1).unwrap();
    assert_eq!(*stack.peek().unwrap(), Value::IntValue(1));
    stack.roll(2).unwrap();
    assert_eq!(*stack.pop().unwrap(), Value::IntValue(1));
    assert_eq!(*stack.pop().unwrap(), Value::IntValue(1));
    assert_eq!(*stack.pop().unwrap(), Value::IntValue(2));
    assert!(stack.pop().is_err());
}

#[test]
fn test_environment_stack() {
    let mut stack = EnvironmentStack::<i32>::new();
    stack.push(int_cell(10));
    stack.push(int_cell(11));
    stack.push(int_cell(12));
    assert_eq!(stack.here(), EnvironmentStackAddress(3));
    let base = EnvironmentStackAddress(1);
    assert_eq!(*stack.get(base, EnvironmentStackRelativeAddress(1)).unwrap(), Value::IntValue(12));
    assert_eq!(
        stack.get(base, EnvironmentStackRelativeAddress(2)).err().unwrap(),
        EnvironmentStackErrorReason::BufferAccessError(BufferErrorReason::OutOfRangeAccess(3, 3))
    );
    assert_eq!(
        stack.get(base, EnvironmentStackRelativeAddress(usize::MAX)).err().unwrap(),
        EnvironmentStackErrorReason::BufferAccessError(BufferErrorReason::OutOfRangeAccess(
            3,
            usize::MAX
        ))
    );
    assert_eq!(
        *stack.set(base, EnvironmentStackRelativeAddress(0), int_cell(21)).unwrap(),
        Value::IntValue(11)
    );
    assert_eq!(*stack.get(base, EnvironmentStackRelativeAddress(0)).unwrap(), Value::IntValue(21));
    stack.pick(2).unwrap();
    assert_eq!(*stack.peek().unwrap(), Value::IntValue(10));
    stack.roll(1).unwrap();
    assert_eq!(*stack.pop().unwrap(), Value::IntValue(12));
    assert_eq!(stack.rollback(EnvironmentStackAddress(1)).unwrap(), EnvironmentStackAddress(2));
    assert_eq!(stack.here(), EnvironmentStackAddress(1));
    assert!(stack.rollback(EnvironmentStackAddress(2)).is_err());
}

#[test]
fn test_return_stack() {
    let mut stack = ReturnStack::new();
    assert_eq!(
        stack.peek().err().unwrap(),
        ReturnStackErrorReason::BufferAccessError(BufferErrorReason::UnderflowAccessError)
    );
    stack.push(From::from(5), From::from(1));
    stack.push(From::from(6), From::from(2));
    stack.push(From::from(7), From::from(3));
    assert_eq!(stack.here(), ReturnStackAddress(3));
    assert_eq!(stack.peek().unwrap().return_address(), CodeAddress(Address::Entity(7)));
    assert_eq!(stack.get(ReturnStackAddress(0)).unwrap().stack_address(), From::from(1));
    assert!(stack.get(ReturnStackAddress(3)).is_err());
    stack.rollback(ReturnStackAddress(1)).unwrap();
    assert_eq!(stack.here(), ReturnStackAddress(1));
    assert_eq!(stack.pop().unwrap().return_address(), CodeAddress(Address::Entity(5)));
    assert!(stack.rollback(ReturnStackAddress(1)).is_err());
}

#[test]
fn test_long_jump_stack() {
    let mut stack = LongJumpStack::new();
    assert_eq!(
        stack.pop().err().unwrap(),
        LongJumpStackErrorReason::BufferAccessError(BufferErrorReason::UnderflowAccessError)
    );
    stack.push(From::from(5), From::from(1), From::from(2), From::from(3));
    stack.push(From::from(6), From::from(4), From::from(5), From::from(6));
    assert_eq!(stack.here(), 2);
    assert_eq!(stack.peek().unwrap().data_stack_address(), DataStackAddress(6));
    assert_eq!(
        stack.get(ReturnStackAddress(0)).unwrap().return_address(),
        CodeAddress(Address::Entity(5))
    );
    stack.rollback(ReturnStackAddress(1)).unwrap();
    assert_eq!(stack.here(), 1);
    assert_eq!(stack.pop().unwrap().env_stack_address(), EnvironmentStackAddress(2));
}
