//! Addresses, values and instructions handled by the virtual machine.

use super::text::Text;
use std::rc::Rc;
use vstd::prelude::*;
use vstd::std_specs::convert::FromSpecImpl;
use vstd::string::StringExecFns;

verus! {

/// Why an address could not be turned into an index.
#[derive(Debug, Clone, Copy, PartialEq, Eq, Structural)]
pub enum BufferAddressErrorReason {
    /// The address does not designate a cell.
    InvalidAddress,
}

/// Arithmetic shared by the address kinds that designate a cell of a buffer.
pub trait AddressAccess: Sized {
    /// The index the address designates, or `None` for the root address.
    spec fn index(&self) -> Option<usize>;

    /// The index the address designates; the root address has none.
    fn adr(&self) -> (r: Result<usize, BufferAddressErrorReason>)
        ensures
            r == match self.index() {
                Some(i) => Ok::<usize, BufferAddressErrorReason>(i),
                None => Err::<usize, BufferAddressErrorReason>(
                    BufferAddressErrorReason::InvalidAddress,
                ),
            },
    ;

    /// The address that follows; the root address is followed by itself.
    fn next(&self) -> (r: Self)
        requires
            self.index() matches Some(i) ==> i < usize::MAX,
        ensures
            r.index() == match self.index() {
                Some(i) => Some((i + 1) as usize),
                None => None::<usize>,
            },
    ;
}

/// An index into a buffer, or the root that designates no cell.
#[derive(Debug, Clone, Copy, PartialEq, Eq, PartialOrd, Ord, Structural)]
pub enum Address {
    Root,
    Entity(usize),
}

impl AddressAccess for Address {
    open spec fn index(&self) -> Option<usize> {
        match *self {
            Address::Root => None,
            Address::Entity(v) => Some(v),
        }
    }

    fn adr(&self) -> (r: Result<usize, BufferAddressErrorReason>) {
        match self {
            Address::Root => Err(BufferAddressErrorReason::InvalidAddress),
            Address::Entity(v) => Ok(*v),
        }
    }

    fn next(&self) -> (r: Self)
        ensures
            r == match *self {
                Address::Root => Address::Root,
                Address::Entity(a) => Address::Entity((a + 1) as usize),
            },
    {
        match *self {
            Address::Root => Address::Root,
            Address::Entity(a) => Address::Entity(a + 1),
        }
    }
}

impl From<usize> for Address {
    fn from(v: usize) -> (r: Self) {
        Address::Entity(v)
    }
}

impl FromSpecImpl<usize> for Address {
    open spec fn obeys_from_spec() -> bool {
        true
    }

    open spec fn from_spec(v: usize) -> Self {
        Address::Entity(v)
    }
}

/// An address in the code buffer.
#[derive(Debug, Clone, Copy, PartialEq, Eq, PartialOrd, Ord, Structural)]
pub struct CodeAddress(pub Address);

impl AddressAccess for CodeAddress {
    open spec fn index(&self) -> Option<usize> {
        self.0.index()
    }

    fn adr(&self) -> (r: Result<usize, BufferAddressErrorReason>) {
        self.0.adr()
    }

    fn next(&self) -> (r: Self)
        ensures
            r.0 == match self.0 {
                Address::Root => Address::Root,
                Address::Entity(a) => Address::Entity((a + 1) as usize),
            },
    {
        CodeAddress(self.0.next())
    }
}

impl From<usize> for CodeAddress {
    fn from(v: usize) -> (r: Self) {
        CodeAddress(Address::Entity(v))
    }
}

impl FromSpecImpl<usize> for CodeAddress {
    open spec fn obeys_from_spec() -> bool {
        true
    }

    open spec fn from_spec(v: usize) -> Self {
        CodeAddress(Address::Entity(v))
    }
}

impl Default for CodeAddress {
    fn default() -> (r: Self)
        ensures
            r == CodeAddress(Address::Root),
    {
        CodeAddress(Address::Root)
    }
}

/// An address in the data buffer.
#[derive(Debug, Clone, Copy, PartialEq, Eq, PartialOrd, Ord, Structural)]
pub struct DataAddress(pub Address);

impl AddressAccess for DataAddress {
    open spec fn index(&self) -> Option<usize> {
        self.0.index()
    }

    fn adr(&self) -> (r: Result<usize, BufferAddressErrorReason>) {
        match self.0 {
            Address::Root => Err(BufferAddressErrorReason::InvalidAddress),
            Address::Entity(v) => Ok(v),
        }
    }

    fn next(&self) -> (r: Self)
        ensures
            r.0 == match self.0 {
                Address::Root => Address::Root,
                Address::Entity(a) => Address::Entity((a + 1) as usize),
            },
    {
        DataAddress(self.0.next())
    }
}

impl From<usize> for DataAddress {
    fn from(v: usize) -> (r: Self) {
        DataAddress(Address::Entity(v))
    }
}

impl FromSpecImpl<usize> for DataAddress {
    open spec fn obeys_from_spec() -> bool {
        true
    }

    open spec fn from_spec(v: usize) -> Self {
        DataAddress(Address::Entity(v))
    }
}

impl Default for DataAddress {
    fn default() -> (r: Self)
        ensures
            r == DataAddress(Address::Root),
    {
        DataAddress(Address::Root)
    }
}

/// A depth of the environment stack.
#[derive(Debug, Clone, Copy, PartialEq, Eq, PartialOrd, Ord, Structural)]
pub struct EnvironmentStackAddress(pub usize);

impl From<usize> for EnvironmentStackAddress {
    fn from(v: usize) -> (r: Self) {
        EnvironmentStackAddress(v)
    }
}

impl FromSpecImpl<usize> for EnvironmentStackAddress {
    open spec fn obeys_from_spec() -> bool {
        true
    }

    open spec fn from_spec(v: usize) -> Self {
        EnvironmentStackAddress(v)
    }
}

impl Default for EnvironmentStackAddress {
    fn default() -> (r: Self)
        ensures
            r == EnvironmentStackAddress(0),
    {
        EnvironmentStackAddress(0)
    }
}

/// A depth of the return stack.
#[derive(Debug, Clone, Copy, PartialEq, Eq, PartialOrd, Ord, Structural)]
pub struct ReturnStackAddress(pub usize);

impl From<usize> for ReturnStackAddress {
    fn from(v: usize) -> (r: Self) {
        ReturnStackAddress(v)
    }
}

impl FromSpecImpl<usize> for ReturnStackAddress {
    open spec fn obeys_from_spec() -> bool {
        true
    }

    open spec fn from_spec(v: usize) -> Self {
        ReturnStackAddress(v)
    }
}

impl Default for ReturnStackAddress {
    fn default() -> (r: Self)
        ensures
            r == ReturnStackAddress(0),
    {
        ReturnStackAddress(0)
    }
}

/// A depth of the data stack.
#[derive(Debug, Clone, Copy, PartialEq, Eq, PartialOrd, Ord, Structural)]
pub struct DataStackAddress(pub usize);

impl From<usize> for DataStackAddress {
    fn from(v: usize) -> (r: Self) {
        DataStackAddress(v)
    }
}

impl FromSpecImpl<usize> for DataStackAddress {
    open spec fn obeys_from_spec() -> bool {
        true
    }

    open spec fn from_spec(v: usize) -> Self {
        DataStackAddress(v)
    }
}

impl Default for DataStackAddress {
    fn default() -> (r: Self)
        ensures
            r == DataStackAddress(0),
    {
        DataStackAddress(0)
    }
}

/// An offset from the base of the current environment.
#[derive(Debug, Clone, Copy, PartialEq, Eq, PartialOrd, Ord, Structural)]
pub struct EnvironmentStackRelativeAddress(pub usize);

impl EnvironmentStackRelativeAddress {
    /// The offset of the following slot.
    pub fn next(&self) -> (r: Self)
        requires
            self.0 < usize::MAX,
        ensures
            r.0 == self.0 + 1,
    {
        EnvironmentStackRelativeAddress(self.0 + 1)
    }
}

impl From<usize> for EnvironmentStackRelativeAddress {
    fn from(v: usize) -> (r: Self) {
        EnvironmentStackRelativeAddress(v)
    }
}

impl FromSpecImpl<usize> for EnvironmentStackRelativeAddress {
    open spec fn obeys_from_spec() -> bool {
        true
    }

    open spec fn from_spec(v: usize) -> Self {
        EnvironmentStackRelativeAddress(v)
    }
}

impl Default for EnvironmentStackRelativeAddress {
    fn default() -> (r: Self)
        ensures
            r == EnvironmentStackRelativeAddress(0),
    {
        EnvironmentStackRelativeAddress(0)
    }
}

/// What a call leaves on the return stack.
#[derive(Debug, Clone, Copy, PartialEq, Eq, Structural)]
pub struct CallFrame {
    /// Where execution continues after the return.
    pub return_address: CodeAddress,
    /// The depth of the environment stack when the call was made.
    pub stack_address: EnvironmentStackAddress,
}

impl CallFrame {
    /// The frame of a call that returns to `return_address` and whose
    /// environment starts at `stack_address`.
    pub fn new(return_address: CodeAddress, stack_address: EnvironmentStackAddress) -> (r: Self)
        ensures
            r == (CallFrame { return_address, stack_address }),
    {
        CallFrame { return_address, stack_address }
    }

    /// The address at which execution goes on.
    pub fn return_address(&self) -> (r: CodeAddress)
        ensures
            r == self.return_address,
    {
        self.return_address
    }

    /// Where the environment of the call starts.
    pub fn stack_address(&self) -> (r: EnvironmentStackAddress)
        ensures
            r == self.stack_address,
    {
        self.stack_address
    }
}

impl Default for CallFrame {
    fn default() -> (r: Self)
        ensures
            r == (CallFrame {
                return_address: CodeAddress(Address::Root),
                stack_address: EnvironmentStackAddress(0),
            }),
    {
        CallFrame {
            return_address: CodeAddress(Address::Root),
            stack_address: EnvironmentStackAddress(0),
        }
    }
}

/// What `SetJump` records so that a later `LongJump` can unwind to it.
#[derive(Debug, Clone, Copy, PartialEq, Eq, Structural)]
pub struct LongJumpFrame {
    /// Where execution continues after the jump.
    pub return_address: CodeAddress,
    /// The depth of the return stack when the frame was recorded.
    pub return_stack_address: ReturnStackAddress,
    /// The depth of the environment stack when the frame was recorded.
    pub env_stack_address: EnvironmentStackAddress,
    /// The depth of the data stack when the frame was recorded.
    pub data_stack_address: DataStackAddress,
}

impl LongJumpFrame {
    /// The frame of a target that is reached at `return_address` with the
    /// three stacks cut down to the given depths.
    pub fn new(
        return_address: CodeAddress,
        return_stack_address: ReturnStackAddress,
        env_stack_address: EnvironmentStackAddress,
        data_stack_address: DataStackAddress,
    ) -> (r: Self)
        ensures
            r == (LongJumpFrame {
                return_address,
                return_stack_address,
                env_stack_address,
                data_stack_address,
            }),
    {
        LongJumpFrame {
            return_address,
            return_stack_address,
            env_stack_address,
            data_stack_address,
        }
    }

    /// The address at which execution goes on.
    pub fn return_address(&self) -> (r: CodeAddress)
        ensures
            r == self.return_address,
    {
        self.return_address
    }

    /// The depth of the return stack at the target.
    pub fn return_stack_address(&self) -> (r: ReturnStackAddress)
        ensures
            r == self.return_stack_address,
    {
        self.return_stack_address
    }

    /// The depth of the environment stack at the target.
    pub fn env_stack_address(&self) -> (r: EnvironmentStackAddress)
        ensures
            r == self.env_stack_address,
    {
        self.env_stack_address
    }

    /// The depth of the data stack at the target.
    pub fn data_stack_address(&self) -> (r: DataStackAddress)
        ensures
            r == self.data_stack_address,
    {
        self.data_stack_address
    }
}

impl Default for LongJumpFrame {
    fn default() -> (r: Self)
        ensures
            r == (LongJumpFrame {
                return_address: CodeAddress(Address::Root),
                return_stack_address: ReturnStackAddress(0),
                env_stack_address: EnvironmentStackAddress(0),
                data_stack_address: DataStackAddress(0),
            }),
    {
        LongJumpFrame {
            return_address: CodeAddress(Address::Root),
            return_stack_address: ReturnStackAddress(0),
            env_stack_address: EnvironmentStackAddress(0),
            data_stack_address: DataStackAddress(0),
        }
    }
}

/// A value was not of the expected kind: `(expected, actual)`.
#[derive(Debug)]
pub struct TypeMismatchError(pub &'static str, pub &'static str);

/// A value as it lives on the stacks and in the data buffer.
#[derive(Debug, PartialEq, Eq, PartialOrd, Ord)]
pub enum Value<T> {
    /// An integer.
    IntValue(i32),
    /// A string.
    StrValue(String),
    /// An address in the code buffer.
    CodeAddress(CodeAddress),
    /// An address in the data buffer.
    DataAddress(DataAddress),
    /// A slot of the current environment.
    EnvAddress(EnvironmentStackRelativeAddress),
    /// A value of the host's own.
    ExtValue(T),
    /// The content of a cell nothing was stored in.
    Empty,
}

impl<T> Default for Value<T> {
    fn default() -> (r: Self)
        ensures
            r == Value::<T>::Empty,
    {
        Value::Empty
    }
}

/// The name under which error messages speak of integers.
pub fn int_type_name() -> (r: &'static str)
    ensures
        r@ == "INT"@,
{
    "INT"
}

/// The name under which error messages speak of strings.
pub fn str_type_name() -> (r: &'static str)
    ensures
        r@ == "STR"@,
{
    "STR"
}

/// The name under which error messages speak of code addresses.
pub fn code_address_type_name() -> (r: &'static str)
    ensures
        r@ == "CODE_ADDRESS"@,
{
    "CODE_ADDRESS"
}

/// The name under which error messages speak of data addresses.
pub fn data_address_type_name() -> (r: &'static str)
    ensures
        r@ == "DATA_ADDRESS"@,
{
    "DATA_ADDRESS"
}

/// The name under which error messages speak of environment addresses.
pub fn env_address_type_name() -> (r: &'static str)
    ensures
        r@ == "ENV_ADDRESS"@,
{
    "ENV_ADDRESS"
}

/// The name under which error messages speak of host values.
pub fn extra_type_name() -> (r: &'static str)
    ensures
        r@ == "EXTRA"@,
{
    "EXTRA"
}

/// The name under which error messages speak of empty cells.
pub fn empty_type_name() -> (r: &'static str)
    ensures
        r@ == "EMPTY"@,
{
    "EMPTY"
}

impl<T> Value<T> {
    /// The name of the value's kind, as a sequence of characters.
    pub open spec fn spec_type_name(&self) -> Seq<char> {
        match self {
            Value::IntValue(_) => "INT"@,
            Value::StrValue(_) => "STR"@,
            Value::CodeAddress(_) => "CODE_ADDRESS"@,
            Value::DataAddress(_) => "DATA_ADDRESS"@,
            Value::EnvAddress(_) => "ENV_ADDRESS"@,
            Value::ExtValue(_) => "EXTRA"@,
            Value::Empty => "EMPTY"@,
        }
    }

    /// The name of the value's kind.
    pub fn value_type_name(&self) -> (r: &'static str)
        ensures
            r@ == self.spec_type_name(),
    {
        match self {
            Value::IntValue(_) => int_type_name(),
            Value::StrValue(_) => str_type_name(),
            Value::CodeAddress(_) => code_address_type_name(),
            Value::DataAddress(_) => data_address_type_name(),
            Value::EnvAddress(_) => env_address_type_name(),
            Value::ExtValue(_) => extra_type_name(),
            Value::Empty => empty_type_name(),
        }
    }

    /// The unsigned machine word with the same two's-complement bits as the
    /// sign-extended integer `v`.
    pub open spec fn spec_index_of_int(v: i32) -> usize {
        if v >= 0 {
            v as usize
        } else {
            (usize::MAX + 1 + v) as usize
        }
    }

    /// Reads an integer as an index; a negative integer wraps round to a
    /// large index. Anything but an integer is a type mismatch.
    pub fn try_into_usize(&self) -> (r: Result<usize, TypeMismatchError>)
        ensures
            match *self {
                Value::IntValue(v) => r == Ok::<usize, TypeMismatchError>(
                    Self::spec_index_of_int(v),
                ),
                _ => r matches Err(e) && e.0@ == "INT"@ && e.1@ == self.spec_type_name(),
            },
    {
        match self {
            Value::IntValue(v) => {
                let v: i32 = *v;
                if v >= 0 {
                    Ok(v as usize)
                } else {
                    let below: i32 = -(v + 1);
                    Ok(usize::MAX - (below as usize))
                }
            },
            _ => Err(TypeMismatchError(int_type_name(), self.value_type_name())),
        }
    }
}

/// Borrowing the payload of a value when it is of the wanted kind.
pub trait ValueTryInto<T> {
    type Error;

    /// The payload, where the value holds one of type `T`.
    spec fn payload(&self) -> Option<T>;

    /// Whether `e` is the error owed for this value.
    spec fn mismatch(&self, e: Self::Error) -> bool;

    fn try_into(&self) -> (r: Result<&T, Self::Error>)
        ensures
            match self.payload() {
                Some(p) => r matches Ok(v) && *v == p,
                None => r matches Err(e) && self.mismatch(e),
            },
    ;
}

impl<T> ValueTryInto<i32> for Value<T> {
    type Error = TypeMismatchError;

    open spec fn payload(&self) -> Option<i32> {
        match *self {
            Value::IntValue(v) => Some(v),
            _ => None,
        }
    }

    open spec fn mismatch(&self, e: TypeMismatchError) -> bool {
        e.0@ == "INT"@ && e.1@ == self.spec_type_name()
    }

    fn try_into(&self) -> (r: Result<&i32, TypeMismatchError>) {
        match self {
            Value::IntValue(v) => Ok(v),
            _ => Err(TypeMismatchError(int_type_name(), self.value_type_name())),
        }
    }
}

impl<T> ValueTryInto<String> for Value<T> {
    type Error = TypeMismatchError;

    open spec fn payload(&self) -> Option<String> {
        match *self {
            Value::StrValue(v) => Some(v),
            _ => None,
        }
    }

    open spec fn mismatch(&self, e: TypeMismatchError) -> bool {
        e.0@ == "STR"@ && e.1@ == self.spec_type_name()
    }

    fn try_into(&self) -> (r: Result<&String, TypeMismatchError>) {
        match self {
            Value::StrValue(v) => Ok(v),
            _ => Err(TypeMismatchError(str_type_name(), self.value_type_name())),
        }
    }
}

impl<T> ValueTryInto<CodeAddress> for Value<T> {
    type Error = TypeMismatchError;

    open spec fn payload(&self) -> Option<CodeAddress> {
        match *self {
            Value::CodeAddress(v) => Some(v),
            _ => None,
        }
    }

    open spec fn mismatch(&self, e: TypeMismatchError) -> bool {
        e.0@ == "CODE_ADDRESS"@ && e.1@ == self.spec_type_name()
    }

    fn try_into(&self) -> (r: Result<&CodeAddress, TypeMismatchError>) {
        match self {
            Value::CodeAddress(v) => Ok(v),
            _ => Err(TypeMismatchError(code_address_type_name(), self.value_type_name())),
        }
    }
}

impl<T> ValueTryInto<DataAddress> for Value<T> {
    type Error = TypeMismatchError;

    open spec fn payload(&self) -> Option<DataAddress> {
        match *self {
            Value::DataAddress(v) => Some(v),
            _ => None,
        }
    }

    open spec fn mismatch(&self, e: TypeMismatchError) -> bool {
        e.0@ == "DATA_ADDRESS"@ && e.1@ == self.spec_type_name()
    }

    fn try_into(&self) -> (r: Result<&DataAddress, TypeMismatchError>) {
        match self {
            Value::DataAddress(v) => Ok(v),
            _ => Err(TypeMismatchError(data_address_type_name(), self.value_type_name())),
        }
    }
}

/// Marks in the code buffer that execution passes over.
#[derive(Debug, Clone, Copy, PartialEq, Eq, Structural)]
pub enum DebugLabel {
    /// The end of a word's body.
    WordTerminator,
}

/// Why a `Trap` instruction stops execution.
#[derive(Debug, Clone, Copy, PartialEq, Eq, Structural)]
pub enum TrapReason {
    /// A placeholder left by the compiler was executed.
    DummyInstructionExecution,
    /// The program asked for the trap.
    UserTrap,
}

/// One step of the virtual machine. `P` is the host's handle on a primitive.
pub enum Instruction<T, P> {
    /// Push a value on the data stack.
    Push(Rc<Value<T>>),
    /// Call the word at an address.
    Call(CodeAddress),
    /// Call a primitive of the host.
    CallPrimitive(P),
    /// Return from the word.
    Return,
    /// Push the value of a slot of the current environment.
    LocalRef(EnvironmentStackRelativeAddress),
    /// Do nothing.
    Nop,
    /// Stop with an error; execution can resume behind the instruction.
    Trap(TrapReason),
    /// A mark for debugging; does nothing.
    DebugLabel(DebugLabel),
    /// Pop the data stack and jump unless the value is the integer zero.
    Branch(CodeAddress),
    /// Jump.
    Jump(CodeAddress),
    /// Pop the data stack and run what the value designates.
    Exec,
    /// Record a target for a later `LongJump`.
    SetJump(CodeAddress),
    /// Unwind to the most recent target.
    LongJump,
    /// Forget the most recent target.
    PopJump,
}

impl<T, P> Default for Instruction<T, P> {
    fn default() -> (r: Self)
        ensures
            r == Instruction::<T, P>::Nop,
    {
        Instruction::Nop
    }
}

/// `Rc::clone`: the new handle designates the same value as `v`.
#[verifier::external_body]
pub(crate) fn share<T>(v: &Rc<T>) -> (r: Rc<T>)
    ensures
        r == *v,
{
    Rc::clone(v)
}

impl<T, P: Copy> Clone for Instruction<T, P> {
    fn clone(&self) -> (r: Self)
        ensures
            r == *self,
    {
        match self {
            Instruction::Push(v) => Instruction::Push(share(v)),
            Instruction::Call(a) => Instruction::Call(*a),
            Instruction::CallPrimitive(f) => Instruction::CallPrimitive(*f),
            Instruction::Return => Instruction::Return,
            Instruction::LocalRef(a) => Instruction::LocalRef(*a),
            Instruction::Nop => Instruction::Nop,
            Instruction::Trap(v) => Instruction::Trap(*v),
            Instruction::DebugLabel(v) => Instruction::DebugLabel(*v),
            Instruction::Branch(a) => Instruction::Branch(*a),
            Instruction::Jump(a) => Instruction::Jump(*a),
            Instruction::Exec => Instruction::Exec,
            Instruction::SetJump(a) => Instruction::SetJump(*a),
            Instruction::LongJump => Instruction::LongJump,
            Instruction::PopJump => Instruction::PopJump,
        }
    }
}

impl Text for Address {
    open spec fn text(&self) -> Seq<char> {
        match self {
            Address::Root => "Root"@,
            Address::Entity(a) => a.text(),
        }
    }

    fn write_text(&self, f: &mut String) {
        match self {
            Address::Root => f.append("Root"),
            Address::Entity(a) => a.write_text(f),
        }
    }
}

impl Text for CodeAddress {
    open spec fn text(&self) -> Seq<char> {
        "CodeAddress("@ + self.0.text() + ")"@
    }

    fn write_text(&self, f: &mut String) {
        f.append("CodeAddress(");
        self.0.write_text(f);
        f.append(")");
    }
}

impl Text for DataAddress {
    open spec fn text(&self) -> Seq<char> {
        "DataAddress("@ + self.0.text() + ")"@
    }

    fn write_text(&self, f: &mut String) {
        f.append("DataAddress(");
        self.0.write_text(f);
        f.append(")");
    }
}

impl Text for EnvironmentStackAddress {
    open spec fn text(&self) -> Seq<char> {
        "EnvironmentStackAddress("@ + self.0.text() + ")"@
    }

    fn write_text(&self, f: &mut String) {
        f.append("EnvironmentStackAddress(");
        self.0.write_text(f);
        f.append(")");
    }
}

impl Text for ReturnStackAddress {
    open spec fn text(&self) -> Seq<char> {
        "ReturnStackAddress("@ + self.0.text() + ")"@
    }

    fn write_text(&self, f: &mut String) {
        f.append("ReturnStackAddress(");
        self.0.write_text(f);
        f.append(")");
    }
}

impl Text for DataStackAddress {
    open spec fn text(&self) -> Seq<char> {
        "DataStackAddress("@ + self.0.text() + ")"@
    }

    fn write_text(&self, f: &mut String) {
        f.append("DataStackAddress(");
        self.0.write_text(f);
        f.append(")");
    }
}

impl Text for EnvironmentStackRelativeAddress {
    open spec fn text(&self) -> Seq<char> {
        "EnvironmentStackRelativeAddress("@ + self.0.text() + ")"@
    }

    fn write_text(&self, f: &mut String) {
        f.append("EnvironmentStackRelativeAddress(");
        self.0.write_text(f);
        f.append(")");
    }
}

impl Text for CallFrame {
    open spec fn text(&self) -> Seq<char> {
        "CallFrame("@ + self.return_address.text() + ","@ + self.stack_address.text() + ")"@
    }

    fn write_text(&self, f: &mut String) {
        f.append("CallFrame(");
        self.return_address.write_text(f);
        f.append(",");
        self.stack_address.write_text(f);
        f.append(")");
    }
}

impl Text for LongJumpFrame {
    open spec fn text(&self) -> Seq<char> {
        "LongJumpFrame("@ + self.return_address.text() + ","@ + self.return_stack_address.text()
            + ","@ + self.env_stack_address.text() + ","@ + self.data_stack_address.text() + ")"@
    }

    fn write_text(&self, f: &mut String) {
        f.append("LongJumpFrame(");
        self.return_address.write_text(f);
        f.append(",");
        self.return_stack_address.write_text(f);
        f.append(",");
        self.env_stack_address.write_text(f);
        f.append(",");
        self.data_stack_address.write_text(f);
        f.append(")");
    }
}

impl<T: Text> Text for Value<T> {
    /// An integer, a string and a value of the host are written as they
    /// are; an address is written with its kind.
    open spec fn text(&self) -> Seq<char> {
        match self {
            Value::IntValue(v) => v.text(),
            Value::StrValue(v) => v.text(),
            Value::CodeAddress(v) => "Value("@ + v.text() + ")"@,
            Value::DataAddress(v) => "Value("@ + v.text() + ")"@,
            Value::EnvAddress(v) => "Value("@ + v.text() + ")"@,
            Value::ExtValue(v) => v.text(),
            Value::Empty => "Value(EMPTY)"@,
        }
    }

    fn write_text(&self, f: &mut String) {
        match self {
            Value::IntValue(v) => v.write_text(f),
            Value::StrValue(v) => v.write_text(f),
            Value::CodeAddress(v) => {
                f.append("Value(");
                v.write_text(f);
                f.append(")");
            },
            Value::DataAddress(v) => {
                f.append("Value(");
                v.write_text(f);
                f.append(")");
            },
            Value::EnvAddress(v) => {
                f.append("Value(");
                v.write_text(f);
                f.append(")");
            },
            Value::ExtValue(v) => v.write_text(f),
            Value::Empty => f.append("Value(EMPTY)"),
        }
    }
}

impl<T: Text> Text for Rc<Value<T>> {
    open spec fn text(&self) -> Seq<char> {
        (**self).text()
    }

    fn write_text(&self, f: &mut String) {
        (**self).write_text(f);
    }
}

impl Text for DebugLabel {
    open spec fn text(&self) -> Seq<char> {
        match self {
            DebugLabel::WordTerminator => "WordTerminator"@,
        }
    }

    fn write_text(&self, f: &mut String) {
        match self {
            DebugLabel::WordTerminator => f.append("WordTerminator"),
        }
    }
}

impl Text for TrapReason {
    open spec fn text(&self) -> Seq<char> {
        match self {
            TrapReason::DummyInstructionExecution => "DummyInstructionExecution"@,
            TrapReason::UserTrap => "UserTrap"@,
        }
    }

    fn write_text(&self, f: &mut String) {
        match self {
            TrapReason::DummyInstructionExecution => f.append("DummyInstructionExecution"),
            TrapReason::UserTrap => f.append("UserTrap"),
        }
    }
}

impl<T: Text, P> Text for Instruction<T, P> {
    /// An instruction is written with its name and, in brackets, what it
    /// holds; of a primitive nothing is written.
    open spec fn text(&self) -> Seq<char> {
        match self {
            Instruction::Push(a) => "Push("@ + a.text() + ")"@,
            Instruction::Call(a) => "Call("@ + a.text() + ")"@,
            Instruction::CallPrimitive(_) => "CallPrimitive(_)"@,
            Instruction::Return => "Return"@,
            Instruction::LocalRef(a) => "LocalRef("@ + a.text() + ")"@,
            Instruction::Nop => "Nop"@,
            Instruction::Trap(a) => "Trap("@ + a.text() + ")"@,
            Instruction::DebugLabel(a) => "DebugLabel("@ + a.text() + ")"@,
            Instruction::Branch(a) => "Branch("@ + a.text() + ")"@,
            Instruction::Jump(a) => "Jump("@ + a.text() + ")"@,
            Instruction::Exec => "Exec"@,
            Instruction::SetJump(a) => "SetJump("@ + a.text() + ")"@,
            Instruction::LongJump => "LongJump"@,
            Instruction::PopJump => "PopJump"@,
        }
    }

    fn write_text(&self, f: &mut String) {
        match self {
            Instruction::Push(a) => {
                f.append("Push(");
                a.write_text(f);
                f.append(")");
            },
            Instruction::Call(a) => {
                f.append("Call(");
                a.write_text(f);
                f.append(")");
            },
            Instruction::CallPrimitive(_) => f.append("CallPrimitive(_)"),
            Instruction::Return => f.append("Return"),
            Instruction::LocalRef(a) => {
                f.append("LocalRef(");
                a.write_text(f);
                f.append(")");
            },
            Instruction::Nop => f.append("Nop"),
            Instruction::Trap(a) => {
                f.append("Trap(");
                a.write_text(f);
                f.append(")");
            },
            Instruction::DebugLabel(a) => {
                f.append("DebugLabel(");
                a.write_text(f);
                f.append(")");
            },
            Instruction::Branch(a) => {
                f.append("Branch(");
                a.write_text(f);
                f.append(")");
            },
            Instruction::Jump(a) => {
                f.append("Jump(");
                a.write_text(f);
                f.append(")");
            },
            Instruction::Exec => f.append("Exec"),
            Instruction::SetJump(a) => {
                f.append("SetJump(");
                a.write_text(f);
                f.append(")");
            },
            Instruction::LongJump => f.append("LongJump"),
            Instruction::PopJump => f.append("PopJump"),
        }
    }
}

} // verus!
