//! Memory regions of the virtual machine.
//!
//! [`BufferMemory`] is a growable region that can be used as a stack and
//! addressed at random. The other types restrict it to one kind of element
//! and to the operations that make sense for one region of the machine.

use super::text::cells_text;
use super::text::write_cells;
use super::text::Text;
use super::value::share;
use super::value::AddressAccess;
use super::value::BufferAddressErrorReason;
use super::value::CallFrame;
use super::value::CodeAddress;
use super::value::Address;
use super::value::DataAddress;
use super::value::DataStackAddress;
use super::value::EnvironmentStackAddress;
use super::value::EnvironmentStackRelativeAddress;
use super::value::Instruction;
use super::value::LongJumpFrame;
use super::value::ReturnStackAddress;
use super::value::Value;
use std::rc::Rc;
use vstd::prelude::*;
use vstd::std_specs::convert::FromSpecImpl;
use vstd::string::StringExecFns;

verus! {

/// Why an access to a buffer failed.
#[derive(Debug, Clone, Copy, PartialEq, Eq, Structural)]
pub enum BufferErrorReason {
    /// An index at or beyond the size: `(size, index)`.
    OutOfRangeAccess(usize, usize),
    /// The buffer holds fewer cells than the operation takes.
    UnderflowAccessError,
    /// A rollback to beyond the size: `(size, wanted size)`.
    InvalidRollbackPosition(usize, usize),
}

/// The content of `s` after the cell `pos` below the top has been moved to
/// the top, the cells above it keeping their order.
pub open spec fn rolled<T>(s: Seq<T>, pos: int) -> Seq<T>
    recommends
        0 <= pos < s.len(),
{
    s.remove(s.len() - 1 - pos).push(s[s.len() - 1 - pos])
}

/// A growable region of cells. Its view is the sequence of its cells, the
/// top of the stack last.
pub struct BufferMemory<T> {
    buffer: Vec<T>,
}

impl<T> View for BufferMemory<T> {
    type V = Seq<T>;

    closed spec fn view(&self) -> Seq<T> {
        self.buffer@
    }
}

impl<T: Default + Clone> BufferMemory<T> {
    /// An empty region.
    pub fn new() -> (r: Self)
        ensures
            r@ == Seq::<T>::empty(),
    {
        BufferMemory { buffer: Vec::new() }
    }

    /// The index of the cell `pos` below the top.
    fn to_index(&self, pos: usize) -> (r: usize)
        requires
            pos < self@.len(),
        ensures
            r == self@.len() - pos - 1,
    {
        self.buffer.len() - pos - 1
    }

    /// A copy of the top cell.
    pub fn peek(&self) -> (r: Result<T, BufferErrorReason>)
        ensures
            match r {
                Ok(v) => self@.len() > 0 && cloned(self@.last(), v),
                Err(e) => self@.len() == 0 && e == BufferErrorReason::UnderflowAccessError,
            },
    {
        let n: usize = self.buffer.len();
        if n == 0 {
            Err(BufferErrorReason::UnderflowAccessError)
        } else {
            Ok(self.buffer[n - 1].clone())
        }
    }

    /// The top cell, borrowed.
    pub fn peek_ref(&self) -> (r: Result<&T, BufferErrorReason>)
        ensures
            match r {
                Ok(v) => self@.len() > 0 && *v == self@.last(),
                Err(e) => self@.len() == 0 && e == BufferErrorReason::UnderflowAccessError,
            },
    {
        let n: usize = self.buffer.len();
        if n == 0 {
            Err(BufferErrorReason::UnderflowAccessError)
        } else {
            Ok(&self.buffer[n - 1])
        }
    }

    /// Takes the top cell off.
    pub fn pop(&mut self) -> (r: Result<T, BufferErrorReason>)
        ensures
            match r {
                Ok(v) => old(self)@.len() > 0 && v == old(self)@.last()
                    && final(self)@ == old(self)@.drop_last(),
                Err(e) => old(self)@.len() == 0 && e == BufferErrorReason::UnderflowAccessError
                    && final(self)@ == old(self)@,
            },
    {
        match self.buffer.pop() {
            Some(v) => Ok(v),
            None => Err(BufferErrorReason::UnderflowAccessError),
        }
    }

    /// Pushes a copy of the cell `pos` below the top; `pick(0)` duplicates
    /// the top.
    pub fn pick(&mut self, pos: usize) -> (r: Result<(), BufferErrorReason>)
        ensures
            match r {
                Ok(_) => pos < old(self)@.len() && final(self)@.len() == old(self)@.len() + 1
                    && final(self)@.drop_last() == old(self)@ && cloned(
                    old(self)@[old(self)@.len() - 1 - pos],
                    final(self)@.last(),
                ),
                Err(e) => pos >= old(self)@.len() && e == BufferErrorReason::OutOfRangeAccess(
                    old(self)@.len() as usize,
                    pos,
                ) && final(self)@ == old(self)@,
            },
    {
        if pos < self.buffer.len() {
            let i: usize = self.to_index(pos);
            let v = self.buffer[i].clone();
            self.buffer.push(v);
            Ok(())
        } else {
            Err(BufferErrorReason::OutOfRangeAccess(self.buffer.len(), pos))
        }
    }

    /// Moves the cell `pos` below the top to the top; the others keep their
    /// order. `roll(0)` changes nothing and `roll(1)` swaps the top two.
    pub fn roll(&mut self, pos: usize) -> (r: Result<(), BufferErrorReason>)
        ensures
            match r {
                Ok(_) => pos < old(self)@.len() && final(self)@ == rolled(old(self)@, pos as int),
                Err(e) => pos >= old(self)@.len() && e == BufferErrorReason::OutOfRangeAccess(
                    old(self)@.len() as usize,
                    pos,
                ) && final(self)@ == old(self)@,
            },
    {
        if pos < self.buffer.len() {
            let i: usize = self.to_index(pos);
            let v = self.buffer.remove(i);
            self.buffer.push(v);
            Ok(())
        } else {
            Err(BufferErrorReason::OutOfRangeAccess(self.buffer.len(), pos))
        }
    }

    /// Drops `num` cells from the top and returns the size that is left.
    pub fn remove(&mut self, num: usize) -> (r: Result<usize, BufferErrorReason>)
        ensures
            match r {
                Ok(n) => num <= old(self)@.len() && n == old(self)@.len() - num && final(self)@
                    == old(self)@.take(old(self)@.len() - num),
                Err(e) => num > old(self)@.len() && e == BufferErrorReason::UnderflowAccessError
                    && final(self)@ == old(self)@,
            },
    {
        let n: usize = self.buffer.len();
        if num <= n {
            self.buffer.truncate(n - num);
            Ok(n - num)
        } else {
            Err(BufferErrorReason::UnderflowAccessError)
        }
    }

    /// Cuts the region down to `address` cells and returns how many were
    /// dropped. Rolling back to the present size changes nothing; rolling
    /// back to zero empties the region.
    pub fn rollback(&mut self, address: usize) -> (r: Result<usize, BufferErrorReason>)
        ensures
            match r {
                Ok(n) => address <= old(self)@.len() && n == old(self)@.len() - address
                    && final(self)@ == old(self)@.take(address as int),
                Err(e) => address > old(self)@.len() && e
                    == BufferErrorReason::InvalidRollbackPosition(
                    old(self)@.len() as usize,
                    address,
                ) && final(self)@ == old(self)@,
            },
            address == old(self)@.len() ==> r is Ok && final(self)@ == old(self)@,
            address == 0 ==> r is Ok && final(self)@.len() == 0,
    {
        let n: usize = self.buffer.len();
        if address <= n {
            self.buffer.truncate(address);
            Ok(n - address)
        } else {
            Err(BufferErrorReason::InvalidRollbackPosition(n, address))
        }
    }

    /// A copy of the cell at `address`.
    pub fn get(&self, address: usize) -> (r: Result<T, BufferErrorReason>)
        ensures
            match r {
                Ok(v) => address < self@.len() && cloned(self@[address as int], v),
                Err(e) => address >= self@.len() && e == BufferErrorReason::OutOfRangeAccess(
                    self@.len() as usize,
                    address,
                ),
            },
    {
        if address < self.buffer.len() {
            Ok(self.buffer[address].clone())
        } else {
            Err(BufferErrorReason::OutOfRangeAccess(self.buffer.len(), address))
        }
    }

    /// The cell at `address`, borrowed.
    pub fn get_ref(&self, address: usize) -> (r: Result<&T, BufferErrorReason>)
        ensures
            match r {
                Ok(v) => address < self@.len() && *v == self@[address as int],
                Err(e) => address >= self@.len() && e == BufferErrorReason::OutOfRangeAccess(
                    self@.len() as usize,
                    address,
                ),
            },
    {
        if address < self.buffer.len() {
            Ok(&self.buffer[address])
        } else {
            Err(BufferErrorReason::OutOfRangeAccess(self.buffer.len(), address))
        }
    }

    /// Stores `value` at `address` and returns what the cell held.
    pub fn set(&mut self, address: usize, value: T) -> (r: Result<T, BufferErrorReason>)
        ensures
            match r {
                Ok(v) => address < old(self)@.len() && v == old(self)@[address as int]
                    && final(self)@ == old(self)@.update(address as int, value),
                Err(e) => address >= old(self)@.len() && e == BufferErrorReason::OutOfRangeAccess(
                    old(self)@.len() as usize,
                    address,
                ) && final(self)@ == old(self)@,
            },
    {
        if address < self.buffer.len() {
            self.buffer.push(value);
            let v = self.buffer.swap_remove(address);
            Ok(v)
        } else {
            Err(BufferErrorReason::OutOfRangeAccess(self.buffer.len(), address))
        }
    }

    /// Appends a cell and returns the new size.
    pub fn push(&mut self, value: T) -> (r: usize)
        ensures
            final(self)@ == old(self)@.push(value),
            r == final(self)@.len(),
    {
        self.buffer.push(value);
        self.buffer.len()
    }

    /// Appends `size` cells holding the default value and returns the new
    /// size.
    pub fn allocate(&mut self, size: usize) -> (r: usize)
        requires
            old(self)@.len() + size <= usize::MAX,
        ensures
            r == old(self)@.len() + size,
            final(self)@.len() == r,
            final(self)@.take(old(self)@.len() as int) == old(self)@,
            forall|i: int|
                old(self)@.len() <= i < final(self)@.len() ==> T::default.ensures(
                    (),
                    #[trigger] final(self)@[i],
                ),
    {
        let mut k: usize = 0;
        while k < size
            invariant
                k <= size,
                old(self)@.len() + size <= usize::MAX,
                self@.len() == old(self)@.len() + k,
                self@.take(old(self)@.len() as int) == old(self)@,
                forall|i: int|
                    old(self)@.len() <= i < self@.len() ==> T::default.ensures(
                        (),
                        #[trigger] self@[i],
                    ),
            decreases size - k,
        {
            let v = T::default();
            self.buffer.push(v);
            k = k + 1;
        }
        self.buffer.len()
    }

    /// The size of the region.
    pub fn here(&self) -> (r: usize)
        ensures
            r == self@.len(),
    {
        self.buffer.len()
    }
}

/// Why an access to the code buffer failed.
#[derive(Debug, Clone, Copy, PartialEq, Eq, Structural)]
pub enum CodeBufferErrorReason {
    BufferAccessError(BufferErrorReason),
    BufferAddressError(BufferAddressErrorReason),
}

impl From<BufferErrorReason> for CodeBufferErrorReason {
    fn from(err: BufferErrorReason) -> (r: Self) {
        CodeBufferErrorReason::BufferAccessError(err)
    }
}

impl FromSpecImpl<BufferErrorReason> for CodeBufferErrorReason {
    open spec fn obeys_from_spec() -> bool {
        true
    }

    open spec fn from_spec(err: BufferErrorReason) -> Self {
        CodeBufferErrorReason::BufferAccessError(err)
    }
}

impl From<BufferAddressErrorReason> for CodeBufferErrorReason {
    fn from(err: BufferAddressErrorReason) -> (r: Self) {
        CodeBufferErrorReason::BufferAddressError(err)
    }
}

impl FromSpecImpl<BufferAddressErrorReason> for CodeBufferErrorReason {
    open spec fn obeys_from_spec() -> bool {
        true
    }

    open spec fn from_spec(err: BufferAddressErrorReason) -> Self {
        CodeBufferErrorReason::BufferAddressError(err)
    }
}

/// The instructions of all compiled words.
pub struct CodeBuffer<T, P>(BufferMemory<Instruction<T, P>>);

impl<T, P> View for CodeBuffer<T, P> {
    type V = Seq<Instruction<T, P>>;

    closed spec fn view(&self) -> Seq<Instruction<T, P>> {
        self.0@
    }
}

impl<T, P: Copy> CodeBuffer<T, P> {
    /// An empty region.
    pub fn new() -> (r: Self)
        ensures
            r@ == Seq::<Instruction<T, P>>::empty(),
    {
        CodeBuffer(BufferMemory::new())
    }

    /// The cell at `address`.
    pub fn get(&self, address: CodeAddress) -> (r: Result<Instruction<T, P>, CodeBufferErrorReason>)
        ensures
            match r {
                Ok(v) => address.0 matches Address::Entity(i) && i < self@.len() && v == self@[i as int],
                Err(e) => match address.0 {
                    Address::Root => e == CodeBufferErrorReason::BufferAddressError(
                        BufferAddressErrorReason::InvalidAddress,
                    ),
                    Address::Entity(i) => i >= self@.len() && e == CodeBufferErrorReason::BufferAccessError(
                        BufferErrorReason::OutOfRangeAccess(self@.len() as usize, i),
                    ),
                },
            },
    {
        match address.adr() {
            Ok(i) => match self.0.get_ref(i) {
                Ok(v) => Ok(v.clone()),
                Err(e) => Err(CodeBufferErrorReason::BufferAccessError(e)),
            },
            Err(e) => Err(CodeBufferErrorReason::BufferAddressError(e)),
        }
    }

    /// Stores `value` at `address` and returns what the cell held.
    pub fn set(&mut self, address: CodeAddress, value: Instruction<T, P>) -> (r: Result<Instruction<T, P>, CodeBufferErrorReason>)
        ensures
            match r {
                Ok(v) => address.0 matches Address::Entity(i) && i < old(self)@.len() && v == old(
                    self,
                )@[i as int] && final(self)@ == old(self)@.update(i as int, value),
                Err(e) => final(self)@ == old(self)@ && match address.0 {
                    Address::Root => e == CodeBufferErrorReason::BufferAddressError(
                        BufferAddressErrorReason::InvalidAddress,
                    ),
                    Address::Entity(i) => i >= old(self)@.len() && e == CodeBufferErrorReason::BufferAccessError(
                        BufferErrorReason::OutOfRangeAccess(old(self)@.len() as usize, i),
                    ),
                },
            },
    {
        match address.adr() {
            Ok(i) => match self.0.set(i, value) {
                Ok(v) => Ok(v),
                Err(e) => Err(CodeBufferErrorReason::BufferAccessError(e)),
            },
            Err(e) => Err(CodeBufferErrorReason::BufferAddressError(e)),
        }
    }

    /// Takes the top cell off.
    pub fn pop(&mut self) -> (r: Result<Instruction<T, P>, CodeBufferErrorReason>)
        ensures
            match r {
                Ok(v) => old(self)@.len() > 0 && v == old(self)@.last() && final(self)@ == old(
                    self,
                )@.drop_last(),
                Err(e) => old(self)@.len() == 0 && e == CodeBufferErrorReason::BufferAccessError(
                    BufferErrorReason::UnderflowAccessError,
                ) && final(self)@ == old(self)@,
            },
    {
        match self.0.pop() {
            Ok(v) => Ok(v),
            Err(e) => Err(CodeBufferErrorReason::BufferAccessError(e)),
        }
    }

    /// Appends a cell and returns the address behind it.
    pub fn push(&mut self, value: Instruction<T, P>) -> (r: CodeAddress)
        ensures
            final(self)@ == old(self)@.push(value),
            r == CodeAddress(Address::Entity(final(self)@.len() as usize)),
    {
        CodeAddress(Address::Entity(self.0.push(value)))
    }

    /// Appends `size` blank cells and returns the address behind them.
    pub fn allocate(&mut self, size: usize) -> (r: CodeAddress)
        requires
            old(self)@.len() + size <= usize::MAX,
        ensures
            final(self)@.len() == old(self)@.len() + size,
            final(self)@.take(old(self)@.len() as int) == old(self)@,
            forall|i: int|
                old(self)@.len() <= i < final(self)@.len() ==> (#[trigger] final(self)@[i]) is Nop,
            r == CodeAddress(Address::Entity(final(self)@.len() as usize)),
    {
        CodeAddress(Address::Entity(self.0.allocate(size)))
    }

    /// The size of the region.
    pub fn here(&self) -> (r: CodeAddress)
        ensures
            r == CodeAddress(Address::Entity(self@.len() as usize)),
            self@.len() <= usize::MAX,
    {
        CodeAddress(Address::Entity(self.0.here()))
    }
}

/// Why an access to the data buffer failed.
#[derive(Debug, Clone, Copy, PartialEq, Eq, Structural)]
pub enum DataBufferErrorReason {
    BufferAccessError(BufferErrorReason),
    BufferAddressError(BufferAddressErrorReason),
}

impl From<BufferErrorReason> for DataBufferErrorReason {
    fn from(err: BufferErrorReason) -> (r: Self) {
        DataBufferErrorReason::BufferAccessError(err)
    }
}

impl FromSpecImpl<BufferErrorReason> for DataBufferErrorReason {
    open spec fn obeys_from_spec() -> bool {
        true
    }

    open spec fn from_spec(err: BufferErrorReason) -> Self {
        DataBufferErrorReason::BufferAccessError(err)
    }
}

impl From<BufferAddressErrorReason> for DataBufferErrorReason {
    fn from(err: BufferAddressErrorReason) -> (r: Self) {
        DataBufferErrorReason::BufferAddressError(err)
    }
}

impl FromSpecImpl<BufferAddressErrorReason> for DataBufferErrorReason {
    open spec fn obeys_from_spec() -> bool {
        true
    }

    open spec fn from_spec(err: BufferAddressErrorReason) -> Self {
        DataBufferErrorReason::BufferAddressError(err)
    }
}

/// The cells that programs allot for their data.
pub struct DataBuffer<T>(BufferMemory<Rc<Value<T>>>);

impl<T> View for DataBuffer<T> {
    type V = Seq<Rc<Value<T>>>;

    closed spec fn view(&self) -> Seq<Rc<Value<T>>> {
        self.0@
    }
}

impl<T> DataBuffer<T> {
    /// An empty region.
    pub fn new() -> (r: Self)
        ensures
            r@ == Seq::<Rc<Value<T>>>::empty(),
    {
        DataBuffer(BufferMemory::new())
    }

    /// The cell at `address`.
    pub fn get(&self, address: DataAddress) -> (r: Result<Rc<Value<T>>, DataBufferErrorReason>)
        ensures
            match r {
                Ok(v) => address.0 matches Address::Entity(i) && i < self@.len() && v == self@[i as int],
                Err(e) => match address.0 {
                    Address::Root => e == DataBufferErrorReason::BufferAddressError(
                        BufferAddressErrorReason::InvalidAddress,
                    ),
                    Address::Entity(i) => i >= self@.len() && e == DataBufferErrorReason::BufferAccessError(
                        BufferErrorReason::OutOfRangeAccess(self@.len() as usize, i),
                    ),
                },
            },
    {
        match address.adr() {
            Ok(i) => match self.0.get_ref(i) {
                Ok(v) => Ok(share(v)),
                Err(e) => Err(DataBufferErrorReason::BufferAccessError(e)),
            },
            Err(e) => Err(DataBufferErrorReason::BufferAddressError(e)),
        }
    }

    /// Stores `value` at `address` and returns what the cell held.
    pub fn set(&mut self, address: DataAddress, value: Rc<Value<T>>) -> (r: Result<Rc<Value<T>>, DataBufferErrorReason>)
        ensures
            match r {
                Ok(v) => address.0 matches Address::Entity(i) && i < old(self)@.len() && v == old(
                    self,
                )@[i as int] && final(self)@ == old(self)@.update(i as int, value),
                Err(e) => final(self)@ == old(self)@ && match address.0 {
                    Address::Root => e == DataBufferErrorReason::BufferAddressError(
                        BufferAddressErrorReason::InvalidAddress,
                    ),
                    Address::Entity(i) => i >= old(self)@.len() && e == DataBufferErrorReason::BufferAccessError(
                        BufferErrorReason::OutOfRangeAccess(old(self)@.len() as usize, i),
                    ),
                },
            },
    {
        match address.adr() {
            Ok(i) => match self.0.set(i, value) {
                Ok(v) => Ok(v),
                Err(e) => Err(DataBufferErrorReason::BufferAccessError(e)),
            },
            Err(e) => Err(DataBufferErrorReason::BufferAddressError(e)),
        }
    }

    /// Appends a cell and returns the address behind it.
    pub fn push(&mut self, value: Rc<Value<T>>) -> (r: DataAddress)
        ensures
            final(self)@ == old(self)@.push(value),
            r == DataAddress(Address::Entity(final(self)@.len() as usize)),
    {
        DataAddress(Address::Entity(self.0.push(value)))
    }

    /// Appends `size` blank cells and returns the address behind them.
    pub fn allocate(&mut self, size: usize) -> (r: DataAddress)
        requires
            old(self)@.len() + size <= usize::MAX,
        ensures
            final(self)@.len() == old(self)@.len() + size,
            final(self)@.take(old(self)@.len() as int) == old(self)@,
            forall|i: int|
                old(self)@.len() <= i < final(self)@.len() ==> *(#[trigger] final(self)@[i]) is Empty,
            r == DataAddress(Address::Entity(final(self)@.len() as usize)),
    {
        DataAddress(Address::Entity(self.0.allocate(size)))
    }

    /// The size of the region.
    pub fn here(&self) -> (r: DataAddress)
        ensures
            r == DataAddress(Address::Entity(self@.len() as usize)),
            self@.len() <= usize::MAX,
    {
        DataAddress(Address::Entity(self.0.here()))
    }
}

/// Why an access to the data stack failed.
#[derive(Debug, Clone, Copy, PartialEq, Eq, Structural)]
pub enum DataStackErrorReason {
    BufferAccessError(BufferErrorReason),
}

impl From<BufferErrorReason> for DataStackErrorReason {
    fn from(err: BufferErrorReason) -> (r: Self) {
        DataStackErrorReason::BufferAccessError(err)
    }
}

impl FromSpecImpl<BufferErrorReason> for DataStackErrorReason {
    open spec fn obeys_from_spec() -> bool {
        true
    }

    open spec fn from_spec(err: BufferErrorReason) -> Self {
        DataStackErrorReason::BufferAccessError(err)
    }
}

/// The stack on which words pass values to each other.
pub struct DataStack<T>(BufferMemory<Rc<Value<T>>>);

impl<T> View for DataStack<T> {
    type V = Seq<Rc<Value<T>>>;

    closed spec fn view(&self) -> Seq<Rc<Value<T>>> {
        self.0@
    }
}

impl<T> DataStack<T> {
    /// An empty region.
    pub fn new() -> (r: Self)
        ensures
            r@ == Seq::<Rc<Value<T>>>::empty(),
    {
        DataStack(BufferMemory::new())
    }

    /// Puts `value` on top.
    pub fn push(&mut self, value: Rc<Value<T>>)
        ensures
            final(self)@ == old(self)@.push(value),
    {
        self.0.push(value);
    }

    /// The top cell.
    pub fn peek(&self) -> (r: Result<Rc<Value<T>>, DataStackErrorReason>)
        ensures
            match r {
                Ok(v) => self@.len() > 0 && v == self@.last(),
                Err(e) => self@.len() == 0 && e == DataStackErrorReason::BufferAccessError(
                    BufferErrorReason::UnderflowAccessError,
                ),
            },
    {
        match self.0.peek_ref() {
            Ok(v) => Ok(share(v)),
            Err(e) => Err(DataStackErrorReason::BufferAccessError(e)),
        }
    }

    /// Takes the top cell off.
    pub fn pop(&mut self) -> (r: Result<Rc<Value<T>>, DataStackErrorReason>)
        ensures
            match r {
                Ok(v) => old(self)@.len() > 0 && v == old(self)@.last() && final(self)@ == old(
                    self,
                )@.drop_last(),
                Err(e) => old(self)@.len() == 0 && e == DataStackErrorReason::BufferAccessError(
                    BufferErrorReason::UnderflowAccessError,
                ) && final(self)@ == old(self)@,
            },
    {
        match self.0.pop() {
            Ok(v) => Ok(v),
            Err(e) => Err(DataStackErrorReason::BufferAccessError(e)),
        }
    }

    /// Pushes the cell `pos` below the top once more; `pick(0)` duplicates
    /// the top.
    pub fn pick(&mut self, pos: usize) -> (r: Result<(), DataStackErrorReason>)
        ensures
            match r {
                Ok(_) => pos < old(self)@.len() && final(self)@ == old(self)@.push(
                    old(self)@[old(self)@.len() - 1 - pos],
                ),
                Err(e) => pos >= old(self)@.len() && e == DataStackErrorReason::BufferAccessError(
                    BufferErrorReason::OutOfRangeAccess(old(self)@.len() as usize, pos),
                ) && final(self)@ == old(self)@,
            },
    {
        let n: usize = self.0.here();
        if pos < n {
            match self.0.get_ref(n - 1 - pos) {
                Ok(v) => {
                    let copy = share(v);
                    self.0.push(copy);
                    Ok(())
                },
                Err(e) => Err(DataStackErrorReason::BufferAccessError(e)),
            }
        } else {
            Err(DataStackErrorReason::BufferAccessError(BufferErrorReason::OutOfRangeAccess(n, pos)))
        }
    }

    /// Moves the cell `pos` below the top to the top; the others keep their
    /// order.
    pub fn roll(&mut self, pos: usize) -> (r: Result<(), DataStackErrorReason>)
        ensures
            match r {
                Ok(_) => pos < old(self)@.len() && final(self)@ == rolled(old(self)@, pos as int),
                Err(e) => pos >= old(self)@.len() && e == DataStackErrorReason::BufferAccessError(
                    BufferErrorReason::OutOfRangeAccess(old(self)@.len() as usize, pos),
                ) && final(self)@ == old(self)@,
            },
    {
        match self.0.roll(pos) {
            Ok(_) => Ok(()),
            Err(e) => Err(DataStackErrorReason::BufferAccessError(e)),
        }
    }

    /// The size of the region.
    pub fn here(&self) -> (r: DataStackAddress)
        ensures
            r == DataStackAddress(self@.len() as usize),
            self@.len() <= usize::MAX,
    {
        DataStackAddress(self.0.here())
    }

    /// Cuts the region down to the depth `address`.
    pub fn rollback(&mut self, address: DataStackAddress) -> (r: Result<(), DataStackErrorReason>)
        ensures
            match r {
                Ok(_) => address.0 <= old(self)@.len() && final(self)@ == old(self)@.take(
                    address.0 as int,
                ),
                Err(e) => address.0 > old(self)@.len() && e == DataStackErrorReason::BufferAccessError(
                    BufferErrorReason::InvalidRollbackPosition(
                        old(self)@.len() as usize,
                        address.0,
                    ),
                ) && final(self)@ == old(self)@,
            },
    {
        match self.0.rollback(address.0) {
            Ok(_) => Ok(()),
            Err(e) => Err(DataStackErrorReason::BufferAccessError(e)),
        }
    }
}

/// Why an access to the control-flow stack failed.
#[derive(Debug, Clone, Copy, PartialEq, Eq, Structural)]
pub enum ControlflowStackErrorReason {
    BufferAccessError(BufferErrorReason),
}

impl From<BufferErrorReason> for ControlflowStackErrorReason {
    fn from(err: BufferErrorReason) -> (r: Self) {
        ControlflowStackErrorReason::BufferAccessError(err)
    }
}

impl FromSpecImpl<BufferErrorReason> for ControlflowStackErrorReason {
    open spec fn obeys_from_spec() -> bool {
        true
    }

    open spec fn from_spec(err: BufferErrorReason) -> Self {
        ControlflowStackErrorReason::BufferAccessError(err)
    }
}

/// The stack on which compiling words keep addresses still to be patched.
pub struct ControlflowStack<T>(BufferMemory<Rc<Value<T>>>);

impl<T> View for ControlflowStack<T> {
    type V = Seq<Rc<Value<T>>>;

    closed spec fn view(&self) -> Seq<Rc<Value<T>>> {
        self.0@
    }
}

impl<T> ControlflowStack<T> {
    /// An empty region.
    pub fn new() -> (r: Self)
        ensures
            r@ == Seq::<Rc<Value<T>>>::empty(),
    {
        ControlflowStack(BufferMemory::new())
    }

    /// Puts `value` on top.
    pub fn push(&mut self, value: Rc<Value<T>>)
        ensures
            final(self)@ == old(self)@.push(value),
    {
        self.0.push(value);
    }

    /// The top cell.
    pub fn peek(&self) -> (r: Result<Rc<Value<T>>, DataStackErrorReason>)
        ensures
            match r {
                Ok(v) => self@.len() > 0 && v == self@.last(),
                Err(e) => self@.len() == 0 && e == DataStackErrorReason::BufferAccessError(
                    BufferErrorReason::UnderflowAccessError,
                ),
            },
    {
        match self.0.peek_ref() {
            Ok(v) => Ok(share(v)),
            Err(e) => Err(DataStackErrorReason::BufferAccessError(e)),
        }
    }

    /// Takes the top cell off.
    pub fn pop(&mut self) -> (r: Result<Rc<Value<T>>, ControlflowStackErrorReason>)
        ensures
            match r {
                Ok(v) => old(self)@.len() > 0 && v == old(self)@.last() && final(self)@ == old(
                    self,
                )@.drop_last(),
                Err(e) => old(self)@.len() == 0 && e == ControlflowStackErrorReason::BufferAccessError(
                    BufferErrorReason::UnderflowAccessError,
                ) && final(self)@ == old(self)@,
            },
    {
        match self.0.pop() {
            Ok(v) => Ok(v),
            Err(e) => Err(ControlflowStackErrorReason::BufferAccessError(e)),
        }
    }

    /// Pushes the cell `pos` below the top once more; `pick(0)` duplicates
    /// the top.
    pub fn pick(&mut self, pos: usize) -> (r: Result<(), ControlflowStackErrorReason>)
        ensures
            match r {
                Ok(_) => pos < old(self)@.len() && final(self)@ == old(self)@.push(
                    old(self)@[old(self)@.len() - 1 - pos],
                ),
                Err(e) => pos >= old(self)@.len() && e == ControlflowStackErrorReason::BufferAccessError(
                    BufferErrorReason::OutOfRangeAccess(old(self)@.len() as usize, pos),
                ) && final(self)@ == old(self)@,
            },
    {
        let n: usize = self.0.here();
        if pos < n {
            match self.0.get_ref(n - 1 - pos) {
                Ok(v) => {
                    let copy = share(v);
                    self.0.push(copy);
                    Ok(())
                },
                Err(e) => Err(ControlflowStackErrorReason::BufferAccessError(e)),
            }
        } else {
            Err(ControlflowStackErrorReason::BufferAccessError(BufferErrorReason::OutOfRangeAccess(n, pos)))
        }
    }

    /// Moves the cell `pos` below the top to the top; the others keep their
    /// order.
    pub fn roll(&mut self, pos: usize) -> (r: Result<(), ControlflowStackErrorReason>)
        ensures
            match r {
                Ok(_) => pos < old(self)@.len() && final(self)@ == rolled(old(self)@, pos as int),
                Err(e) => pos >= old(self)@.len() && e == ControlflowStackErrorReason::BufferAccessError(
                    BufferErrorReason::OutOfRangeAccess(old(self)@.len() as usize, pos),
                ) && final(self)@ == old(self)@,
            },
    {
        match self.0.roll(pos) {
            Ok(_) => Ok(()),
            Err(e) => Err(ControlflowStackErrorReason::BufferAccessError(e)),
        }
    }

    /// The size of the region.
    pub fn here(&self) -> (r: usize)
        ensures
            r == self@.len() as usize,
            self@.len() <= usize::MAX,
    {
        self.0.here()
    }
}

/// Why an access to the environment stack failed.
#[derive(Debug, Clone, Copy, PartialEq, Eq, Structural)]
pub enum EnvironmentStackErrorReason {
    BufferAccessError(BufferErrorReason),
}

impl From<BufferErrorReason> for EnvironmentStackErrorReason {
    fn from(err: BufferErrorReason) -> (r: Self) {
        EnvironmentStackErrorReason::BufferAccessError(err)
    }
}

impl FromSpecImpl<BufferErrorReason> for EnvironmentStackErrorReason {
    open spec fn obeys_from_spec() -> bool {
        true
    }

    open spec fn from_spec(err: BufferErrorReason) -> Self {
        EnvironmentStackErrorReason::BufferAccessError(err)
    }
}

/// The stack that holds the local variables of the words being executed.
pub struct EnvironmentStack<T>(BufferMemory<Rc<Value<T>>>);

impl<T> View for EnvironmentStack<T> {
    type V = Seq<Rc<Value<T>>>;

    closed spec fn view(&self) -> Seq<Rc<Value<T>>> {
        self.0@
    }
}

impl<T> EnvironmentStack<T> {
    /// An empty region.
    pub fn new() -> (r: Self)
        ensures
            r@ == Seq::<Rc<Value<T>>>::empty(),
    {
        EnvironmentStack(BufferMemory::new())
    }

    /// Puts `value` on top.
    pub fn push(&mut self, value: Rc<Value<T>>)
        ensures
            final(self)@ == old(self)@.push(value),
    {
        self.0.push(value);
    }

    /// The top cell.
    pub fn peek(&self) -> (r: Result<Rc<Value<T>>, DataStackErrorReason>)
        ensures
            match r {
                Ok(v) => self@.len() > 0 && v == self@.last(),
                Err(e) => self@.len() == 0 && e == DataStackErrorReason::BufferAccessError(
                    BufferErrorReason::UnderflowAccessError,
                ),
            },
    {
        match self.0.peek_ref() {
            Ok(v) => Ok(share(v)),
            Err(e) => Err(DataStackErrorReason::BufferAccessError(e)),
        }
    }

    /// Takes the top cell off.
    pub fn pop(&mut self) -> (r: Result<Rc<Value<T>>, EnvironmentStackErrorReason>)
        ensures
            match r {
                Ok(v) => old(self)@.len() > 0 && v == old(self)@.last() && final(self)@ == old(
                    self,
                )@.drop_last(),
                Err(e) => old(self)@.len() == 0 && e == EnvironmentStackErrorReason::BufferAccessError(
                    BufferErrorReason::UnderflowAccessError,
                ) && final(self)@ == old(self)@,
            },
    {
        match self.0.pop() {
            Ok(v) => Ok(v),
            Err(e) => Err(EnvironmentStackErrorReason::BufferAccessError(e)),
        }
    }

    /// Pushes the cell `pos` below the top once more; `pick(0)` duplicates
    /// the top.
    pub fn pick(&mut self, pos: usize) -> (r: Result<(), EnvironmentStackErrorReason>)
        ensures
            match r {
                Ok(_) => pos < old(self)@.len() && final(self)@ == old(self)@.push(
                    old(self)@[old(self)@.len() - 1 - pos],
                ),
                Err(e) => pos >= old(self)@.len() && e == EnvironmentStackErrorReason::BufferAccessError(
                    BufferErrorReason::OutOfRangeAccess(old(self)@.len() as usize, pos),
                ) && final(self)@ == old(self)@,
            },
    {
        let n: usize = self.0.here();
        if pos < n {
            match self.0.get_ref(n - 1 - pos) {
                Ok(v) => {
                    let copy = share(v);
                    self.0.push(copy);
                    Ok(())
                },
                Err(e) => Err(EnvironmentStackErrorReason::BufferAccessError(e)),
            }
        } else {
            Err(EnvironmentStackErrorReason::BufferAccessError(BufferErrorReason::OutOfRangeAccess(n, pos)))
        }
    }

    /// Moves the cell `pos` below the top to the top; the others keep their
    /// order.
    pub fn roll(&mut self, pos: usize) -> (r: Result<(), EnvironmentStackErrorReason>)
        ensures
            match r {
                Ok(_) => pos < old(self)@.len() && final(self)@ == rolled(old(self)@, pos as int),
                Err(e) => pos >= old(self)@.len() && e == EnvironmentStackErrorReason::BufferAccessError(
                    BufferErrorReason::OutOfRangeAccess(old(self)@.len() as usize, pos),
                ) && final(self)@ == old(self)@,
            },
    {
        match self.0.roll(pos) {
            Ok(_) => Ok(()),
            Err(e) => Err(EnvironmentStackErrorReason::BufferAccessError(e)),
        }
    }

    /// Cuts the stack down to the depth `address` and returns how many cells
    /// were dropped.
    pub fn rollback(&mut self, address: EnvironmentStackAddress) -> (r: Result<
        EnvironmentStackAddress,
        EnvironmentStackErrorReason,
    >)
        ensures
            match r {
                Ok(n) => address.0 <= old(self)@.len() && n.0 == old(self)@.len() - address.0
                    && final(self)@ == old(self)@.take(address.0 as int),
                Err(e) => address.0 > old(self)@.len() && e
                    == EnvironmentStackErrorReason::BufferAccessError(
                    BufferErrorReason::InvalidRollbackPosition(
                        old(self)@.len() as usize,
                        address.0,
                    ),
                ) && final(self)@ == old(self)@,
            },
    {
        match self.0.rollback(address.0) {
            Ok(n) => Ok(EnvironmentStackAddress(n)),
            Err(e) => Err(EnvironmentStackErrorReason::BufferAccessError(e)),
        }
    }

    /// The size of the region.
    pub fn here(&self) -> (r: EnvironmentStackAddress)
        ensures
            r == EnvironmentStackAddress(self@.len() as usize),
            self@.len() <= usize::MAX,
    {
        EnvironmentStackAddress(self.0.here())
    }

    /// The index that `pos` designates in the environment that starts at
    /// `base`, or the largest index where the sum is beyond every index.
    pub open spec fn slot(base: EnvironmentStackAddress, pos: EnvironmentStackRelativeAddress) -> usize {
        if base.0 + pos.0 <= usize::MAX {
            (base.0 + pos.0) as usize
        } else {
            usize::MAX
        }
    }

    /// The cell `pos` of the environment that starts at `base`.
    pub fn get(&self, base: EnvironmentStackAddress, pos: EnvironmentStackRelativeAddress) -> (r:
        Result<Rc<Value<T>>, EnvironmentStackErrorReason>)
        ensures
            match r {
                Ok(v) => base.0 + pos.0 < self@.len() && v == self@[base.0 + pos.0],
                Err(e) => base.0 + pos.0 >= self@.len() && e
                    == EnvironmentStackErrorReason::BufferAccessError(
                    BufferErrorReason::OutOfRangeAccess(
                        self@.len() as usize,
                        Self::slot(base, pos),
                    ),
                ),
            },
    {
        let n: usize = self.0.here();
        let i: usize = base.0.saturating_add(pos.0);
        match self.0.get_ref(i) {
            Ok(v) => Ok(share(v)),
            Err(e) => Err(EnvironmentStackErrorReason::BufferAccessError(e)),
        }
    }

    /// Stores `value` in the cell `pos` of the environment that starts at
    /// `base` and returns what the cell held.
    pub fn set(
        &mut self,
        base: EnvironmentStackAddress,
        pos: EnvironmentStackRelativeAddress,
        value: Rc<Value<T>>,
    ) -> (r: Result<Rc<Value<T>>, EnvironmentStackErrorReason>)
        ensures
            match r {
                Ok(v) => base.0 + pos.0 < old(self)@.len() && v == old(self)@[base.0 + pos.0]
                    && final(self)@ == old(self)@.update(base.0 + pos.0, value),
                Err(e) => base.0 + pos.0 >= old(self)@.len() && e
                    == EnvironmentStackErrorReason::BufferAccessError(
                    BufferErrorReason::OutOfRangeAccess(
                        old(self)@.len() as usize,
                        Self::slot(base, pos),
                    ),
                ) && final(self)@ == old(self)@,
            },
    {
        let n: usize = self.0.here();
        let i: usize = base.0.saturating_add(pos.0);
        match self.0.set(i, value) {
            Ok(v) => Ok(v),
            Err(e) => Err(EnvironmentStackErrorReason::BufferAccessError(e)),
        }
    }
}

/// Why an access to the return stack failed.
#[derive(Debug, Clone, Copy, PartialEq, Eq, Structural)]
pub enum ReturnStackErrorReason {
    BufferAccessError(BufferErrorReason),
}

impl From<BufferErrorReason> for ReturnStackErrorReason {
    fn from(err: BufferErrorReason) -> (r: Self) {
        ReturnStackErrorReason::BufferAccessError(err)
    }
}

impl FromSpecImpl<BufferErrorReason> for ReturnStackErrorReason {
    open spec fn obeys_from_spec() -> bool {
        true
    }

    open spec fn from_spec(err: BufferErrorReason) -> Self {
        ReturnStackErrorReason::BufferAccessError(err)
    }
}

/// The stack of the calls that have not returned yet.
pub struct ReturnStack(BufferMemory<CallFrame>);

impl View for ReturnStack {
    type V = Seq<CallFrame>;

    closed spec fn view(&self) -> Seq<CallFrame> {
        self.0@
    }
}

impl ReturnStack {
    /// An empty region.
    pub fn new() -> (r: Self)
        ensures
            r@ == Seq::<CallFrame>::empty(),
    {
        ReturnStack(BufferMemory::new())
    }

    /// The top cell.
    pub fn peek(&self) -> (r: Result<CallFrame, ReturnStackErrorReason>)
        ensures
            match r {
                Ok(v) => self@.len() > 0 && v == self@.last(),
                Err(e) => self@.len() == 0 && e == ReturnStackErrorReason::BufferAccessError(
                    BufferErrorReason::UnderflowAccessError,
                ),
            },
    {
        match self.0.peek_ref() {
            Ok(v) => Ok(*v),
            Err(e) => Err(ReturnStackErrorReason::BufferAccessError(e)),
        }
    }

    /// Puts the frame of a call on top.
    pub fn push(&mut self, return_address: CodeAddress, stack_address: EnvironmentStackAddress)
        ensures
            final(self)@ == old(self)@.push(CallFrame { return_address, stack_address }),
    {
        self.0.push(CallFrame::new(return_address, stack_address));
    }

    /// Takes the top cell off.
    pub fn pop(&mut self) -> (r: Result<CallFrame, ReturnStackErrorReason>)
        ensures
            match r {
                Ok(v) => old(self)@.len() > 0 && v == old(self)@.last() && final(self)@ == old(
                    self,
                )@.drop_last(),
                Err(e) => old(self)@.len() == 0 && e == ReturnStackErrorReason::BufferAccessError(
                    BufferErrorReason::UnderflowAccessError,
                ) && final(self)@ == old(self)@,
            },
    {
        match self.0.pop() {
            Ok(v) => Ok(v),
            Err(e) => Err(ReturnStackErrorReason::BufferAccessError(e)),
        }
    }

    /// The size of the region.
    pub fn here(&self) -> (r: ReturnStackAddress)
        ensures
            r == ReturnStackAddress(self@.len() as usize),
            self@.len() <= usize::MAX,
    {
        ReturnStackAddress(self.0.here())
    }

    /// The cell at the depth `address`.
    pub fn get(&self, address: ReturnStackAddress) -> (r: Result<CallFrame, ReturnStackErrorReason>)
        ensures
            match r {
                Ok(v) => address.0 < self@.len() && v == self@[address.0 as int],
                Err(e) => address.0 >= self@.len() && e == ReturnStackErrorReason::BufferAccessError(
                    BufferErrorReason::OutOfRangeAccess(self@.len() as usize, address.0),
                ),
            },
    {
        match self.0.get_ref(address.0) {
            Ok(v) => Ok(*v),
            Err(e) => Err(ReturnStackErrorReason::BufferAccessError(e)),
        }
    }

    /// Cuts the region down to the depth `address`.
    pub fn rollback(&mut self, address: ReturnStackAddress) -> (r: Result<(), ReturnStackErrorReason>)
        ensures
            match r {
                Ok(_) => address.0 <= old(self)@.len() && final(self)@ == old(self)@.take(
                    address.0 as int,
                ),
                Err(e) => address.0 > old(self)@.len() && e == ReturnStackErrorReason::BufferAccessError(
                    BufferErrorReason::InvalidRollbackPosition(
                        old(self)@.len() as usize,
                        address.0,
                    ),
                ) && final(self)@ == old(self)@,
            },
    {
        match self.0.rollback(address.0) {
            Ok(_) => Ok(()),
            Err(e) => Err(ReturnStackErrorReason::BufferAccessError(e)),
        }
    }
}

/// Why an access to the long-jump stack failed.
#[derive(Debug, Clone, Copy, PartialEq, Eq, Structural)]
pub enum LongJumpStackErrorReason {
    BufferAccessError(BufferErrorReason),
}

impl From<BufferErrorReason> for LongJumpStackErrorReason {
    fn from(err: BufferErrorReason) -> (r: Self) {
        LongJumpStackErrorReason::BufferAccessError(err)
    }
}

impl FromSpecImpl<BufferErrorReason> for LongJumpStackErrorReason {
    open spec fn obeys_from_spec() -> bool {
        true
    }

    open spec fn from_spec(err: BufferErrorReason) -> Self {
        LongJumpStackErrorReason::BufferAccessError(err)
    }
}

/// The stack of the targets that a long jump can unwind to.
pub struct LongJumpStack(BufferMemory<LongJumpFrame>);

impl View for LongJumpStack {
    type V = Seq<LongJumpFrame>;

    closed spec fn view(&self) -> Seq<LongJumpFrame> {
        self.0@
    }
}

impl LongJumpStack {
    /// An empty region.
    pub fn new() -> (r: Self)
        ensures
            r@ == Seq::<LongJumpFrame>::empty(),
    {
        LongJumpStack(BufferMemory::new())
    }

    /// The top cell.
    pub fn peek(&self) -> (r: Result<LongJumpFrame, LongJumpStackErrorReason>)
        ensures
            match r {
                Ok(v) => self@.len() > 0 && v == self@.last(),
                Err(e) => self@.len() == 0 && e == LongJumpStackErrorReason::BufferAccessError(
                    BufferErrorReason::UnderflowAccessError,
                ),
            },
    {
        match self.0.peek_ref() {
            Ok(v) => Ok(*v),
            Err(e) => Err(LongJumpStackErrorReason::BufferAccessError(e)),
        }
    }

    /// Puts a target on top.
    pub fn push(
        &mut self,
        return_address: CodeAddress,
        return_stack_address: ReturnStackAddress,
        env_stack_address: EnvironmentStackAddress,
        data_stack_address: DataStackAddress,
    )
        ensures
            final(self)@ == old(self)@.push(
                LongJumpFrame {
                    return_address,
                    return_stack_address,
                    env_stack_address,
                    data_stack_address,
                },
            ),
    {
        self.0.push(
            LongJumpFrame::new(
                return_address,
                return_stack_address,
                env_stack_address,
                data_stack_address,
            ),
        );
    }

    /// Takes the top cell off.
    pub fn pop(&mut self) -> (r: Result<LongJumpFrame, LongJumpStackErrorReason>)
        ensures
            match r {
                Ok(v) => old(self)@.len() > 0 && v == old(self)@.last() && final(self)@ == old(
                    self,
                )@.drop_last(),
                Err(e) => old(self)@.len() == 0 && e == LongJumpStackErrorReason::BufferAccessError(
                    BufferErrorReason::UnderflowAccessError,
                ) && final(self)@ == old(self)@,
            },
    {
        match self.0.pop() {
            Ok(v) => Ok(v),
            Err(e) => Err(LongJumpStackErrorReason::BufferAccessError(e)),
        }
    }

    /// The size of the region.
    pub fn here(&self) -> (r: usize)
        ensures
            r == self@.len() as usize,
            self@.len() <= usize::MAX,
    {
        self.0.here()
    }

    /// The cell at the depth `address`.
    pub fn get(&self, address: ReturnStackAddress) -> (r: Result<LongJumpFrame, LongJumpStackErrorReason>)
        ensures
            match r {
                Ok(v) => address.0 < self@.len() && v == self@[address.0 as int],
                Err(e) => address.0 >= self@.len() && e == LongJumpStackErrorReason::BufferAccessError(
                    BufferErrorReason::OutOfRangeAccess(self@.len() as usize, address.0),
                ),
            },
    {
        match self.0.get_ref(address.0) {
            Ok(v) => Ok(*v),
            Err(e) => Err(LongJumpStackErrorReason::BufferAccessError(e)),
        }
    }

    /// Cuts the region down to the depth `address`.
    pub fn rollback(&mut self, address: ReturnStackAddress) -> (r: Result<(), LongJumpStackErrorReason>)
        ensures
            match r {
                Ok(_) => address.0 <= old(self)@.len() && final(self)@ == old(self)@.take(
                    address.0 as int,
                ),
                Err(e) => address.0 > old(self)@.len() && e == LongJumpStackErrorReason::BufferAccessError(
                    BufferErrorReason::InvalidRollbackPosition(
                        old(self)@.len() as usize,
                        address.0,
                    ),
                ) && final(self)@ == old(self)@,
            },
    {
        match self.0.rollback(address.0) {
            Ok(_) => Ok(()),
            Err(e) => Err(LongJumpStackErrorReason::BufferAccessError(e)),
        }
    }
}

/// The content of `s` after `k` rolls of the cell `pos` below the top.
pub open spec fn rolled_times<T>(s: Seq<T>, pos: int, k: nat) -> Seq<T>
    decreases k,
{
    if k == 0 {
        s
    } else {
        rolled(rolled_times(s, pos, (k - 1) as nat), pos)
    }
}

/// `s` with its top `pos + 1` cells rotated by `k` places towards the bottom
/// of that block.
spec fn rotated<T>(s: Seq<T>, pos: int, k: int) -> Seq<T> {
    Seq::new(
        s.len(),
        |i: int|
            if i < s.len() - 1 - pos {
                s[i]
            } else {
                s[s.len() - 1 - pos + (i - (s.len() - 1 - pos) + k) % (pos + 1)]
            },
    )
}

proof fn rolled_times_is_rotation<T>(s: Seq<T>, pos: int, k: nat)
    requires
        0 <= pos < s.len(),
    ensures
        rolled_times(s, pos, k) == rotated(s, pos, k as int),
    decreases k,
{
    let base = s.len() - 1 - pos;
    let m = pos + 1;
    if k == 0 {
        assert forall|i: int| 0 <= i < s.len() implies rotated(s, pos, 0)[i] == s[i] by {
            if i >= base {
                vstd::arithmetic::div_mod::lemma_small_mod((i - base) as nat, m as nat);
            }
        }
    } else {
        rolled_times_is_rotation(s, pos, (k - 1) as nat);
        let r = rotated(s, pos, k - 1);
        let t = rolled(r, pos);
        assert forall|i: int| 0 <= i < s.len() implies t[i] == rotated(s, pos, k as int)[i] by {
            if i == s.len() - 1 {
                vstd::arithmetic::div_mod::lemma_mod_add_multiples_vanish(k - 1, m);
            }
        }
    }
}

/// Taking off what was just put on restores the content.
pub proof fn push_then_pop_restores<T>(s: Seq<T>, v: T)
    ensures
        s.push(v).last() == v,
        s.push(v).drop_last() == s,
        s.push(v).len() == s.len() + 1,
{
}

/// Taking off the copy that `pick` made restores the content.
pub proof fn pick_then_pop_restores<T>(s: Seq<T>, pos: int)
    requires
        0 <= pos < s.len(),
    ensures
        s.push(s[s.len() - 1 - pos]).drop_last() == s,
{
}

/// A roll keeps the size, and `pos + 1` rolls of the cell `pos` below the
/// top restore the content: the block of `pos + 1` cells has gone round
/// once.
pub proof fn roll_full_cycle_restores<T>(s: Seq<T>, pos: int)
    requires
        0 <= pos < s.len(),
    ensures
        rolled(s, pos).len() == s.len(),
        rolled_times(s, pos, (pos + 1) as nat) == s,
{
    let base = s.len() - 1 - pos;
    let m = pos + 1;
    rolled_times_is_rotation(s, pos, m as nat);
    assert forall|i: int| 0 <= i < s.len() implies rotated(s, pos, m)[i] == s[i] by {
        if i >= base {
            vstd::arithmetic::div_mod::lemma_mod_add_multiples_vanish(i - base, m);
            vstd::arithmetic::div_mod::lemma_small_mod((i - base) as nat, m as nat);
        }
    }
}

/// Rolling twice is the identity for `pos` 0 and 1. For a larger `pos` it is
/// not: the cell that ends up at the bottom of the block is the one that was
/// two places above it, so the content differs wherever those two differ.
pub proof fn roll_twice<T>(s: Seq<T>, pos: int)
    requires
        0 <= pos < s.len(),
    ensures
        pos <= 1 ==> rolled(rolled(s, pos), pos) == s,
        pos >= 2 ==> rolled(rolled(s, pos), pos)[s.len() - 1 - pos] == s[s.len() + 1 - pos],
        pos >= 2 && s[s.len() - 1 - pos] != s[s.len() + 1 - pos] ==> rolled(rolled(s, pos), pos)
            != s,
{
}

impl<T: Text> Text for BufferMemory<T> {
    /// A line for each cell, the lowest first, between a line that opens
    /// the list and one that closes it and says where the top is.
    open spec fn text(&self) -> Seq<char> {
        "[\n"@ + cells_text(self@) + "]<-StackTop\n"@
    }

    fn write_text(&self, f: &mut String) {
        f.append("[\n");
        write_cells(&self.buffer, f);
        f.append("]<-StackTop\n");
        assert(f@ =~= old(f)@ + self.text());
    }
}

impl<T: Text, P> Text for CodeBuffer<T, P> {
    /// The name of the region, and then its cells.
    open spec fn text(&self) -> Seq<char> {
        "CodeBuffer[\n"@ + cells_text(self@) + "]<-StackTop\n"@
    }

    fn write_text(&self, f: &mut String) {
        f.append("CodeBuffer");
        self.0.write_text(f);
        proof {
            reveal_strlit("CodeBuffer");
            reveal_strlit("[\n");
            reveal_strlit("CodeBuffer[\n");
        }
    }
}

impl<T: Text> Text for DataBuffer<T> {
    /// The name of the region, and then its cells.
    open spec fn text(&self) -> Seq<char> {
        "DataBuffer[\n"@ + cells_text(self@) + "]<-StackTop\n"@
    }

    fn write_text(&self, f: &mut String) {
        f.append("DataBuffer");
        self.0.write_text(f);
        proof {
            reveal_strlit("DataBuffer");
            reveal_strlit("[\n");
            reveal_strlit("DataBuffer[\n");
        }
    }
}

impl<T: Text> Text for DataStack<T> {
    /// The name of the region, and then its cells.
    open spec fn text(&self) -> Seq<char> {
        "DataStack[\n"@ + cells_text(self@) + "]<-StackTop\n"@
    }

    fn write_text(&self, f: &mut String) {
        f.append("DataStack");
        self.0.write_text(f);
        proof {
            reveal_strlit("DataStack");
            reveal_strlit("[\n");
            reveal_strlit("DataStack[\n");
        }
    }
}

impl<T: Text> Text for ControlflowStack<T> {
    /// The name of the region, and then its cells.
    open spec fn text(&self) -> Seq<char> {
        "ControlflowStack[\n"@ + cells_text(self@) + "]<-StackTop\n"@
    }

    fn write_text(&self, f: &mut String) {
        f.append("ControlflowStack");
        self.0.write_text(f);
        proof {
            reveal_strlit("ControlflowStack");
            reveal_strlit("[\n");
            reveal_strlit("ControlflowStack[\n");
        }
    }
}

impl<T: Text> Text for EnvironmentStack<T> {
    /// The name of the region, and then its cells.
    open spec fn text(&self) -> Seq<char> {
        "EnvironmentStack[\n"@ + cells_text(self@) + "]<-StackTop\n"@
    }

    fn write_text(&self, f: &mut String) {
        f.append("EnvironmentStack");
        self.0.write_text(f);
        proof {
            reveal_strlit("EnvironmentStack");
            reveal_strlit("[\n");
            reveal_strlit("EnvironmentStack[\n");
        }
    }
}

impl Text for ReturnStack {
    /// The name of the region, and then its cells.
    open spec fn text(&self) -> Seq<char> {
        "ReturnStack[\n"@ + cells_text(self@) + "]<-StackTop\n"@
    }

    fn write_text(&self, f: &mut String) {
        f.append("ReturnStack");
        self.0.write_text(f);
        proof {
            reveal_strlit("ReturnStack");
            reveal_strlit("[\n");
            reveal_strlit("ReturnStack[\n");
        }
    }
}

impl Text for LongJumpStack {
    /// The name of the region, and then its cells.
    open spec fn text(&self) -> Seq<char> {
        "LongJumpStack[\n"@ + cells_text(self@) + "]<-StackTop\n"@
    }

    fn write_text(&self, f: &mut String) {
        f.append("LongJumpStack");
        self.0.write_text(f);
        proof {
            reveal_strlit("LongJumpStack");
            reveal_strlit("[\n");
            reveal_strlit("LongJumpStack[\n");
        }
    }
}

} // verus!
