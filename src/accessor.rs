//! The five accessor kinds, one per access mode, acting on a simulated
//! register file.
use vstd::prelude::*;
use std::collections::HashMap;
use core::marker::PhantomData;

verus! {

broadcast use vstd::std_specs::hash::group_hash_axioms;

/// A register value type: a copyable value with a zero.
pub trait RegisterValue: Copy {
    /// The value a cleared register holds.
    spec fn zero_value() -> Self;

    fn zero() -> (r: Self)
        ensures
            r == Self::zero_value(),
    ;
}

impl RegisterValue for u8 {
    open spec fn zero_value() -> u8 {
        0
    }

    fn zero() -> (r: u8) {
        0
    }
}

impl RegisterValue for u16 {
    open spec fn zero_value() -> u16 {
        0
    }

    fn zero() -> (r: u16) {
        0
    }
}

impl RegisterValue for u32 {
    open spec fn zero_value() -> u32 {
        0
    }

    fn zero() -> (r: u32) {
        0
    }
}

impl RegisterValue for u64 {
    open spec fn zero_value() -> u64 {
        0
    }

    fn zero() -> (r: u64) {
        0
    }
}

impl RegisterValue for usize {
    open spec fn zero_value() -> usize {
        0
    }

    fn zero() -> (r: usize) {
        0
    }
}

/// A simulated bank of memory-mapped registers of one value type. Its view
/// maps each address that has been stored to its value; every other address
/// holds zero.
pub struct RegisterFile<T> {
    cells: HashMap<usize, T>,
}

impl<T> View for RegisterFile<T> {
    type V = Map<usize, T>;

    closed spec fn view(&self) -> Map<usize, T> {
        self.cells@
    }
}

impl<T: RegisterValue> RegisterFile<T> {
    /// The value held at `address`.
    pub open spec fn cell(&self, address: usize) -> T {
        if self@.contains_key(address) {
            self@[address]
        } else {
            T::zero_value()
        }
    }

    /// A register file in which every register holds zero.
    pub fn new() -> (r: Self)
        ensures
            r@ == Map::<usize, T>::empty(),
    {
        RegisterFile { cells: HashMap::new() }
    }

    /// Reads the register at `address`.
    pub fn load(&self, address: usize) -> (r: T)
        ensures
            r == self.cell(address),
    {
        match self.cells.get(&address) {
            Some(v) => *v,
            None => T::zero(),
        }
    }

    /// Sets the register at `address` to `value`.
    pub fn store(&mut self, address: usize, value: T)
        ensures
            final(self)@ == old(self)@.insert(address, value),
    {
        self.cells.insert(address, value);
    }
}

/// A register that can only be read.
pub struct RO<T> {
    address: usize,
    value: PhantomData<T>,
}

/// A register that can only be written.
pub struct WO<T> {
    address: usize,
    value: PhantomData<T>,
}

/// A register that can be read and written.
pub struct RW<T> {
    address: usize,
    value: PhantomData<T>,
}

/// A register that is cleared by writing to it.
pub struct WC<T> {
    address: usize,
    value: PhantomData<T>,
}

/// A register that can be read, and is cleared by reading it.
pub struct RC<T> {
    address: usize,
    value: PhantomData<T>,
}

impl<T> View for RO<T> {
    type V = usize;

    closed spec fn view(&self) -> usize {
        self.address
    }
}

impl<T> View for WO<T> {
    type V = usize;

    closed spec fn view(&self) -> usize {
        self.address
    }
}

impl<T> View for RW<T> {
    type V = usize;

    closed spec fn view(&self) -> usize {
        self.address
    }
}

impl<T> View for WC<T> {
    type V = usize;

    closed spec fn view(&self) -> usize {
        self.address
    }
}

impl<T> View for RC<T> {
    type V = usize;

    closed spec fn view(&self) -> usize {
        self.address
    }
}

impl<T: RegisterValue> RO<T> {
    /// An accessor bound to the absolute address `address`.
    pub fn new(address: usize) -> (r: Self)
        ensures
            r@ == address,
    {
        RO { address, value: PhantomData }
    }

    pub fn read(&self, mem: &RegisterFile<T>) -> (r: T)
        ensures
            r == mem.cell(self@),
    {
        mem.load(self.address)
    }
}

impl<T: RegisterValue> WO<T> {
    /// An accessor bound to the absolute address `address`.
    pub fn new(address: usize) -> (r: Self)
        ensures
            r@ == address,
    {
        WO { address, value: PhantomData }
    }

    pub fn write(&self, mem: &mut RegisterFile<T>, value: T)
        ensures
            final(mem)@ == old(mem)@.insert(self@, value),
    {
        mem.store(self.address, value);
    }
}

impl<T: RegisterValue> RW<T> {
    /// An accessor bound to the absolute address `address`.
    pub fn new(address: usize) -> (r: Self)
        ensures
            r@ == address,
    {
        RW { address, value: PhantomData }
    }

    pub fn read(&self, mem: &RegisterFile<T>) -> (r: T)
        ensures
            r == mem.cell(self@),
    {
        mem.load(self.address)
    }

    pub fn write(&self, mem: &mut RegisterFile<T>, value: T)
        ensures
            final(mem)@ == old(mem)@.insert(self@, value),
    {
        mem.store(self.address, value);
    }

    /// Reads the register, applies `f`, and writes the result back. This is
    /// a plain read followed by a write, not an atomic update.
    pub fn modify<F: FnOnce(T) -> T>(&self, mem: &mut RegisterFile<T>, f: F)
        requires
            f.requires((old(mem).cell(self@),)),
        ensures
            f.ensures((old(mem).cell(self@),), final(mem).cell(self@)),
            final(mem)@ == old(mem)@.insert(self@, final(mem).cell(self@)),
    {
        let v = self.read(mem);
        let w = f(v);
        self.write(mem, w);
    }
}

impl<T: RegisterValue> WC<T> {
    /// An accessor bound to the absolute address `address`.
    pub fn new(address: usize) -> (r: Self)
        ensures
            r@ == address,
    {
        WC { address, value: PhantomData }
    }

    /// Writes the zero value, which clears the register.
    pub fn clear(&self, mem: &mut RegisterFile<T>)
        ensures
            final(mem)@ == old(mem)@.insert(self@, T::zero_value()),
    {
        mem.store(self.address, T::zero());
    }
}

impl<T: RegisterValue> RC<T> {
    /// An accessor bound to the absolute address `address`.
    pub fn new(address: usize) -> (r: Self)
        ensures
            r@ == address,
    {
        RC { address, value: PhantomData }
    }

    /// Returns the register's value; the read resets the register to zero.
    pub fn read(&self, mem: &mut RegisterFile<T>) -> (r: T)
        ensures
            r == old(mem).cell(self@),
            final(mem)@ == old(mem)@.insert(self@, T::zero_value()),
    {
        let v = mem.load(self.address);
        mem.store(self.address, T::zero());
        v
    }
}

} // verus!

verus! {

/// Reading a read-write register right after writing `value` to it returns
/// `value`, and the write leaves every other register as it was.
pub proof fn lemma_write_read_round_trip<T: RegisterValue>(
    reg: RW<T>,
    before: RegisterFile<T>,
    after: RegisterFile<T>,
    value: T,
)
    requires
        after@ == before@.insert(reg@, value),
    ensures
        after.cell(reg@) == value,
        forall|a: usize| a != reg@ ==> #[trigger] after.cell(a) == before.cell(a),
{
}

/// Clearing a write-to-clear register leaves it at the zero value, whatever
/// it held before, and leaves every other register as it was.
pub proof fn lemma_clear_zeroes<T: RegisterValue>(
    reg: WC<T>,
    before: RegisterFile<T>,
    after: RegisterFile<T>,
)
    requires
        after@ == before@.insert(reg@, T::zero_value()),
    ensures
        after.cell(reg@) == T::zero_value(),
        forall|a: usize| a != reg@ ==> #[trigger] after.cell(a) == before.cell(a),
{
}

} // verus!
