//! A register block instance: a base-address capability, and the accessor
//! that a binding yields at that base.
use vstd::prelude::*;
use crate::accessor::{RC, RO, RW, RegisterValue, WC, WO};
use crate::address::BaseAddress;
use crate::generate::AccessorBinding;
use crate::mode::AccessMode;

verus! {

/// A register block over the base address that `B` yields.
pub struct RegisterBlock<B: BaseAddress> {
    base: B,
}

impl<B: BaseAddress> View for RegisterBlock<B> {
    type V = usize;

    /// The block's absolute base address.
    closed spec fn view(&self) -> usize {
        self.base.spec_base_address()
    }
}

/// An accessor of one of the five kinds.
pub enum Accessor<T> {
    ReadWrite(RW<T>),
    ReadOnly(RO<T>),
    WriteOnly(WO<T>),
    WriteClear(WC<T>),
    ReadClear(RC<T>),
}

impl<T> Accessor<T> {
    /// The access mode of the accessor's kind.
    pub open spec fn mode(&self) -> AccessMode {
        match self {
            Accessor::ReadWrite(_) => AccessMode::ReadWrite,
            Accessor::ReadOnly(_) => AccessMode::ReadOnly,
            Accessor::WriteOnly(_) => AccessMode::WriteOnly,
            Accessor::WriteClear(_) => AccessMode::WriteClear,
            Accessor::ReadClear(_) => AccessMode::ReadClear,
        }
    }

    /// The absolute address the accessor is bound to.
    pub open spec fn address(&self) -> usize {
        match self {
            Accessor::ReadWrite(a) => a@,
            Accessor::ReadOnly(a) => a@,
            Accessor::WriteOnly(a) => a@,
            Accessor::WriteClear(a) => a@,
            Accessor::ReadClear(a) => a@,
        }
    }
}

impl<B: BaseAddress> RegisterBlock<B> {
    pub fn new(base: B) -> (r: Self)
        ensures
            r@ == base.spec_base_address(),
    {
        RegisterBlock { base }
    }

    /// The base-address capability the block was made with.
    pub fn base(&self) -> (r: B)
        ensures
            r.spec_base_address() == self@,
    {
        self.base
    }

    /// The absolute address of the register at `offset`.
    pub fn address_of(&self, offset: u32) -> (r: usize)
        requires
            self@ + offset <= usize::MAX,
        ensures
            r == self@ + offset,
    {
        self.base.base_address() + offset as usize
    }

    /// The accessor for `binding` in this block: of the kind that matches the
    /// binding's mode, bound to the base address plus the binding's offset.
    pub fn accessor<T: RegisterValue>(&self, binding: &AccessorBinding) -> (r: Accessor<T>)
        requires
            self@ + binding.offset <= usize::MAX,
        ensures
            r.mode() == binding.mode,
            r.address() == self@ + binding.offset,
    {
        let address = self.address_of(binding.offset);
        match binding.mode {
            AccessMode::ReadWrite => Accessor::ReadWrite(RW::new(address)),
            AccessMode::ReadOnly => Accessor::ReadOnly(RO::new(address)),
            AccessMode::WriteOnly => Accessor::WriteOnly(WO::new(address)),
            AccessMode::WriteClear => Accessor::WriteClear(WC::new(address)),
            AccessMode::ReadClear => Accessor::ReadClear(RC::new(address)),
        }
    }
}

} // verus!
