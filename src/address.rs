//! The capability that yields a register block's base address.
use vstd::prelude::*;

verus! {

/// A copyable value that yields the absolute base address of a register
/// block.
pub trait BaseAddress: Copy {
    /// The address that [`BaseAddress::base_address`] returns.
    spec fn spec_base_address(self) -> usize;

    fn base_address(self) -> (r: usize)
        ensures
            r == self.spec_base_address(),
    ;
}

/// A base address computed at run time: the value itself.
impl BaseAddress for usize {
    open spec fn spec_base_address(self) -> usize {
        self
    }

    fn base_address(self) -> (r: usize) {
        self
    }
}

/// A base address fixed at compile time; the instance stores nothing.
#[derive(Debug, Clone, Copy)]
pub struct ConstantAddress<const BASE: usize>;

impl<const BASE: usize> BaseAddress for ConstantAddress<BASE> {
    open spec fn spec_base_address(self) -> usize {
        BASE
    }

    fn base_address(self) -> (r: usize) {
        BASE
    }
}

} // verus!
