use std::cell::RefCell;
use vstd::prelude::*;

verus! {

/// The interior-mutability cell of std, carried through as an opaque value.
#[verifier::external_type_specification]
#[verifier::external_body]
#[verifier::reject_recursive_types(T)]
pub struct ExRefCell<T: ?Sized>(RefCell<T>);

/// Relies on `RefCell::new`: it wraps the given value in a fresh cell.
pub assume_specification<T>[ RefCell::<T>::new ](value: T) -> RefCell<T>;

/// One physical shift register: its output word and how many output pins it has.
///
/// Bit `n` of `data` (counting from the least significant bit) is the logical
/// level of output pin `n`, before any polarity inversion.
#[derive(Clone, Copy, Debug, PartialEq, Eq, Structural)]
pub struct ShiftRegister {
    pub data: usize,
    pub pins: u8,
}

impl ShiftRegister {
    /// Replaces the stored output word outright; the width is kept.
    pub fn set(&mut self, data: usize)
        ensures
            final(self).data == data,
            final(self).pins == old(self).pins,
    {
        self.data = data;
    }

    /// Moves the register into a shared, interior-mutable cell.
    pub fn get_ref(self) -> RefCell<ShiftRegister> {
        RefCell::new(self)
    }
}

} // verus!
