//! Addresses as a confidential virtual machine sees them.

use vstd::prelude::*;

verus! {

/// A physical address in the address space of a confidential virtual
/// machine.
#[derive(Clone, Copy, Debug, PartialEq, Eq, Structural)]
pub struct ConfidentialVmPhysicalAddress(pub usize);

impl ConfidentialVmPhysicalAddress {
    pub fn new(address: usize) -> (guest_address: Self)
        ensures
            guest_address.0 == address,
    {
        ConfidentialVmPhysicalAddress(address)
    }

    pub fn usize(&self) -> (address: usize)
        ensures
            address == self.0,
    {
        self.0
    }
}

} // verus!
