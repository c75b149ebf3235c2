//! Interface to the hardware that isolates the memory of the hypervisor from
//! the memory of confidential virtual machines.

use vstd::prelude::*;

verus! {

/// Size of a page that the address translation of the hart supports.
#[derive(Clone, Copy, Debug, PartialEq, Eq, Structural)]
pub enum PageSize {
    Size4KiB,
    Size2MiB,
    Size1GiB,
    Size512GiB,
    Size128TiB,
}

impl PageSize {
    /// Number of bytes in a page of this size.
    pub open spec fn bytes(self) -> nat {
        match self {
            PageSize::Size4KiB => 0x1000,
            PageSize::Size2MiB => 0x20_0000,
            PageSize::Size1GiB => 0x4000_0000,
            PageSize::Size512GiB => 0x80_0000_0000,
            PageSize::Size128TiB => 0x8000_0000_0000,
        }
    }

    pub fn in_bytes(&self) -> (bytes: u64)
        ensures
            bytes == self.bytes(),
    {
        match self {
            PageSize::Size4KiB => 0x1000,
            PageSize::Size2MiB => 0x20_0000,
            PageSize::Size1GiB => 0x4000_0000,
            PageSize::Size512GiB => 0x80_0000_0000,
            PageSize::Size128TiB => 0x8000_0000_0000,
        }
    }
}

/// The configuration of the memory isolation that is in force while the
/// hypervisor runs. It is a capability: whoever programs the isolation
/// hardware for the hypervisor must hold it, together with the root of the
/// guest address translation that the hart state saved.
#[derive(Debug)]
pub struct HypervisorMemoryProtector {}

impl HypervisorMemoryProtector {
    pub fn create() -> Self {
        HypervisorMemoryProtector {  }
    }
}

} // verus!
