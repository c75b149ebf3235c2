//! The request of a confidential virtual machine to share a page with the
//! hypervisor.

use vstd::prelude::*;
use crate::error::Error;
use crate::memory_layout::ConfidentialVmPhysicalAddress;
use crate::memory_protector::PageSize;

verus! {

/// The page that a confidential virtual machine wants to share: its address
/// in the guest's address space and its size.
#[derive(Clone, Copy, Debug, PartialEq, Eq, Structural)]
pub struct SharePageRequest {
    pub confidential_vm_virtual_address: ConfidentialVmPhysicalAddress,
    pub page_size: PageSize,
}

impl SharePageRequest {
    /// The request to share the page of 4 KiB at `address`. Every address is
    /// accepted.
    pub fn new(address: usize) -> (request: Result<Self, Error>)
        ensures
            request == Ok::<Self, Error>(
                SharePageRequest {
                    confidential_vm_virtual_address: ConfidentialVmPhysicalAddress(address),
                    page_size: PageSize::Size4KiB,
                },
            ),
    {
        let confidential_vm_virtual_address = ConfidentialVmPhysicalAddress::new(address);
        Ok(SharePageRequest { confidential_vm_virtual_address, page_size: PageSize::Size4KiB })
    }

    pub fn confidential_vm_virtual_address(&self) -> (address: ConfidentialVmPhysicalAddress)
        ensures
            address == self.confidential_vm_virtual_address,
    {
        self.confidential_vm_virtual_address
    }

    pub fn page_size(&self) -> (size: PageSize)
        ensures
            size == self.page_size,
    {
        self.page_size
    }
}

} // verus!
