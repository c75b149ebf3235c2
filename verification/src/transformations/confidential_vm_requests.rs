//! Requests of the hypervisor that name a confidential virtual machine.

use vstd::prelude::*;
use crate::control_data::confidential_hart::ConfidentialVmId;

verus! {

/// The request to resume a hart of a confidential virtual machine.
#[derive(Clone, Copy, Debug, PartialEq, Eq, Structural)]
pub struct ResumeRequest {
    pub confidential_vm_id: ConfidentialVmId,
    pub confidential_hart_id: u64,
}

impl ResumeRequest {
    pub fn new(confidential_vm_id: u64, confidential_hart_id: u64) -> (request: Self)
        ensures
            request == (ResumeRequest {
                confidential_vm_id: ConfidentialVmId(confidential_vm_id),
                confidential_hart_id,
            }),
    {
        ResumeRequest {
            confidential_vm_id: ConfidentialVmId::new(confidential_vm_id),
            confidential_hart_id,
        }
    }

    pub fn confidential_vm_id(&self) -> (id: ConfidentialVmId)
        ensures
            id == self.confidential_vm_id,
    {
        self.confidential_vm_id
    }

    pub fn confidential_hart_id(&self) -> (id: u64)
        ensures
            id == self.confidential_hart_id,
    {
        self.confidential_hart_id
    }
}

/// The request to terminate a confidential virtual machine.
#[derive(Clone, Copy, Debug, PartialEq, Eq, Structural)]
pub struct TerminateRequest {
    pub confidential_vm_id: ConfidentialVmId,
}

impl TerminateRequest {
    pub fn new(confidential_vm_id: u64) -> (request: Self)
        ensures
            request.confidential_vm_id == ConfidentialVmId(confidential_vm_id),
    {
        TerminateRequest { confidential_vm_id: ConfidentialVmId::new(confidential_vm_id) }
    }

    pub fn confidential_vm_id(&self) -> (id: ConfidentialVmId)
        ensures
            id == self.confidential_vm_id,
    {
        self.confidential_vm_id
    }
}

} // verus!
