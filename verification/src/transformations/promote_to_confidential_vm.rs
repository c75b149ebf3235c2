//! The request of a virtual machine to become confidential.

use vstd::prelude::*;
use crate::architecture::hart_architectural_state::HartArchitecturalState;

verus! {

/// The state of the hart on which a virtual machine asked to become
/// confidential, as it was at the time of the request.
#[derive(Clone, Copy, Debug, PartialEq, Eq)]
pub struct PromoteToConfidentialVm {
    pub hart_state: HartArchitecturalState,
}

impl PromoteToConfidentialVm {
    pub fn new(hart_state: &HartArchitecturalState) -> (request: Self)
        ensures
            request.hart_state == *hart_state,
    {
        PromoteToConfidentialVm { hart_state: *hart_state }
    }

    pub fn hart_state(&self) -> (hart_state: &HartArchitecturalState)
        ensures
            *hart_state == self.hart_state,
    {
        &self.hart_state
    }
}

} // verus!
