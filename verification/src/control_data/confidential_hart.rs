//! The virtual hart that is bound to a physical hart.

use vstd::prelude::*;
use crate::architecture::hart_architectural_state::HartArchitecturalState;

verus! {

/// Identifier of a confidential virtual machine.
#[derive(Clone, Copy, Debug, PartialEq, Eq, Structural)]
pub struct ConfidentialVmId(pub u64);

impl ConfidentialVmId {
    pub fn new(value: u64) -> (id: Self)
        ensures
            id.0 == value,
    {
        ConfidentialVmId(value)
    }

    pub fn value(&self) -> (value: u64)
        ensures
            value == self.0,
    {
        self.0
    }
}

/// A virtual hart: either a placeholder that belongs to no virtual machine,
/// or a hart of a confidential virtual machine.
#[derive(Debug, PartialEq, Eq)]
pub struct ConfidentialHart {
    confidential_hart_state: HartArchitecturalState,
    confidential_vm_id: Option<ConfidentialVmId>,
}

/// What a virtual hart is: its saved registers, and the confidential virtual
/// machine that it belongs to, if any.
pub struct ConfidentialHartView {
    pub confidential_hart_state: HartArchitecturalState,
    pub confidential_vm_id: Option<ConfidentialVmId>,
}

impl ConfidentialHartView {
    /// The placeholder hart `id`: registers zeroed, no virtual machine.
    pub open spec fn dummy(id: usize) -> Self {
        ConfidentialHartView {
            confidential_hart_state: HartArchitecturalState::zeroed(id),
            confidential_vm_id: None,
        }
    }

    pub open spec fn is_dummy(self) -> bool {
        self.confidential_vm_id is None
    }
}

impl View for ConfidentialHart {
    type V = ConfidentialHartView;

    closed spec fn view(&self) -> ConfidentialHartView {
        ConfidentialHartView {
            confidential_hart_state: self.confidential_hart_state,
            confidential_vm_id: self.confidential_vm_id,
        }
    }
}

impl ConfidentialHart {
    /// The placeholder that a physical hart holds while no hart of a
    /// confidential virtual machine runs on it.
    pub fn dummy(id: usize) -> (hart: Self)
        ensures
            hart@ == ConfidentialHartView::dummy(id),
    {
        ConfidentialHart {
            confidential_hart_state: HartArchitecturalState::empty(id),
            confidential_vm_id: None,
        }
    }

    /// The hart `id` of a confidential virtual machine, with zeroed
    /// registers.
    pub fn from_vm_hart_reset(id: usize, confidential_vm_id: ConfidentialVmId) -> (hart: Self)
        ensures
            hart@ == (ConfidentialHartView {
                confidential_hart_state: HartArchitecturalState::zeroed(id),
                confidential_vm_id: Some(confidential_vm_id),
            }),
    {
        ConfidentialHart {
            confidential_hart_state: HartArchitecturalState::empty(id),
            confidential_vm_id: Some(confidential_vm_id),
        }
    }

    pub fn is_dummy(&self) -> (dummy: bool)
        ensures
            dummy == self@.is_dummy(),
    {
        self.confidential_vm_id.is_none()
    }

    pub fn confidential_vm_id(&self) -> (id: Option<ConfidentialVmId>)
        ensures
            id == self@.confidential_vm_id,
    {
        self.confidential_vm_id
    }

    pub fn confidential_hart_id(&self) -> (id: usize)
        ensures
            id == self@.confidential_hart_state.id,
    {
        self.confidential_hart_state.id
    }
}

} // verus!
