//! Loads of a confidential virtual machine that the hypervisor completes.

use vstd::prelude::*;
use crate::architecture::general_purpose_registers::GeneralPurposeRegister;
use crate::architecture::hart_architectural_state::HartArchitecturalState;

verus! {

/// A load that faulted: the length of the load instruction and the register
/// that takes the loaded value.
#[derive(Clone, Copy, Debug, PartialEq, Eq, Structural)]
pub struct GuestLoadPageFaultRequest {
    pub instruction_length: u64,
    pub result_gpr: GeneralPurposeRegister,
}

impl GuestLoadPageFaultRequest {
    pub fn new(instruction_length: u64, result_gpr: GeneralPurposeRegister) -> (request: Self)
        ensures
            request == (GuestLoadPageFaultRequest { instruction_length, result_gpr }),
    {
        GuestLoadPageFaultRequest { instruction_length, result_gpr }
    }

    pub fn instruction_length(&self) -> (value: u64)
        ensures
            value == self.instruction_length,
    {
        self.instruction_length
    }

    pub fn result_gpr(&self) -> (register: GeneralPurposeRegister)
        ensures
            register == self.result_gpr,
    {
        self.result_gpr
    }
}

/// A completed load: the register that takes the value, the value, and the
/// length of the load instruction.
#[derive(Clone, Copy, Debug, PartialEq, Eq, Structural)]
pub struct GuestLoadPageFaultResult {
    pub result_gpr: GeneralPurposeRegister,
    pub value: u64,
    pub instruction_length: u64,
}

impl GuestLoadPageFaultResult {
    /// The result of the load `request`, whose value the hypervisor left in
    /// the register that the request names.
    pub fn new(hart_state: &HartArchitecturalState, request: GuestLoadPageFaultRequest) -> (result:
        Self)
        ensures
            result == (GuestLoadPageFaultResult {
                result_gpr: request.result_gpr,
                value: hart_state.gpr_value(request.result_gpr),
                instruction_length: request.instruction_length,
            }),
    {
        GuestLoadPageFaultResult {
            result_gpr: request.result_gpr(),
            value: hart_state.gpr(request.result_gpr()),
            instruction_length: request.instruction_length(),
        }
    }

    pub fn result_gpr(&self) -> (register: GeneralPurposeRegister)
        ensures
            register == self.result_gpr,
    {
        self.result_gpr
    }

    pub fn value(&self) -> (value: u64)
        ensures
            value == self.value,
    {
        self.value
    }

    pub fn instruction_length(&self) -> (value: u64)
        ensures
            value == self.instruction_length,
    {
        self.instruction_length
    }
}

} // verus!
