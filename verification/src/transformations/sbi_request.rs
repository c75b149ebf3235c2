//! Calls to the hypervisor in the register convention of the SBI.

use vstd::prelude::*;
use crate::architecture::general_purpose_registers::{
    GeneralPurposeRegister,
    GeneralPurposeRegisters,
};
use crate::architecture::hart_architectural_state::HartArchitecturalState;

verus! {

/// An SBI call: the extension and function identifiers and the six
/// arguments.
#[derive(Clone, Copy, Debug, PartialEq, Eq, Structural)]
pub struct SbiRequest {
    pub extension_id: u64,
    pub function_id: u64,
    pub a0: u64,
    pub a1: u64,
    pub a2: u64,
    pub a3: u64,
    pub a4: u64,
    pub a5: u64,
}

impl SbiRequest {
    /// The call that the registers `a7`, `a6` and `a0` to `a5` of a hart
    /// state encode.
    pub open spec fn of_hart_state(hart_state: HartArchitecturalState) -> SbiRequest {
        SbiRequest {
            extension_id: hart_state.gpr_value(GeneralPurposeRegister::a7),
            function_id: hart_state.gpr_value(GeneralPurposeRegister::a6),
            a0: hart_state.gpr_value(GeneralPurposeRegister::a0),
            a1: hart_state.gpr_value(GeneralPurposeRegister::a1),
            a2: hart_state.gpr_value(GeneralPurposeRegister::a2),
            a3: hart_state.gpr_value(GeneralPurposeRegister::a3),
            a4: hart_state.gpr_value(GeneralPurposeRegister::a4),
            a5: hart_state.gpr_value(GeneralPurposeRegister::a5),
        }
    }

    /// The hart state whose registers `a7`, `a6` and `a0` to `a5` encode this
    /// call and whose other registers are those of `hart_state`.
    pub open spec fn written_to(
        self,
        hart_state: HartArchitecturalState,
    ) -> HartArchitecturalState {
        hart_state
            .with_gpr(GeneralPurposeRegister::a7, self.extension_id)
            .with_gpr(GeneralPurposeRegister::a6, self.function_id)
            .with_gpr(GeneralPurposeRegister::a0, self.a0)
            .with_gpr(GeneralPurposeRegister::a1, self.a1)
            .with_gpr(GeneralPurposeRegister::a2, self.a2)
            .with_gpr(GeneralPurposeRegister::a3, self.a3)
            .with_gpr(GeneralPurposeRegister::a4, self.a4)
            .with_gpr(GeneralPurposeRegister::a5, self.a5)
    }

    /// A call that was written to a hart state is the call that the state
    /// encodes, and the write changes the eight registers of the convention
    /// only.
    pub proof fn lemma_written_to(self, hart_state: HartArchitecturalState)
        ensures
            Self::of_hart_state(self.written_to(hart_state)) == self,
            forall|register: GeneralPurposeRegister|
                !(10 <= register.number() <= 17) ==> #[trigger] self.written_to(
                    hart_state,
                ).gpr_value(register) == hart_state.gpr_value(register),
            self.written_to(hart_state) == (HartArchitecturalState {
                gprs: self.written_to(hart_state).gprs,
                ..hart_state
            }),
    {
        broadcast use GeneralPurposeRegisters::lemma_updated;

    }

    pub fn new(
        extension_id: u64,
        function_id: u64,
        a0: u64,
        a1: u64,
        a2: u64,
        a3: u64,
        a4: u64,
        a5: u64,
    ) -> (request: Self)
        ensures
            request == (SbiRequest { extension_id, function_id, a0, a1, a2, a3, a4, a5 }),
    {
        SbiRequest { extension_id, function_id, a0, a1, a2, a3, a4, a5 }
    }

    pub fn from_hart_state(hart_state: &HartArchitecturalState) -> (request: Self)
        ensures
            request == Self::of_hart_state(*hart_state),
    {
        SbiRequest {
            extension_id: hart_state.gpr(GeneralPurposeRegister::a7),
            function_id: hart_state.gpr(GeneralPurposeRegister::a6),
            a0: hart_state.gpr(GeneralPurposeRegister::a0),
            a1: hart_state.gpr(GeneralPurposeRegister::a1),
            a2: hart_state.gpr(GeneralPurposeRegister::a2),
            a3: hart_state.gpr(GeneralPurposeRegister::a3),
            a4: hart_state.gpr(GeneralPurposeRegister::a4),
            a5: hart_state.gpr(GeneralPurposeRegister::a5),
        }
    }

    pub fn extension_id(&self) -> (value: u64)
        ensures
            value == self.extension_id,
    {
        self.extension_id
    }

    pub fn function_id(&self) -> (value: u64)
        ensures
            value == self.function_id,
    {
        self.function_id
    }

    pub fn a0(&self) -> (value: u64)
        ensures
            value == self.a0,
    {
        self.a0
    }

    pub fn a1(&self) -> (value: u64)
        ensures
            value == self.a1,
    {
        self.a1
    }

    pub fn a2(&self) -> (value: u64)
        ensures
            value == self.a2,
    {
        self.a2
    }

    pub fn a3(&self) -> (value: u64)
        ensures
            value == self.a3,
    {
        self.a3
    }

    pub fn a4(&self) -> (value: u64)
        ensures
            value == self.a4,
    {
        self.a4
    }

    pub fn a5(&self) -> (value: u64)
        ensures
            value == self.a5,
    {
        self.a5
    }
}

/// An SBI call to the hypervisor that the security monitor makes for a
/// confidential virtual machine.
#[derive(Clone, Copy, Debug, PartialEq, Eq, Structural)]
pub struct SbiVmRequest {
    pub sbi_request: SbiRequest,
}

impl SbiVmRequest {
    pub fn from_hart_state(hart_state: &HartArchitecturalState) -> (request: Self)
        ensures
            request.sbi_request == SbiRequest::of_hart_state(*hart_state),
    {
        SbiVmRequest { sbi_request: SbiRequest::from_hart_state(hart_state) }
    }

    pub fn sbi_request(&self) -> (request: &SbiRequest)
        ensures
            *request == self.sbi_request,
    {
        &self.sbi_request
    }
}

} // verus!
