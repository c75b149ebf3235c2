//! Calls that the security monitor hands to the firmware, and their results.

use vstd::prelude::*;
use crate::architecture::general_purpose_registers::GeneralPurposeRegisters;
use crate::architecture::hart_architectural_state::HartArchitecturalState;

verus! {

/// The registers that the trap handler of the firmware takes and gives back.
#[derive(Clone, Copy, Debug, PartialEq, Eq)]
pub struct TrapRegisters {
    pub gprs: GeneralPurposeRegisters,
    pub mepc: u64,
    pub mstatus: u64,
}

/// A call that the firmware handles: the registers of the caller at the
/// time of the call.
#[derive(Clone, Copy, Debug, PartialEq, Eq)]
pub struct OpensbiRequest {
    pub regs: TrapRegisters,
}

impl OpensbiRequest {
    pub fn new(hart_state: &HartArchitecturalState) -> (request: Self)
        ensures
            request.regs == (TrapRegisters {
                gprs: hart_state.gprs,
                mepc: hart_state.mepc,
                mstatus: hart_state.mstatus,
            }),
    {
        OpensbiRequest {
            regs: TrapRegisters {
                gprs: hart_state.gprs,
                mepc: hart_state.mepc,
                mstatus: hart_state.mstatus,
            },
        }
    }
}

/// The registers that the trap handler of the firmware left.
#[derive(Clone, Copy, Debug, PartialEq, Eq)]
pub struct OpensbiResult {
    pub trap_regs: TrapRegisters,
}

impl OpensbiResult {
    pub fn from_opensbi_handler(trap_regs: TrapRegisters) -> (result: Self)
        ensures
            result.trap_regs == trap_regs,
    {
        OpensbiResult { trap_regs }
    }
}

} // verus!
