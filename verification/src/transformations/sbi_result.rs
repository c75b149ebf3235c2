//! Results of SBI calls.

use vstd::prelude::*;
use crate::architecture::general_purpose_registers::GeneralPurposeRegister;
use crate::architecture::hart_architectural_state::HartArchitecturalState;
use crate::architecture::specification::ECALL_INSTRUCTION_LENGTH;

verus! {

/// The result of an SBI call: the two return values, and the number of bytes
/// by which the caller's program counter advances when it takes the result.
#[derive(Clone, Copy, Debug, PartialEq, Eq, Structural)]
pub struct SbiResult {
    pub a0: u64,
    pub a1: u64,
    pub pc_offset: u64,
}

impl SbiResult {
    pub fn new(a0: u64, a1: u64, pc_offset: u64) -> (result: Self)
        ensures
            result == (SbiResult { a0, a1, pc_offset }),
    {
        SbiResult { a0, a1, pc_offset }
    }

    /// The result that a hart state holds in `a0` and `a1` after the handler
    /// of an `ecall` ran on it. Taking it skips the `ecall` instruction.
    pub fn ecall(hart_state: &HartArchitecturalState) -> (result: Self)
        ensures
            result == (SbiResult {
                a0: hart_state.gpr_value(GeneralPurposeRegister::a0),
                a1: hart_state.gpr_value(GeneralPurposeRegister::a1),
                pc_offset: ECALL_INSTRUCTION_LENGTH,
            }),
    {
        SbiResult::new(
            hart_state.gpr(GeneralPurposeRegister::a0),
            hart_state.gpr(GeneralPurposeRegister::a1),
            ECALL_INSTRUCTION_LENGTH,
        )
    }

    pub fn a0(&self) -> (value: u64)
        ensures
            value == self.a0,
    {
        self.a0
    }

    pub fn a1(&self) -> (value: u64)
        ensures
            value == self.a1,
    {
        self.a1
    }

    pub fn pc_offset(&self) -> (value: u64)
        ensures
            value == self.pc_offset,
    {
        self.pc_offset
    }
}

} // verus!
