//! Registers of a 64-bit RISC-V hart and helpers on the bits of their values.

use vstd::prelude::*;

pub mod control_status_registers;
pub mod general_purpose_registers;
pub mod hart_architectural_state;
pub mod sbi;
pub mod specification;
pub mod trap_cause;

verus! {

/// The word in which exactly the bit `bit_index` is set.
pub open spec fn bit_mask(bit_index: u64) -> u64 {
    1u64 << bit_index
}

/// Whether the bit `bit_index` of `data` is set.
pub open spec fn is_bit_set(data: u64, bit_index: u64) -> bool {
    data & bit_mask(bit_index) != 0
}

/// `data` with the bit `bit_index` set and every other bit as it was.
pub open spec fn with_bit_set(data: u64, bit_index: u64) -> u64 {
    data | bit_mask(bit_index)
}

/// `data` with the bit `bit_index` cleared and every other bit as it was.
pub open spec fn with_bit_cleared(data: u64, bit_index: u64) -> u64 {
    data & !bit_mask(bit_index)
}

/// Whether every bit of `mask` is set in `data`.
pub open spec fn has_all_bits(data: u64, mask: u64) -> bool {
    data & mask == mask
}

pub fn are_bits_enabled(data: u64, mask: u64) -> (enabled: bool)
    ensures
        enabled == has_all_bits(data, mask),
{
    data & mask == mask
}

pub fn is_bit_enabled(data: u64, bit_index: u64) -> (enabled: bool)
    requires
        bit_index < 64,
    ensures
        enabled == is_bit_set(data, bit_index),
{
    data & (1u64 << bit_index) != 0
}

pub fn enable_bit(register: &mut u64, bit_index: u64)
    requires
        bit_index < 64,
    ensures
        *final(register) == with_bit_set(*old(register), bit_index),
        forall|other: u64|
            other < 64 ==> #[trigger] is_bit_set(*final(register), other) == (other == bit_index
                || is_bit_set(*old(register), other)),
{
    *register = *register | (1u64 << bit_index);
    assert forall|other: u64| other < 64 implies #[trigger] is_bit_set(*register, other) == (other
        == bit_index || is_bit_set(*old(register), other)) by {
        lemma_with_bit_set(*old(register), bit_index, other);
    }
}

pub fn disable_bit(register: &mut u64, bit_index: u64)
    requires
        bit_index < 64,
    ensures
        *final(register) == with_bit_cleared(*old(register), bit_index),
        forall|other: u64|
            other < 64 ==> #[trigger] is_bit_set(*final(register), other) == (other != bit_index
                && is_bit_set(*old(register), other)),
{
    *register = *register & !(1u64 << bit_index);
    assert forall|other: u64| other < 64 implies #[trigger] is_bit_set(*register, other) == (other
        != bit_index && is_bit_set(*old(register), other)) by {
        lemma_with_bit_cleared(*old(register), bit_index, other);
    }
}

/// Setting a bit makes that bit read as set and changes no other bit.
pub proof fn lemma_with_bit_set(data: u64, bit_index: u64, other: u64)
    by (bit_vector)
    requires
        bit_index < 64,
        other < 64,
    ensures
        is_bit_set(with_bit_set(data, bit_index), other) == (other == bit_index || is_bit_set(
            data,
            other,
        )),
{
}

/// Clearing a bit makes that bit read as clear and changes no other bit.
pub proof fn lemma_with_bit_cleared(data: u64, bit_index: u64, other: u64)
    by (bit_vector)
    requires
        bit_index < 64,
        other < 64,
    ensures
        is_bit_set(with_bit_cleared(data, bit_index), other) == (other != bit_index && is_bit_set(
            data,
            other,
        )),
{
}

} // verus!
