//! The 32 general purpose registers of a hart.

use vstd::prelude::*;

verus! {

/// Name of a general purpose register, in the order of the register numbers
/// `x0` to `x31`.
#[allow(non_camel_case_types)]
#[derive(Clone, Copy, Debug, PartialEq, Eq, Structural)]
pub enum GeneralPurposeRegister {
    zero,
    ra,
    sp,
    gp,
    tp,
    t0,
    t1,
    t2,
    s0,
    s1,
    a0,
    a1,
    a2,
    a3,
    a4,
    a5,
    a6,
    a7,
    s2,
    s3,
    s4,
    s5,
    s6,
    s7,
    s8,
    s9,
    s10,
    s11,
    t3,
    t4,
    t5,
    t6,
}

impl GeneralPurposeRegister {
    /// The register's number: `n` for the register `xn`.
    pub open spec fn number(self) -> int {
        match self {
            GeneralPurposeRegister::zero => 0,
            GeneralPurposeRegister::ra => 1,
            GeneralPurposeRegister::sp => 2,
            GeneralPurposeRegister::gp => 3,
            GeneralPurposeRegister::tp => 4,
            GeneralPurposeRegister::t0 => 5,
            GeneralPurposeRegister::t1 => 6,
            GeneralPurposeRegister::t2 => 7,
            GeneralPurposeRegister::s0 => 8,
            GeneralPurposeRegister::s1 => 9,
            GeneralPurposeRegister::a0 => 10,
            GeneralPurposeRegister::a1 => 11,
            GeneralPurposeRegister::a2 => 12,
            GeneralPurposeRegister::a3 => 13,
            GeneralPurposeRegister::a4 => 14,
            GeneralPurposeRegister::a5 => 15,
            GeneralPurposeRegister::a6 => 16,
            GeneralPurposeRegister::a7 => 17,
            GeneralPurposeRegister::s2 => 18,
            GeneralPurposeRegister::s3 => 19,
            GeneralPurposeRegister::s4 => 20,
            GeneralPurposeRegister::s5 => 21,
            GeneralPurposeRegister::s6 => 22,
            GeneralPurposeRegister::s7 => 23,
            GeneralPurposeRegister::s8 => 24,
            GeneralPurposeRegister::s9 => 25,
            GeneralPurposeRegister::s10 => 26,
            GeneralPurposeRegister::s11 => 27,
            GeneralPurposeRegister::t3 => 28,
            GeneralPurposeRegister::t4 => 29,
            GeneralPurposeRegister::t5 => 30,
            GeneralPurposeRegister::t6 => 31,
        }
    }

    /// Position of the register in a register file.
    pub fn index(self) -> (index: usize)
        ensures
            index == self.number(),
            index < 32,
    {
        match self {
            GeneralPurposeRegister::zero => 0,
            GeneralPurposeRegister::ra => 1,
            GeneralPurposeRegister::sp => 2,
            GeneralPurposeRegister::gp => 3,
            GeneralPurposeRegister::tp => 4,
            GeneralPurposeRegister::t0 => 5,
            GeneralPurposeRegister::t1 => 6,
            GeneralPurposeRegister::t2 => 7,
            GeneralPurposeRegister::s0 => 8,
            GeneralPurposeRegister::s1 => 9,
            GeneralPurposeRegister::a0 => 10,
            GeneralPurposeRegister::a1 => 11,
            GeneralPurposeRegister::a2 => 12,
            GeneralPurposeRegister::a3 => 13,
            GeneralPurposeRegister::a4 => 14,
            GeneralPurposeRegister::a5 => 15,
            GeneralPurposeRegister::a6 => 16,
            GeneralPurposeRegister::a7 => 17,
            GeneralPurposeRegister::s2 => 18,
            GeneralPurposeRegister::s3 => 19,
            GeneralPurposeRegister::s4 => 20,
            GeneralPurposeRegister::s5 => 21,
            GeneralPurposeRegister::s6 => 22,
            GeneralPurposeRegister::s7 => 23,
            GeneralPurposeRegister::s8 => 24,
            GeneralPurposeRegister::s9 => 25,
            GeneralPurposeRegister::s10 => 26,
            GeneralPurposeRegister::s11 => 27,
            GeneralPurposeRegister::t3 => 28,
            GeneralPurposeRegister::t4 => 29,
            GeneralPurposeRegister::t5 => 30,
            GeneralPurposeRegister::t6 => 31,
        }
    }
}

/// A file of general purpose registers. Its view is the sequence of the 32
/// register values, indexed by register number.
#[derive(Clone, Copy, Debug, PartialEq, Eq)]
pub struct GeneralPurposeRegisters {
    values: [u64; 32],
}

impl View for GeneralPurposeRegisters {
    type V = Seq<u64>;

    closed spec fn view(&self) -> Seq<u64> {
        self.values@
    }
}

impl GeneralPurposeRegisters {
    /// The file that differs from `self` in `register` alone, which holds
    /// `value`.
    pub closed spec fn updated(self, register: GeneralPurposeRegister, value: u64) -> Self {
        GeneralPurposeRegisters {
            values: vstd::array::spec_array_update(self.values, register.number(), value),
        }
    }

    /// The file in which every register holds zero.
    pub closed spec fn zeroed() -> Self {
        GeneralPurposeRegisters { values: vstd::array::spec_array_fill_for_copy_type(0u64) }
    }

    /// A file holds 32 values, and `updated` replaces one of them.
    pub broadcast proof fn lemma_updated(self, register: GeneralPurposeRegister, value: u64)
        ensures
            self@.len() == 32,
            #[trigger] self.updated(register, value)@ == self@.update(register.number(), value),
    {
    }

    /// Every register of the zeroed file holds zero.
    pub broadcast proof fn lemma_zeroed()
        ensures
            #[trigger] Self::zeroed()@ == Seq::new(32, |i: int| 0u64),
    {
        assert(Self::zeroed()@ =~= Seq::new(32, |i: int| 0u64));
    }

    /// Two files that hold the same values are the same file.
    pub proof fn lemma_equal_by_view(self, other: Self)
        requires
            self@ == other@,
        ensures
            self == other,
    {
        assert(self.values =~= other.values);
    }

    pub fn empty() -> (registers: Self)
        ensures
            registers == Self::zeroed(),
            registers@ == Seq::new(32, |i: int| 0u64),
    {
        broadcast use GeneralPurposeRegisters::lemma_zeroed;

        GeneralPurposeRegisters { values: [0u64; 32] }
    }

    pub fn get(&self, register: GeneralPurposeRegister) -> (value: u64)
        ensures
            value == self@[register.number()],
    {
        self.values[register.index()]
    }

    pub fn set(&mut self, register: GeneralPurposeRegister, value: u64)
        ensures
            *final(self) == old(self).updated(register, value),
            final(self)@ == old(self)@.update(register.number(), value),
    {
        self.values[register.index()] = value;
    }
}

} // verus!
