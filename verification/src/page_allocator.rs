//! Pages of memory that the security monitor owns.

use vstd::prelude::*;
use std::marker::PhantomData;
use crate::error::Error;
use crate::memory_protector::PageSize;

verus! {

/// State of a page whose content is whatever its previous owner left.
#[derive(Debug)]
pub struct UnAllocated {}

/// State of a page that was cleared and handed to its owner.
#[derive(Debug)]
pub struct Allocated {}

/// A page of memory: its address, its size, and its content as 64-bit words.
/// The state `S` tells whether the page was cleared.
#[derive(Debug)]
pub struct Page<S> {
    address: usize,
    size: PageSize,
    memory: Vec<u64>,
    state: PhantomData<S>,
}

/// What a page is: where it starts, how large it is, and what it holds.
pub struct PageView {
    pub address: usize,
    pub size: PageSize,
    pub memory: Seq<u64>,
}

impl PageView {
    /// A page starts at a multiple of its size, ends within the address
    /// space, and holds one word for each eight bytes of its size.
    pub open spec fn is_valid(self) -> bool {
        &&& self.address as nat % self.size.bytes() == 0
        &&& self.address + self.size.bytes() <= usize::MAX
        &&& self.memory.len() * 8 == self.size.bytes()
    }

    /// The address of the first byte behind the page.
    pub open spec fn end_address(self) -> int {
        self.address + self.size.bytes()
    }

    /// The page at the same place with every word zero.
    pub open spec fn zeroized(self) -> PageView {
        PageView { memory: Seq::new(self.memory.len(), |i: int| 0u64), ..self }
    }
}

impl<S> View for Page<S> {
    type V = PageView;

    closed spec fn view(&self) -> PageView {
        PageView { address: self.address, size: self.size, memory: self.memory@ }
    }
}

impl<S> Page<S> {
    #[verifier::type_invariant]
    spec fn is_valid(self) -> bool {
        self@.is_valid()
    }

    pub fn address(&self) -> (address: usize)
        ensures
            address == self@.address,
    {
        self.address
    }

    pub fn size(&self) -> (size: PageSize)
        ensures
            size == self@.size,
    {
        self.size
    }

    /// The address of the first byte behind the page.
    pub fn end_address(&self) -> (address: usize)
        ensures
            self@.is_valid(),
            address == self@.end_address(),
    {
        proof {
            use_type_invariant(self);
        }
        self.address + (self.size.in_bytes() as usize)
    }

    /// The word that starts `offset_in_bytes` bytes behind the start of the
    /// page, or nothing if no word of the page starts there.
    pub fn read(&self, offset_in_bytes: usize) -> (word: Option<u64>)
        ensures
            self@.is_valid(),
            word == if offset_in_bytes % 8 == 0 && offset_in_bytes < self@.size.bytes() {
                Some(self@.memory[offset_in_bytes as int / 8])
            } else {
                None
            },
    {
        proof {
            use_type_invariant(self);
        }
        if offset_in_bytes % 8 == 0 && offset_in_bytes / 8 < self.memory.len() {
            Some(self.memory[offset_in_bytes / 8])
        } else {
            None
        }
    }
}

impl Page<UnAllocated> {
    /// Makes the page of `size` bytes at `address` out of the memory that
    /// backs it. Fails with `AddressNotAligned` if the address is not a
    /// multiple of the size; else with `AddressOutOfRange` if the page would
    /// end behind the last address; else with `InvalidPageMemory` if the
    /// memory does not hold one word for each eight bytes of the size.
    pub fn init(address: usize, size: PageSize, memory: Vec<u64>) -> (page: Result<Self, Error>)
        ensures
            page == Err::<Self, Error>(Error::AddressNotAligned) <==> address as nat % size.bytes()
                != 0,
            page == Err::<Self, Error>(Error::AddressOutOfRange) <==> address as nat % size.bytes()
                == 0 && address + size.bytes() > usize::MAX,
            page == Err::<Self, Error>(Error::InvalidPageMemory) <==> address as nat % size.bytes()
                == 0 && address + size.bytes() <= usize::MAX && memory.len() * 8 != size.bytes(),
            page matches Ok(page) ==> page@ == (PageView { address, size, memory: memory@ }),
            page is Ok <==> (PageView { address, size, memory: memory@ }).is_valid(),
    {
        let bytes = size.in_bytes();
        if address as u64 % bytes != 0 {
            return Err(Error::AddressNotAligned);
        }
        if usize::MAX as u64 - (address as u64) < bytes {
            return Err(Error::AddressOutOfRange);
        }
        if memory.len() as u64 != bytes / 8 {
            return Err(Error::InvalidPageMemory);
        }
        Ok(Page { address, size, memory, state: PhantomData })
    }

    /// Clears the page: every word of the allocated page is zero.
    pub fn zeroize(self) -> (page: Page<Allocated>)
        ensures
            page@ == self@.zeroized(),
    {
        proof {
            use_type_invariant(&self);
        }
        let mut memory = self.memory;
        let mut i: usize = 0;
        while i < memory.len()
            invariant
                i <= memory.len(),
                memory.len() == self.memory.len(),
                forall|j: int| 0 <= j < i ==> memory[j] == 0,
            decreases memory.len() - i,
        {
            memory.set(i, 0);
            i += 1;
        }
        assert(memory@ =~= Seq::new(self.memory@.len(), |i: int| 0u64));
        Page { address: self.address, size: self.size, memory, state: PhantomData }
    }
}

} // verus!
