//! Failures that the security monitor reports to its caller.

use vstd::prelude::*;

verus! {

#[derive(Clone, Copy, Debug, PartialEq, Eq, Structural)]
pub enum Error {
    /// The address of a page is not a multiple of the page's size.
    AddressNotAligned,
    /// A page does not end within the address space.
    AddressOutOfRange,
    /// The memory handed over for a page does not have the page's size.
    InvalidPageMemory,
}

} // verus!
