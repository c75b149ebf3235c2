//! The answer of the hypervisor to a request to share a page.

use vstd::prelude::*;

verus! {

/// The answer of the hypervisor: its response code, which is zero on
/// success, and the address of the page that the hypervisor shares.
#[derive(Clone, Copy, Debug, PartialEq, Eq, Structural)]
pub struct SharePageResult {
    pub response_code: u64,
    pub hypervisor_page_address: u64,
}

impl SharePageResult {
    pub fn new(response_code: u64, hypervisor_page_address: u64) -> (result: Self)
        ensures
            result == (SharePageResult { response_code, hypervisor_page_address }),
    {
        SharePageResult { response_code, hypervisor_page_address }
    }

    /// Whether the hypervisor refused to share the page.
    pub fn is_error(&self) -> (error: bool)
        ensures
            error == (self.response_code != 0),
    {
        self.response_code > 0
    }

    pub fn response_code(&self) -> (value: u64)
        ensures
            value == self.response_code,
    {
        self.response_code
    }

    pub fn hypervisor_page_address(&self) -> (value: u64)
        ensures
            value == self.hypervisor_page_address,
    {
        self.hypervisor_page_address
    }
}

} // verus!
