//! Trap forwarding and register-state transformation engine of a security
//! monitor that runs confidential virtual machines next to an untrusted
//! hypervisor on RISC-V harts with the hypervisor extension.
//!
//! The engine works on a software image of a hart: the saved architectural
//! state of the hypervisor and a bank of control and status registers. Code
//! that owns the physical hart copies the bank from and to the hardware
//! around each call.

pub mod architecture;
pub mod control_data;
pub mod error;
pub mod memory_layout;
pub mod memory_protector;
pub mod page_allocator;
pub mod transformations;
