//! Control data of the security monitor: the harts it runs on and the
//! virtual harts of confidential virtual machines.

pub mod confidential_hart;
pub mod hardware_hart;
pub mod hardware_hart_view;
