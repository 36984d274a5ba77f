//! The clean-up engine: exclusions, platform knowledge, and the clean-up
//! and analysis steps of each area.
pub mod exclusions;
pub mod os;
pub mod sweep;
pub mod scan;
pub mod browser;
pub mod system;
pub mod os_specific;
pub mod network;
pub mod validator;

pub use scan::DryRunOperation;
