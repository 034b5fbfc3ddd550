//! Userland runtime core: a one-shot distributor of peripheral capabilities and
//! the timer's callback-registration protocol.
pub mod drivers;
pub mod hardware;
pub mod result;
pub mod timer;

pub use hardware::{retrieve_hardware, retrieve_hardware_unsafe, Hardware, HardwareSlot};
