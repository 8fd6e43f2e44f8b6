//! Configuration, control records and device handles for memory-backed disks
//! of the kernel's memory-disk driver.
//!
//! A [`Builder`] gathers a device specification and turns it into the fixed
//! control record that the attach call carries; an [`Md`] stands for one
//! attached device and yields the records of its resize and detach calls.
//! Issuing the calls themselves is left to the caller.
pub mod buffer;
pub mod builder;
pub mod device;
pub mod laws;
pub mod options;
pub mod record;
mod platform;

pub use builder::{BackingKind, Builder};
pub use device::{cleanup_verdict, CleanupVerdict, Md};
pub use options::{MdOption, Options};
pub use record::{MdError, MdRecord};
