//! Mount options for a user-space filesystem: an accumulator of settings, and the
//! renderings of it that each kind of mount interface takes.

pub mod decimal;
pub mod laws;
pub mod model;
pub mod nmount;
pub mod options;
mod process;
pub mod render;

pub use nmount::NmountOption;
pub use options::MountOptions;
