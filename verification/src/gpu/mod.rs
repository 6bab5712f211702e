//! The driver of the VirtIO GPU device.

pub mod wire;
pub mod requests;
pub mod virgl;
pub mod model;
pub mod driver;
pub mod exchange;
pub mod init;
pub mod laws;
pub mod conversation;
