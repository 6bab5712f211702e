//! The error that driver operations report.

use vstd::prelude::*;

verus! {

/// Why a driver operation failed.
#[derive(Clone, Copy, Debug, PartialEq, Eq, Structural)]
pub enum Error {
    /// The operation needs a framebuffer and none has been set up.
    NotReady,
    /// An argument has the wrong size or value.
    InvalidParam,
    /// The device answered a request with something other than success.
    IoError,
    /// No DMA memory could be allocated.
    DmaError,
    /// No memory for a queue buffer could be allocated.
    OutOfMemory,
    /// A virtqueue could not be created, or could not carry a request.
    QueueError,
    /// A field of the device configuration space could not be read.
    ConfigError,
}

} // verus!
