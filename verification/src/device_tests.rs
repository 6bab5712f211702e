//! Tests of the VirtIO devices of a running kernel.

use crate::error::Error;
use crate::gpu::driver::VirtIOGpu;
use crate::gpu::model;
use crate::gpu::model::{Pending, Step};
use vstd::prelude::*;

verus! {

/// The number of random bytes that [`test_rng`] asks for.
pub const ENTROPY_BYTES: usize = 10;

/// What the test of the entropy device has to say.
#[derive(Debug)]
pub enum RngReport {
    /// The device is missing.
    Missing,
    /// The device filled so many bytes, which are these.
    Received { bytes: Vec<u8> },
    /// The device failed.
    Failed { error: Error },
}

/// The report on a request for [`ENTROPY_BYTES`] random bytes: `reply` is the device's
/// answer, and nothing without a device; `buffer` holds what it wrote.
pub fn test_rng(reply: Option<Result<usize, Error>>, buffer: [u8; 10]) -> (report: RngReport)
    requires
        reply matches Some(Ok(bytes)) ==> bytes <= ENTROPY_BYTES,
    ensures
        match reply {
            None => report is Missing,
            Some(Ok(bytes)) => report matches RngReport::Received { bytes: received }
                && received@ == buffer@.take(bytes as int),
            Some(Err(error)) => report == (RngReport::Failed { error }),
        },
{
    match reply {
        None => RngReport::Missing,
        Some(Ok(bytes)) => {
            let mut received: Vec<u8> = Vec::new();
            let mut i: usize = 0;
            while i < bytes
                invariant
                    i <= bytes <= ENTROPY_BYTES,
                    received@ == buffer@.take(i as int),
                decreases bytes - i,
            {
                received.push(buffer[i]);
                assert(received@ =~= buffer@.take(i + 1));
                i = i + 1;
            }
            RngReport::Received { bytes: received }
        },
        Some(Err(error)) => RngReport::Failed { error },
    }
}

/// Starts the virgl test of the GPU, if there is one; its first step is the result.
pub fn test_virgl(gpu: &mut Option<VirtIOGpu>) -> (started: Option<Step>)
    requires
        *old(gpu) matches Some(device) ==> device@.wf() && device@.pending is Idle,
    ensures
        *old(gpu) is None ==> started is None && *final(gpu) is None,
        *old(gpu) matches Some(device) ==> {
            &&& *final(gpu) matches Some(after)
            &&& started matches Some(step)
            &&& after@.wf()
            &&& model::follows(after@, step, device@.enter(Pending::VirglContext, None))
        },
{
    match gpu {
        Some(device) => Some(device.test_virgl()),
        None => None,
    }
}

} // verus!
