//! The record of what was asked of the backend.
//!
//! Every operation on an execution context hands one request to the backend.
//! The record lists them, oldest first, each with what was handed over and how
//! the backend answered. It exists for proofs only.

use vstd::prelude::*;
use wasmedge_wasi_nn::TensorType;

verus! {

/// What the backend left behind when it read out an output: the number of
/// bytes that it reported, and the buffer as it then was.
pub struct Readout {
    pub written: usize,
    pub buffer: Seq<u8>,
}

/// One operation that was asked of an execution context, with what was handed
/// over and how the backend answered.
pub enum Call {
    /// One input tensor was handed over; `staged` says whether the backend
    /// took it.
    SetInput {
        index: usize,
        tensor_type: TensorType,
        dimensions: Seq<usize>,
        data: Seq<u8>,
        staged: bool,
    },
    /// A full forward pass was asked for; `done` says whether it completed.
    Compute { done: bool },
    /// One incremental decode step was asked for; `done` says whether it
    /// completed.
    ComputeSingle { done: bool },
    /// The computed output was asked for, with room for `capacity` bytes;
    /// `read` is what came back, if anything did.
    GetOutput { index: usize, capacity: nat, read: Option<Readout> },
    /// The output of the last decode step was asked for, with room for
    /// `capacity` bytes; `read` is what came back, if anything did.
    GetOutputSingle { index: usize, capacity: nat, read: Option<Readout> },
}

/// A record: the operations asked, oldest first.
pub type Calls = Seq<Call>;

/// What reading an output left behind, as the record holds it: the count and
/// the buffer where the backend answered, nothing where it failed.
pub open spec fn readout_of<E>(written: Result<usize, E>, buffer: Seq<u8>) -> Option<Readout> {
    match written {
        Ok(count) => Some(Readout { written: count, buffer }),
        Err(_) => None,
    }
}

} // verus!
