//! A pipe viewer: bytes are relayed from an input to an output while the
//! throughput is reported on the side.
//!
//! Three workers share the job. The producer reads chunks and forwards each
//! one, with its size, over two channels. The monitor adds the sizes up and
//! decides when a progress line is due. The consumer writes the chunks out.
//! A message of size zero on either channel ends the stream.

use vstd::prelude::*;

pub mod args;
pub mod channel;
pub mod pipeline;
pub mod read;
pub mod stats;
pub mod write;

verus! {

/// The size of the buffer that chunks are read into: 16 KiB.
pub const CHUNK_SIZE: usize = 16 * 1024;

} // verus!
