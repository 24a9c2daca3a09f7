use vstd::prelude::*;

verus! {

/// Largest payload, in bytes, that a frame may carry in either direction.
///
/// A header that declares more is refused before any buffer is allocated for
/// the payload, so a forged header cannot force an unbounded allocation.
pub const MAX_PACKET_SIZE: usize = 1048576;

/// Size of a frame header: the payload length as a big-endian `u32`.
pub const MIN_PACKET_SIZE: usize = 4;

/// Seconds a connection may take to deliver one whole frame.
pub const READ_TIMEOUT_SECS: u64 = 5;

/// Default number of work items the dispatch queue holds before producers wait.
pub const QUEUE_CAPACITY: usize = 100;

} // verus!
