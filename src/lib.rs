//! A small task-dispatch server core: a length-prefixed binary protocol, its
//! message codec, the connection handler's decisions and the workers'
//! decisions, each with a proved contract. Sockets, timers, channels and file
//! reads are driven from outside the library.
use std::sync::atomic::AtomicU64;
use vstd::prelude::*;

pub mod connection;
pub mod constants;
pub mod crypto;
pub mod protocol;
pub mod wire;
pub mod workers;

verus! {

/// Counters shared by every connection and worker of one server process.
///
/// They are diagnostic only: each is bumped with a relaxed atomic increment and
/// nothing else depends on their values.
pub struct ServerMetrics {
    /// Tasks that a worker has taken from the queue.
    pub processed_tasks: AtomicU64,
    /// Clients connected at this moment.
    pub active_connections: AtomicU64,
}

impl ServerMetrics {
    /// Creates the counters, all at zero.
    pub fn new() -> Self {
        ServerMetrics { processed_tasks: AtomicU64::new(0), active_connections: AtomicU64::new(0) }
    }
}

/// The digest a client may ask for.
///
/// On the wire each variant is its position in this list as a big-endian
/// `u32`; a number past the end reads as `UNIMPLEMENTED`.
#[allow(non_camel_case_types)]
#[derive(Debug, PartialEq, Eq, Clone, Copy, Structural)]
pub enum HashAlgorithms {
    SHA224,
    SHA256,
    SHA384,
    SHA512,
    SHA512_224,
    SHA512_256,
    SHA3_224,
    SHA3_256,
    SHA3_384,
    SHA3_512,
    SHAKE128,
    SHAKE256,
    BLAKE3,
    UNIMPLEMENTED,
}

/// Where the file to hash lives.
#[derive(Debug)]
pub enum FilePath {
    /// A file on this machine.
    Local(String),
    /// A file behind a URL; fetching it is not supported.
    Remote(String),
}

/// What a [`FilePath`] denotes.
pub ghost enum PathModel {
    Local(Seq<char>),
    Remote(Seq<char>),
}

impl View for FilePath {
    type V = PathModel;

    open spec fn view(&self) -> PathModel {
        match self {
            FilePath::Local(s) => PathModel::Local(s@),
            FilePath::Remote(s) => PathModel::Remote(s@),
        }
    }
}

} // verus!
