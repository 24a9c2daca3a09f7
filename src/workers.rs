//! What a worker decides for each work item it takes from the dispatch queue.
//!
//! A worker first asks [`begin_task`] what to do with a packet: read a local
//! file, or answer at once. Once the file has been read (or failed to be),
//! [`task_outcome`] computes the digest and [`response_for`] turns the outcome
//! into the reply that goes back to the requesting connection.
use crate::crypto::{digest_of, hash_contents, hex_of, is_supported, HashError};
use crate::protocol::{
    algorithm_of_tag, HashingPacket, MessageModel, PacketModel, ProtocolMessage, ResponseModel, TaskResponse,
};
use crate::{FilePath, HashAlgorithms, PathModel};
use vstd::prelude::*;

verus! {

/// The broad kinds of work the pool may be given.
#[derive(Debug, Copy, Clone, PartialEq, Eq, Structural)]
pub enum Task {
    /// Computing a file digest.
    Hashing,
    /// Any other kind of work.
    Other,
}

#[verifier::external_type_specification]
#[verifier::external_body]
#[verifier::reject_recursive_types(T)]
pub struct ExOneshotSender<T>(tokio::sync::oneshot::Sender<T>);

/// A task on its way through the dispatch queue, with the one-shot channel
/// on which its single reply must be sent.
pub struct WorkItem {
    packet: HashingPacket,
    responder: tokio::sync::oneshot::Sender<ProtocolMessage>,
}

impl WorkItem {
    /// The task this item carries.
    pub closed spec fn spec_packet(&self) -> PacketModel {
        self.packet@
    }

    /// Pairs a task with the channel its reply goes to.
    pub fn new(packet: HashingPacket, responder: tokio::sync::oneshot::Sender<ProtocolMessage>) -> (r:
        Self)
        ensures
            r.spec_packet() == packet@,
    {
        WorkItem { packet, responder }
    }

    /// The task this item carries.
    pub fn packet(&self) -> (r: &HashingPacket)
        ensures
            r@ == self.spec_packet(),
    {
        &self.packet
    }

    /// Takes the item apart, for the worker that claimed it.
    pub fn into_parts(self) -> (r: (HashingPacket, tokio::sync::oneshot::Sender<ProtocolMessage>))
        ensures
            r.0@ == self.spec_packet(),
    {
        (self.packet, self.responder)
    }
}

/// What a worker does next with a task.
#[derive(Debug)]
pub enum WorkerAction {
    /// Read this local file and hand its contents to [`task_outcome`].
    ReadFile(String),
    /// Send this reply; the task is finished.
    Reply(ProtocolMessage),
}

/// The reply that reports a failed task.
pub open spec fn failed_reply() -> MessageModel {
    MessageModel::TaskResponse(ResponseModel::Failed)
}

/// The first step of a task. A supported algorithm over a local file asks
/// for that file to be read; anything else, an unsupported algorithm or a
/// remote path, is answered with `Failed` at once.
pub fn begin_task(packet: &HashingPacket) -> (r: WorkerAction)
    ensures
        is_supported(packet.algorithm) && packet.path@ is Local ==> (r matches WorkerAction::ReadFile(
            p,
        ) && packet.path@ == PathModel::Local(p@)),
        !is_supported(packet.algorithm) || packet.path@ is Remote ==> (r matches WorkerAction::Reply(
            m,
        ) && m@ == failed_reply()),
{
    let supported = match packet.algorithm {
        HashAlgorithms::SHAKE128 | HashAlgorithms::SHAKE256 | HashAlgorithms::UNIMPLEMENTED => false,
        _ => true,
    };
    match &packet.path {
        FilePath::Local(p) => {
            if supported {
                WorkerAction::ReadFile(p.clone())
            } else {
                WorkerAction::Reply(ProtocolMessage::TaskResponse(TaskResponse::Failed))
            }
        },
        FilePath::Remote(_) => WorkerAction::Reply(
            ProtocolMessage::TaskResponse(TaskResponse::Failed),
        ),
    }
}

/// The outcome of a task once its file has been read: the lowercase hex
/// digest of the contents, `Io` when the file could not be read, or
/// `NotImplemented` for an unsupported algorithm.
pub fn task_outcome(alg: HashAlgorithms, contents: Result<Vec<u8>, std::io::Error>) -> (r: Result<
    String,
    HashError,
>)
    ensures
        contents is Ok && is_supported(alg) ==> (r matches Ok(h) && h@ == hex_of(
            digest_of(alg, contents->Ok_0@),
        )),
        contents is Ok && !is_supported(alg) ==> r matches Err(HashError::NotImplemented),
        contents is Err ==> r matches Err(HashError::Io(_)),
{
    match contents {
        Ok(data) => hash_contents(alg, data.as_slice()),
        Err(e) => Err(HashError::Io(e)),
    }
}

/// The reply for an outcome: `Success` with the digest, or `Failed` for every
/// error, with no detail of it.
pub fn response_for(outcome: Result<String, HashError>) -> (r: ProtocolMessage)
    ensures
        match outcome {
            Ok(h) => r@ == MessageModel::TaskResponse(ResponseModel::Success(h@)),
            Err(_) => r@ == failed_reply(),
        },
{
    match outcome {
        Ok(h) => ProtocolMessage::TaskResponse(TaskResponse::Success(h)),
        Err(_) => ProtocolMessage::TaskResponse(TaskResponse::Failed),
    }
}

/// A wire number that names no algorithm reads as `UNIMPLEMENTED`, which no
/// worker supports, so a request carrying it is answered with `Failed`.
pub proof fn lemma_unknown_algorithm_fails(t: nat)
    requires
        t > 12,
    ensures
        algorithm_of_tag(t) == HashAlgorithms::UNIMPLEMENTED,
        !is_supported(algorithm_of_tag(t)),
{
}

} // verus!
