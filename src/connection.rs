//! The decisions of a connection handler, as a state machine.
//!
//! The handler reads a frame, hands the request it carries to the dispatch
//! queue, waits for the worker's reply, writes it back, and starts over. It
//! never reads the next frame before the current reply has been written.
//! Whoever drives a connection performs each [`ConnAction`] and reports what
//! came of it as a [`ConnEvent`]; [`step`] says what to do next.
use crate::constants::{MAX_PACKET_SIZE, MIN_PACKET_SIZE};
use crate::protocol::{
    decode_header, deserialize, frame_wire, header_result, message_wire, parse_message,
    HashingPacket, MessageModel, PacketModel, ProtocolError, ProtocolMessage, RequestModel,
    ResponseModel, TaskRequest, TaskResponse,
};
use crate::wire::be_value;
use vstd::prelude::*;

verus! {

/// Where a connection stands.
#[derive(Debug, PartialEq, Eq, Clone, Copy, Structural)]
pub enum ConnState {
    /// Waiting for the four header bytes of the next frame.
    AwaitHeader,
    /// Waiting for a payload of this many bytes.
    AwaitPayload(usize),
    /// Handing a request to the dispatch queue.
    Dispatching,
    /// Waiting for the worker's reply.
    AwaitResult,
    /// Writing a reply to the client.
    WriteResponse,
    /// Done; the connection is to be dropped.
    Closed,
}

/// What came of the last action.
#[derive(Debug)]
pub enum ConnEvent {
    /// The header bytes that were read.
    HeaderRead(Vec<u8>),
    /// The payload bytes that were read.
    PayloadRead(Vec<u8>),
    /// A read failed (`Io`) or the frame deadline passed (`TimeOutError`).
    ReadFailed(ProtocolError),
    /// Whether the dispatch queue took the request.
    Submitted(bool),
    /// The worker's reply, or `None` when the reply channel was dropped.
    Replied(Option<ProtocolMessage>),
    /// Whether the whole response was written.
    Written(bool),
}

/// What the driver of a connection must do next.
#[derive(Debug)]
pub enum ConnAction {
    /// Read exactly this many bytes, within the deadline of the current frame.
    ReadExact(usize),
    /// Put the packet on the dispatch queue, waiting for room if it is full.
    Submit(HashingPacket),
    /// Wait for the reply to the submitted task.
    AwaitReply,
    /// Write these bytes to the client.
    Write(Vec<u8>),
    /// Drop the connection, for this reason.
    Close(ProtocolError),
}

/// What a [`ConnEvent`] reports.
pub ghost enum EventModel {
    HeaderRead(Seq<u8>),
    PayloadRead(Seq<u8>),
    ReadFailed(ProtocolError),
    Submitted(bool),
    Replied(Option<MessageModel>),
    Written(bool),
}

/// What a [`ConnAction`] asks for.
pub ghost enum ActionModel {
    ReadExact(nat),
    Submit(PacketModel),
    AwaitReply,
    Write(Seq<u8>),
    Close(ProtocolError),
}

impl View for ConnEvent {
    type V = EventModel;

    open spec fn view(&self) -> EventModel {
        match self {
            ConnEvent::HeaderRead(h) => EventModel::HeaderRead(h@),
            ConnEvent::PayloadRead(p) => EventModel::PayloadRead(p@),
            ConnEvent::ReadFailed(e) => EventModel::ReadFailed(*e),
            ConnEvent::Submitted(ok) => EventModel::Submitted(*ok),
            ConnEvent::Replied(reply) => EventModel::Replied(
                match reply {
                    Some(m) => Some(m@),
                    None => None,
                },
            ),
            ConnEvent::Written(ok) => EventModel::Written(*ok),
        }
    }
}

impl View for ConnAction {
    type V = ActionModel;

    open spec fn view(&self) -> ActionModel {
        match self {
            ConnAction::ReadExact(n) => ActionModel::ReadExact(*n as nat),
            ConnAction::Submit(p) => ActionModel::Submit(p@),
            ConnAction::AwaitReply => ActionModel::AwaitReply,
            ConnAction::Write(v) => ActionModel::Write(v@),
            ConnAction::Close(e) => ActionModel::Close(*e),
        }
    }
}

/// The transition of a connection: its next state, and what to do next.
pub open spec fn next(state: ConnState, event: EventModel) -> (ConnState, ActionModel) {
    match event {
        EventModel::HeaderRead(h) => match header_result(h) {
            Ok(n) => (ConnState::AwaitPayload(n as usize), ActionModel::ReadExact(n)),
            Err(e) => (ConnState::Closed, ActionModel::Close(e)),
        },
        EventModel::PayloadRead(p) => match parse_message(p) {
            None => (ConnState::Closed, ActionModel::Close(ProtocolError::Malformed)),
            Some(MessageModel::TaskResponse(_)) => (
                ConnState::AwaitHeader,
                ActionModel::ReadExact(MIN_PACKET_SIZE as nat),
            ),
            Some(MessageModel::TaskRequest(RequestModel::HashPacket(pk))) => (
                ConnState::Dispatching,
                ActionModel::Submit(pk),
            ),
        },
        EventModel::ReadFailed(e) => (ConnState::Closed, ActionModel::Close(e)),
        EventModel::Submitted(ok) => if ok {
            (ConnState::AwaitResult, ActionModel::AwaitReply)
        } else {
            (ConnState::WriteResponse, ActionModel::Write(failed_frame()))
        },
        EventModel::Replied(reply) => (ConnState::WriteResponse, ActionModel::Write(reply_frame(reply))),
        EventModel::Written(ok) => if ok {
            (ConnState::AwaitHeader, ActionModel::ReadExact(MIN_PACKET_SIZE as nat))
        } else {
            (ConnState::Closed, ActionModel::Close(ProtocolError::Io))
        },
    }
}

/// Whether `event` can answer the action that led to `state`.
pub open spec fn expects(state: ConnState, event: EventModel) -> bool {
    match (state, event) {
        (ConnState::AwaitHeader, EventModel::HeaderRead(_)) => true,
        (ConnState::AwaitPayload(n), EventModel::PayloadRead(p)) => p.len() == n,
        (ConnState::AwaitHeader, EventModel::ReadFailed(e)) => e is Io || e is TimeOutError,
        (ConnState::AwaitPayload(_), EventModel::ReadFailed(e)) => e is Io || e is TimeOutError,
        (ConnState::Dispatching, EventModel::Submitted(_)) => true,
        (ConnState::AwaitResult, EventModel::Replied(_)) => true,
        (ConnState::WriteResponse, EventModel::Written(_)) => true,
        _ => false,
    }
}

/// The frame that carries a `Failed` reply.
pub open spec fn failed_frame() -> Seq<u8> {
    frame_wire(message_wire(MessageModel::TaskResponse(ResponseModel::Failed)))
}

/// The frame written back for a worker's reply: the reply itself, or
/// `Failed` when there is none or it does not fit in a frame.
pub open spec fn reply_frame(reply: Option<MessageModel>) -> Seq<u8> {
    match reply {
        Some(m) => if message_wire(m).len() <= MAX_PACKET_SIZE {
            frame_wire(message_wire(m))
        } else {
            failed_frame()
        },
        None => failed_frame(),
    }
}

impl ConnState {
    /// Whether `event` can answer the action that led to this state.
    pub fn expects(&self, event: &ConnEvent) -> (r: bool)
        ensures
            r == expects(*self, event@),
    {
        match (self, event) {
            (ConnState::AwaitHeader, ConnEvent::HeaderRead(_)) => true,
            (ConnState::AwaitPayload(n), ConnEvent::PayloadRead(p)) => p.len() == *n,
            (ConnState::AwaitHeader, ConnEvent::ReadFailed(e)) => {
                matches!(e, ProtocolError::Io | ProtocolError::TimeOutError)
            },
            (ConnState::AwaitPayload(_), ConnEvent::ReadFailed(e)) => {
                matches!(e, ProtocolError::Io | ProtocolError::TimeOutError)
            },
            (ConnState::Dispatching, ConnEvent::Submitted(_)) => true,
            (ConnState::AwaitResult, ConnEvent::Replied(_)) => true,
            (ConnState::WriteResponse, ConnEvent::Written(_)) => true,
            _ => false,
        }
    }
}

/// A new connection: read the header of the first frame.
pub fn start() -> (r: (ConnState, ConnAction))
    ensures
        r.0 == ConnState::AwaitHeader,
        r.1 matches ConnAction::ReadExact(n) && n == MIN_PACKET_SIZE,
{
    (ConnState::AwaitHeader, ConnAction::ReadExact(MIN_PACKET_SIZE))
}

/// The frame carrying a `Failed` reply.
fn failed_packet() -> (r: Vec<u8>)
    ensures
        r@ == failed_frame(),
{
    let m = ProtocolMessage::TaskResponse(TaskResponse::Failed);
    proof {
        crate::wire::lemma_be_bytes_len(1, 4);
    }
    match m.into_packet() {
        Ok(v) => v,
        Err(_) => Vec::new(),
    }
}

/// The next state of a connection and what to do, given what came of the
/// last action.
///
/// A header that is short or announces more than `MAX_PACKET_SIZE` bytes
/// closes the connection before any payload is read; so do a failed read, a
/// timeout and a payload that is not a message. A response that arrives from
/// the client is ignored and the next frame is read. A request goes to the
/// queue; its reply is written back, and a request whose reply cannot be had
/// is answered with `Failed`. A failed write closes the connection.
pub fn step(state: ConnState, event: ConnEvent) -> (r: (ConnState, ConnAction))
    requires
        expects(state, event@),
    ensures
        (r.0, r.1@) == next(state, event@),
{
    match event {
        ConnEvent::HeaderRead(h) => match decode_header(h.as_slice()) {
            Ok(n) => (ConnState::AwaitPayload(n), ConnAction::ReadExact(n)),
            Err(e) => (ConnState::Closed, ConnAction::Close(e)),
        },
        ConnEvent::PayloadRead(p) => match deserialize(p.as_slice()) {
            Ok(ProtocolMessage::TaskRequest(TaskRequest::HashPacket(packet))) => {
                (ConnState::Dispatching, ConnAction::Submit(packet))
            },
            Ok(ProtocolMessage::TaskResponse(_)) => {
                (ConnState::AwaitHeader, ConnAction::ReadExact(MIN_PACKET_SIZE))
            },
            Err(e) => (ConnState::Closed, ConnAction::Close(e)),
        },
        ConnEvent::ReadFailed(e) => (ConnState::Closed, ConnAction::Close(e)),
        ConnEvent::Submitted(ok) => {
            if ok {
                (ConnState::AwaitResult, ConnAction::AwaitReply)
            } else {
                (ConnState::WriteResponse, ConnAction::Write(failed_packet()))
            }
        },
        ConnEvent::Replied(reply) => {
            let frame = match reply {
                Some(m) => match m.into_packet() {
                    Ok(v) => v,
                    Err(_) => failed_packet(),
                },
                None => failed_packet(),
            };
            (ConnState::WriteResponse, ConnAction::Write(frame))
        },
        ConnEvent::Written(ok) => {
            if ok {
                (ConnState::AwaitHeader, ConnAction::ReadExact(MIN_PACKET_SIZE))
            } else {
                (ConnState::Closed, ConnAction::Close(ProtocolError::Io))
            }
        },
    }
}

/// A header of fewer than four bytes closes the connection with
/// `PacketTooShort`.
pub proof fn lemma_short_header_closes(h: Seq<u8>)
    requires
        h.len() < 4,
    ensures
        header_result(h) == Err::<nat, ProtocolError>(ProtocolError::PacketTooShort),
        next(ConnState::AwaitHeader, EventModel::HeaderRead(h)) == (
            ConnState::Closed,
            ActionModel::Close(ProtocolError::PacketTooShort),
        ),
{
}

/// A header announcing more than `MAX_PACKET_SIZE` bytes closes the
/// connection with `PacketTooLarge` and asks for no read of the payload.
pub proof fn lemma_oversized_header_closes(h: Seq<u8>)
    requires
        h.len() >= 4,
        be_value(h.subrange(0, 4)) > MAX_PACKET_SIZE,
    ensures
        next(ConnState::AwaitHeader, EventModel::HeaderRead(h)) == (
            ConnState::Closed,
            ActionModel::Close(ProtocolError::PacketTooLarge(be_value(h.subrange(0, 4)) as usize)),
        ),
        !(next(ConnState::AwaitHeader, EventModel::HeaderRead(h)).1 is ReadExact),
{
}

/// Once a request has been taken, nothing more is read from the client until
/// the response to it has been written, and the connection is not closed
/// before a response has been produced for it.
pub proof fn lemma_no_read_before_response(state: ConnState, event: EventModel)
    requires
        state is Dispatching || state is AwaitResult || state is WriteResponse,
        expects(state, event),
        !(event == EventModel::Written(true)),
    ensures
        !(next(state, event).1 is ReadExact),
        next(state, event).0 is AwaitResult || next(state, event).0 is WriteResponse
            || next(state, event).0 is Closed,
        state is Dispatching || state is AwaitResult ==> !(next(state, event).0 is Closed),
{
}

} // verus!
