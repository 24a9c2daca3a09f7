use task_scheduler::connection::{start, step, ConnAction, ConnEvent, ConnState};
use task_scheduler::protocol::{
    decode_packet, HashingPacket, ProtocolError, ProtocolMessage, TaskRequest, TaskResponse,
};
use task_scheduler::workers::{begin_task, response_for, task_outcome, WorkItem, WorkerAction};
use task_scheduler::{FilePath, HashAlgorithms};

fn frame_of(msg: &ProtocolMessage) -> Vec<u8> {
    msg.into_packet().unwrap()
}

/// Feeds a whole request frame to a fresh connection and returns the state
/// and action that follow its payload.
fn read_request(frame: &[u8]) -> (ConnState, ConnAction) {
    let (state, action) = start();
    assert!(matches!(action, ConnAction::ReadExact(4)));
    let (state, action) = step(state, ConnEvent::HeaderRead(frame[..4].to_vec()));
    let n = match action {
        ConnAction::ReadExact(n) => n,
        other => panic!("expected a payload read, got {:?}", other),
    };
    assert_eq!(n, frame.len() - 4);
    step(state, ConnEvent::PayloadRead(frame[4..].to_vec()))
}

fn reply_for(packet: &HashingPacket, contents: &[u8]) -> ProtocolMessage {
    match begin_task(packet) {
        WorkerAction::ReadFile(_) => response_for(task_outcome(packet.algorithm, Ok(contents.to_vec()))),
        WorkerAction::Reply(m) => m,
    }
}

#[test]
fn scenario_local_sha256_succeeds() {
    let msg = ProtocolMessage::TaskRequest(TaskRequest::HashPacket(HashingPacket {
        algorithm: HashAlgorithms::SHA256,
        path: FilePath::Local(String::from("/etc/hostname")),
    }));
    let (state, action) = read_request(&frame_of(&msg));
    assert_eq!(state, ConnState::Dispatching);
    let packet = match action {
        ConnAction::Submit(p) => p,
        other => panic!("expected a submission, got {:?}", other),
    };
    assert!(matches!(packet.path(), FilePath::Local(p) if p == "/etc/hostname"));
    let (state, action) = step(state, ConnEvent::Submitted(true));
    assert_eq!(state, ConnState::AwaitResult);
    assert!(matches!(action, ConnAction::AwaitReply));
    let reply = reply_for(&packet, b"abc");
    let (state, action) = step(state, ConnEvent::Replied(Some(reply)));
    assert_eq!(state, ConnState::WriteResponse);
    let bytes = match action {
        ConnAction::Write(v) => v,
        other => panic!("expected a write, got {:?}", other),
    };
    match decode_packet(&bytes).unwrap() {
        ProtocolMessage::TaskResponse(TaskResponse::Success(h)) => {
            assert_eq!(h.len(), 64);
            assert!(h.chars().all(|c| c.is_ascii_hexdigit() && !c.is_ascii_uppercase()));
            assert_eq!(h, "ba7816bf8f01cfea414140de5dae2223b00361a396177a9cb410ff61f20015ad");
        }
        other => panic!("expected success, got {:?}", other),
    }
    let (state, action) = step(state, ConnEvent::Written(true));
    assert_eq!(state, ConnState::AwaitHeader);
    assert!(matches!(action, ConnAction::ReadExact(4)));
}

#[test]
fn scenario_remote_path_fails() {
    let msg = ProtocolMessage::TaskRequest(TaskRequest::HashPacket(HashingPacket {
        algorithm: HashAlgorithms::SHA256,
        path: FilePath::Remote(String::from("http://x")),
    }));
    let (state, action) = read_request(&frame_of(&msg));
    let packet = match action {
        ConnAction::Submit(p) => p,
        other => panic!("expected a submission, got {:?}", other),
    };
    let (state, _) = step(state, ConnEvent::Submitted(true));
    let reply = reply_for(&packet, b"");
    let (_, action) = step(state, ConnEvent::Replied(Some(reply)));
    match action {
        ConnAction::Write(v) => assert_eq!(v, vec![0, 0, 0, 8, 0, 0, 0, 1, 0, 0, 0, 1]),
        other => panic!("expected a write, got {:?}", other),
    }
}

#[test]
fn scenario_slow_client_times_out() {
    let (state, _) = start();
    let (state, action) = step(state, ConnEvent::HeaderRead(65000u32.to_be_bytes().to_vec()));
    assert_eq!(state, ConnState::AwaitPayload(65000));
    assert!(matches!(action, ConnAction::ReadExact(65000)));
    let (state, action) = step(state, ConnEvent::ReadFailed(ProtocolError::TimeOutError));
    assert_eq!(state, ConnState::Closed);
    assert!(matches!(action, ConnAction::Close(ProtocolError::TimeOutError)));
}

#[test]
fn scenario_oversized_header_closes_at_once() {
    let (state, _) = start();
    let (state, action) = step(state, ConnEvent::HeaderRead(2_000_000u32.to_be_bytes().to_vec()));
    assert_eq!(state, ConnState::Closed);
    assert!(matches!(action, ConnAction::Close(ProtocolError::PacketTooLarge(2_000_000))));
}

#[test]
fn short_header_closes() {
    let (state, action) = step(ConnState::AwaitHeader, ConnEvent::HeaderRead(vec![0, 1]));
    assert_eq!(state, ConnState::Closed);
    assert!(matches!(action, ConnAction::Close(ProtocolError::PacketTooShort)));
}

#[test]
fn junk_payload_closes_without_reply() {
    let junk: Vec<u8> = (0..100u32).map(|i| (i * 37 + 11) as u8).collect();
    let (state, action) = step(ConnState::AwaitPayload(100), ConnEvent::PayloadRead(junk));
    assert_eq!(state, ConnState::Closed);
    assert!(matches!(action, ConnAction::Close(ProtocolError::Malformed)));
}

#[test]
fn response_from_client_is_ignored() {
    let msg = ProtocolMessage::TaskResponse(TaskResponse::Failed);
    let (state, action) = read_request(&frame_of(&msg));
    assert_eq!(state, ConnState::AwaitHeader);
    assert!(matches!(action, ConnAction::ReadExact(4)));
}

#[test]
fn io_failures() {
    let (state, action) = step(ConnState::AwaitHeader, ConnEvent::ReadFailed(ProtocolError::Io));
    assert_eq!(state, ConnState::Closed);
    assert!(matches!(action, ConnAction::Close(ProtocolError::Io)));
    let (state, action) = step(ConnState::WriteResponse, ConnEvent::Written(false));
    assert_eq!(state, ConnState::Closed);
    assert!(matches!(action, ConnAction::Close(ProtocolError::Io)));
}

#[test]
fn lost_reply_or_closed_queue_answers_failed() {
    let failed = vec![0, 0, 0, 8, 0, 0, 0, 1, 0, 0, 0, 1];
    let (state, action) = step(ConnState::AwaitResult, ConnEvent::Replied(None));
    assert_eq!(state, ConnState::WriteResponse);
    assert!(matches!(action, ConnAction::Write(v) if v == failed));
    let (state, action) = step(ConnState::Dispatching, ConnEvent::Submitted(false));
    assert_eq!(state, ConnState::WriteResponse);
    assert!(matches!(action, ConnAction::Write(v) if v == failed));
    let huge = ProtocolMessage::TaskResponse(TaskResponse::Success("0".repeat(2_000_000)));
    let (_, action) = step(ConnState::AwaitResult, ConnEvent::Replied(Some(huge)));
    assert!(matches!(action, ConnAction::Write(v) if v == failed));
}

#[test]
fn expected_events() {
    assert!(ConnState::AwaitHeader.expects(&ConnEvent::HeaderRead(vec![0, 0, 0, 1])));
    assert!(ConnState::AwaitPayload(2).expects(&ConnEvent::PayloadRead(vec![1, 2])));
    assert!(!ConnState::AwaitPayload(3).expects(&ConnEvent::PayloadRead(vec![1, 2])));
    assert!(!ConnState::AwaitHeader.expects(&ConnEvent::Written(true)));
    assert!(!ConnState::Closed.expects(&ConnEvent::Submitted(true)));
    assert!(!ConnState::AwaitHeader.expects(&ConnEvent::ReadFailed(ProtocolError::Malformed)));
    assert!(ConnState::AwaitPayload(9).expects(&ConnEvent::ReadFailed(ProtocolError::TimeOutError)));
}

#[test]
fn work_item_carries_its_packet_and_reply_channel() {
    let (tx, mut rx) = tokio::sync::oneshot::channel::<ProtocolMessage>();
    let packet = HashingPacket { algorithm: HashAlgorithms::BLAKE3, path: FilePath::Local(String::from("/x")) };
    let item = WorkItem::new(packet, tx);
    assert_eq!(item.packet().algorithm, HashAlgorithms::BLAKE3);
    let (packet, responder) = item.into_parts();
    assert!(matches!(packet.path, FilePath::Local(p) if p == "/x"));
    responder.send(ProtocolMessage::TaskResponse(TaskResponse::Failed)).unwrap();
    assert!(matches!(rx.try_recv(), Ok(ProtocolMessage::TaskResponse(TaskResponse::Failed))));
}
