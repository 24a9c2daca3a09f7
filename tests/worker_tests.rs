use task_scheduler::crypto::{digest_bytes, hash_contents, to_hex, HashError};
use task_scheduler::protocol::{HashingPacket, ProtocolMessage, TaskResponse};
use task_scheduler::workers::{begin_task, response_for, task_outcome, Task, WorkerAction};
use task_scheduler::{FilePath, HashAlgorithms, ServerMetrics};

fn hex_of_abc(alg: HashAlgorithms) -> String {
    hash_contents(alg, b"abc").unwrap()
}

#[test]
fn hex_is_lowercase_two_digits_per_byte() {
    assert_eq!(to_hex(&[]), "");
    assert_eq!(to_hex(&[0x00, 0x0f, 0xa0, 0xff, 0x5c]), "000fa0ff5c");
}

#[test]
fn sha2_digests_of_abc() {
    assert_eq!(hex_of_abc(HashAlgorithms::SHA224), "23097d223405d8228642a477bda255b32aadbce4bda0b3f7e36c9da7");
    assert_eq!(
        hex_of_abc(HashAlgorithms::SHA256),
        "ba7816bf8f01cfea414140de5dae2223b00361a396177a9cb410ff61f20015ad"
    );
    assert_eq!(
        hex_of_abc(HashAlgorithms::SHA384),
        "cb00753f45a35e8bb5a03d699ac65007272c32ab0eded1631a8b605a43ff5bed8086072ba1e7cc2358baeca134c825a7"
    );
    assert_eq!(
        hex_of_abc(HashAlgorithms::SHA512),
        "ddaf35a193617abacc417349ae20413112e6fa4e89a97ea20a9eeee64b55d39a2192992a274fc1a836ba3c23a3feebbd454d4423643ce80e2a9ac94fa54ca49f"
    );
    assert_eq!(hex_of_abc(HashAlgorithms::SHA512_224), "4634270f707b6a54daae7530460842e20e37ed265ceee9a43e8924aa");
    assert_eq!(
        hex_of_abc(HashAlgorithms::SHA512_256),
        "53048e2681941ef99b2e29b76b4c7dabe4c2d0c634fc6d46e0e2f13107e7af23"
    );
}

#[test]
fn sha3_digests_of_abc() {
    assert_eq!(hex_of_abc(HashAlgorithms::SHA3_224), "e642824c3f8cf24ad09234ee7d3c766fc9a3a5168d0c94ad73b46fdf");
    assert_eq!(
        hex_of_abc(HashAlgorithms::SHA3_256),
        "3a985da74fe225b2045c172d6bd390bd855f086e3e9d525b46bfe24511431532"
    );
    assert_eq!(
        hex_of_abc(HashAlgorithms::SHA3_384),
        "ec01498288516fc926459f58e2c6ad8df9b473cb0fc08c2596da7cf0e49be4b298d88cea927ac7f539f1edf228376d25"
    );
    assert_eq!(
        hex_of_abc(HashAlgorithms::SHA3_512),
        "b751850b1a57168a5693cd924b6b096e08f621827444f70d884f5d0240d2712e10e116e9192af3c91a7ec57647e3934057340b4cf408d5a56592f8274eec53f0"
    );
}

#[test]
fn blake3_digest_of_abc() {
    assert_eq!(
        hex_of_abc(HashAlgorithms::BLAKE3),
        "6437b3ac38465133ffb63b75273a8db548c558465d79db03fd359c6cd5bd9d85"
    );
}

#[test]
fn digest_lengths() {
    assert_eq!(digest_bytes(HashAlgorithms::SHA256, b"").unwrap().len(), 32);
    assert_eq!(digest_bytes(HashAlgorithms::SHA3_384, b"x").unwrap().len(), 48);
    assert_eq!(digest_bytes(HashAlgorithms::SHA512_224, b"x").unwrap().len(), 28);
    assert_eq!(hash_contents(HashAlgorithms::SHA512, b"").unwrap().len(), 128);
    assert_eq!(
        hash_contents(HashAlgorithms::SHA256, b"").unwrap(),
        "e3b0c44298fc1c149afbf4c8996fb92427ae41e4649b934ca495991b7852b855"
    );
}

#[test]
fn unsupported_algorithms_are_not_implemented() {
    for alg in [HashAlgorithms::SHAKE128, HashAlgorithms::SHAKE256, HashAlgorithms::UNIMPLEMENTED] {
        assert!(digest_bytes(alg, b"abc").is_none());
        assert!(matches!(hash_contents(alg, b"abc"), Err(HashError::NotImplemented)));
    }
}

#[test]
fn local_supported_task_asks_for_the_file() {
    let packet = HashingPacket {
        algorithm: HashAlgorithms::SHA256,
        path: FilePath::Local(String::from("/etc/hostname")),
    };
    assert!(matches!(begin_task(&packet), WorkerAction::ReadFile(p) if p == "/etc/hostname"));
}

#[test]
fn remote_or_unimplemented_task_fails_at_once() {
    let remote = HashingPacket { algorithm: HashAlgorithms::SHA256, path: FilePath::Remote(String::from("http://x")) };
    assert!(matches!(
        begin_task(&remote),
        WorkerAction::Reply(ProtocolMessage::TaskResponse(TaskResponse::Failed))
    ));
    let unimplemented = HashingPacket {
        algorithm: HashAlgorithms::UNIMPLEMENTED,
        path: FilePath::Local(String::from("/etc/hostname")),
    };
    assert!(matches!(
        begin_task(&unimplemented),
        WorkerAction::Reply(ProtocolMessage::TaskResponse(TaskResponse::Failed))
    ));
    let shake = HashingPacket { algorithm: HashAlgorithms::SHAKE128, path: FilePath::Local(String::from("/dev/zero")) };
    assert!(matches!(
        begin_task(&shake),
        WorkerAction::Reply(ProtocolMessage::TaskResponse(TaskResponse::Failed))
    ));
}

#[test]
fn outcome_of_read_file() {
    let ok = task_outcome(HashAlgorithms::SHA256, Ok(b"abc".to_vec()));
    assert_eq!(ok.as_ref().unwrap(), "ba7816bf8f01cfea414140de5dae2223b00361a396177a9cb410ff61f20015ad");
    let reply = response_for(ok);
    assert!(matches!(
        reply,
        ProtocolMessage::TaskResponse(TaskResponse::Success(h)) if h == "ba7816bf8f01cfea414140de5dae2223b00361a396177a9cb410ff61f20015ad"
    ));
    let missing = std::io::Error::new(std::io::ErrorKind::NotFound, "missing");
    let err = task_outcome(HashAlgorithms::SHA256, Err(missing));
    assert!(matches!(err, Err(HashError::Io(_))));
    assert!(matches!(response_for(err), ProtocolMessage::TaskResponse(TaskResponse::Failed)));
    let unsupported = task_outcome(HashAlgorithms::SHAKE256, Ok(b"abc".to_vec()));
    assert!(matches!(unsupported, Err(HashError::NotImplemented)));
    assert!(matches!(response_for(unsupported), ProtocolMessage::TaskResponse(TaskResponse::Failed)));
}

#[test]
fn task_kinds_and_metrics() {
    assert_ne!(Task::Hashing, Task::Other);
    let metrics = ServerMetrics::new();
    assert_eq!(metrics.processed_tasks.load(std::sync::atomic::Ordering::SeqCst), 0);
    assert_eq!(metrics.active_connections.load(std::sync::atomic::Ordering::SeqCst), 0);
}
