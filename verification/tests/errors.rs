use p2p_error::error::{ErrorKind, P2pError, ReaderError};
use p2p_error::text::u64_to_string;

#[test]
fn render_semantic_variants_exactly() {
    assert_eq!(P2pError::Disconnected.message(), "Peer disconnected");
    assert_eq!(P2pError::InvalidHandshake.message(), "Invalid handshake");
    assert_eq!(P2pError::ExpectedHandshake.message(), "Expected Handshake packet");
    assert_eq!(P2pError::InvalidNetworkID.message(), "Invalid network ID");
    assert_eq!(P2pError::InvalidPacket.message(), "Invalid packet ID");
    assert_eq!(P2pError::InvalidPacketSize.message(), "Packet size exceed limit");
    assert_eq!(
        P2pError::InvalidPacketNotFullRead.message(),
        "Received valid packet with not used bytes"
    );
    assert_eq!(P2pError::RequestSyncChainTooFast.message(), "Request sync chain too fast");
}

#[test]
fn render_invalid_peer_address() {
    let e = P2pError::InvalidPeerAddress("10.0.0.5:9000".to_string());
    assert_eq!(e.message(), "Invalid peer address, 10.0.0.5:9000");
}

#[test]
fn render_peer_id_already_used() {
    let e = P2pError::PeerIdAlreadyUsed(42);
    assert_eq!(e.message(), "Peer id 42 is already used!");
}

#[test]
fn render_peer_already_connected() {
    let e = P2pError::PeerAlreadyConnected("127.0.0.1:2125".to_string());
    assert_eq!(e.message(), "Peer already connected: 127.0.0.1:2125");
}

#[test]
fn render_nonempty_and_payload_verbatim() {
    let addr = "192.168.1.9:7000";
    let cases = vec![
        P2pError::Disconnected,
        P2pError::InvalidHandshake,
        P2pError::ExpectedHandshake,
        P2pError::InvalidPeerAddress(addr.to_string()),
        P2pError::InvalidNetworkID,
        P2pError::PeerIdAlreadyUsed(9007),
        P2pError::PeerAlreadyConnected(addr.to_string()),
        P2pError::PoisonError("a holder failed".to_string()),
        P2pError::SendError("receiver gone".to_string()),
        P2pError::InvalidPacket,
        P2pError::InvalidPacketSize,
        P2pError::InvalidPacketNotFullRead,
        P2pError::RequestSyncChainTooFast,
    ];
    for e in &cases {
        assert!(!e.message().is_empty());
    }
    assert!(P2pError::InvalidPeerAddress(addr.to_string()).message().contains(addr));
    assert!(P2pError::PeerAlreadyConnected(addr.to_string()).message().contains(addr));
    assert!(P2pError::PoisonError("a holder failed".to_string()).message().contains("a holder failed"));
    assert!(P2pError::SendError("receiver gone".to_string()).message().contains("receiver gone"));
    assert!(P2pError::PeerIdAlreadyUsed(9007).message().contains("9007"));
}

#[test]
fn decimal_rendering_exact() {
    assert_eq!(u64_to_string(0), "0");
    assert_eq!(u64_to_string(7), "7");
    assert_eq!(u64_to_string(10), "10");
    assert_eq!(u64_to_string(42), "42");
    assert_eq!(u64_to_string(90210), "90210");
    assert_eq!(u64_to_string(u64::MAX), "18446744073709551615");
}

#[test]
fn io_failure_conversion() {
    let cause = std::io::Error::new(std::io::ErrorKind::ConnectionReset, "socket closed by peer");
    let expected = cause.to_string();
    let e = P2pError::from_io_error(cause);
    assert_eq!(e.kind(), ErrorKind::ErrorStd);
    assert!(matches!(e, P2pError::ErrorStd(..)));
    let kept = e.io_cause().expect("the I/O cause must stay retrievable");
    assert_eq!(kept.to_string(), expected);
    assert_eq!(e.message(), expected);
}

#[test]
fn slice_failure_conversion() {
    let bytes: [u8; 3] = [1, 2, 3];
    let failed: Result<[u8; 4], _> = <[u8; 4]>::try_from(&bytes[..]);
    let cause = failed.unwrap_err();
    let expected = cause.to_string();
    let e = P2pError::from_slice_error(cause);
    assert_eq!(e.kind(), ErrorKind::TryInto);
    assert!(matches!(e, P2pError::TryInto(..)));
    let kept = e.slice_cause().expect("the conversion cause must stay retrievable");
    assert_eq!(kept.to_string(), expected);
    assert_eq!(e.message(), expected);
}

#[test]
fn poison_failure_conversion() {
    let cause = std::sync::PoisonError::new(5u32);
    let rendered = cause.to_string();
    let e = P2pError::from_poison_error(cause);
    assert_eq!(e.kind(), ErrorKind::PoisonError);
    match &e {
        P2pError::PoisonError(text) => assert_eq!(text, &rendered),
        other => panic!("expected the poison tag, got {:?}", other),
    }
    assert_eq!(e.message(), format!("Poison Error: {}", rendered));
}

#[test]
fn send_failures_collapse_to_one_tag() {
    let (tx, rx) = std::sync::mpsc::channel::<u64>();
    drop(rx);
    let blocking_cause = tx.send(99).unwrap_err();
    let blocking = P2pError::from_send_error(blocking_cause);

    let (atx, arx) = tokio::sync::mpsc::channel::<u64>(1);
    drop(arx);
    let async_cause = atx.blocking_send(99).unwrap_err();
    let asynchronous = P2pError::from_tokio_send_error(async_cause);

    assert_eq!(blocking.kind(), ErrorKind::SendError);
    assert_eq!(asynchronous.kind(), ErrorKind::SendError);
    assert_eq!(blocking.kind(), asynchronous.kind());
    assert!(matches!(blocking, P2pError::SendError(_)));
    assert!(matches!(asynchronous, P2pError::SendError(_)));
    assert_eq!(asynchronous.message(), "Send Error: channel closed");
    assert!(blocking.message().starts_with("Send Error: "));
}

#[test]
fn timeout_conversion_keeps_cause() {
    let runtime = tokio::runtime::Builder::new_current_thread()
        .enable_time()
        .build()
        .expect("a single-threaded runtime must build");
    let elapsed = runtime
        .block_on(async {
            tokio::time::timeout(
                std::time::Duration::from_millis(5),
                std::future::pending::<()>(),
            )
            .await
        })
        .unwrap_err();
    let expected = elapsed.to_string();
    let e = P2pError::from(elapsed);
    assert_eq!(e.kind(), ErrorKind::AsyncTimeOut);
    assert!(matches!(e, P2pError::AsyncTimeOut(_)));
    let kept = e.elapsed_cause().expect("the timeout cause must stay retrievable");
    assert_eq!(kept.to_string(), expected);
    assert_eq!(e.message(), expected);
    assert_eq!(e.message(), "deadline has elapsed");
}

#[test]
fn reader_failure_conversion() {
    let cause = ReaderError::new("packet truncated at byte 17".to_string());
    let e = P2pError::from(cause);
    assert_eq!(e.kind(), ErrorKind::ReaderError);
    let kept = e.reader_cause().expect("the reader cause must stay retrievable");
    assert_eq!(kept.message(), "packet truncated at byte 17");
    assert_eq!(e.message(), "packet truncated at byte 17");
}

#[test]
fn render_is_idempotent() {
    let io_backed =
        P2pError::from_io_error(std::io::Error::new(std::io::ErrorKind::UnexpectedEof, "early eof"));
    let cases = vec![
        P2pError::Disconnected,
        P2pError::InvalidPeerAddress("10.0.0.5:9000".to_string()),
        P2pError::PeerIdAlreadyUsed(42),
        P2pError::PoisonError("poisoned".to_string()),
        P2pError::SendError("closed".to_string()),
        P2pError::ReaderError(ReaderError::new("bad frame".to_string())),
        io_backed,
    ];
    for e in &cases {
        let first = e.message();
        let second = e.message();
        assert_eq!(first, second);
        assert_eq!(second, e.message());
    }
}

#[test]
fn kinds_separate_the_tags() {
    assert_eq!(P2pError::Disconnected.kind(), ErrorKind::Disconnected);
    assert_eq!(P2pError::InvalidHandshake.kind(), ErrorKind::InvalidHandshake);
    assert_eq!(P2pError::ExpectedHandshake.kind(), ErrorKind::ExpectedHandshake);
    assert_eq!(P2pError::InvalidNetworkID.kind(), ErrorKind::InvalidNetworkID);
    assert_eq!(P2pError::InvalidPacket.kind(), ErrorKind::InvalidPacket);
    assert_eq!(P2pError::InvalidPacketSize.kind(), ErrorKind::InvalidPacketSize);
    assert_eq!(
        P2pError::InvalidPacketNotFullRead.kind(),
        ErrorKind::InvalidPacketNotFullRead
    );
    assert_eq!(
        P2pError::RequestSyncChainTooFast.kind(),
        ErrorKind::RequestSyncChainTooFast
    );
    assert_ne!(
        P2pError::Disconnected.kind(),
        P2pError::InvalidHandshake.kind()
    );
    assert_ne!(
        P2pError::PoisonError("x".to_string()).kind(),
        P2pError::SendError("x".to_string()).kind()
    );
}
