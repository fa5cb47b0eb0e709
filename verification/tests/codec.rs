//! The framed message codec: round trips, frame sequencing, oversize
//! rejection and the read residue.
use bore_tunnel::frame::{frame_client_msg, frame_server_msg, recv_client_msg, recv_server_msg,
    FrameBuffer, FramePoll};
use bore_tunnel::msg::{decode_client_msg, decode_server_msg, encode_client_msg,
    encode_server_msg, ClientMessage, Error, ServerMessage};

fn client_round_trip(m: &ClientMessage) -> ClientMessage {
    let bytes = encode_client_msg(m);
    decode_client_msg(bytes.as_slice()).expect("payload must decode")
}

fn server_round_trip(m: &ServerMessage) -> ServerMessage {
    let bytes = encode_server_msg(m);
    decode_server_msg(bytes.as_slice()).expect("payload must decode")
}

#[test]
fn round_trip_client_variants() {
    match client_round_trip(&ClientMessage::Authenticate(vec![0x61, 0x62, 0x63])) {
        ClientMessage::Authenticate(t) => assert_eq!(t, vec![0x61, 0x62, 0x63]),
        other => panic!("wrong variant: {:?}", other),
    }
    match client_round_trip(&ClientMessage::Hello(0)) {
        ClientMessage::Hello(p) => assert_eq!(p, 0),
        other => panic!("wrong variant: {:?}", other),
    }
    match client_round_trip(&ClientMessage::Hello(65535)) {
        ClientMessage::Hello(p) => assert_eq!(p, 65535),
        other => panic!("wrong variant: {:?}", other),
    }
    let id: u128 = 0x0123_4567_89ab_cdef_0123_4567_89ab_cdef;
    match client_round_trip(&ClientMessage::Accept(id)) {
        ClientMessage::Accept(got) => assert_eq!(got, id),
        other => panic!("wrong variant: {:?}", other),
    }
}

#[test]
fn round_trip_server_variants() {
    let nonce: u128 = u128::MAX;
    match server_round_trip(&ServerMessage::Challenge(nonce)) {
        ServerMessage::Challenge(n) => assert_eq!(n, nonce),
        other => panic!("wrong variant: {:?}", other),
    }
    match server_round_trip(&ServerMessage::Hello(8080)) {
        ServerMessage::Hello(p) => assert_eq!(p, 8080),
        other => panic!("wrong variant: {:?}", other),
    }
    assert!(matches!(
        server_round_trip(&ServerMessage::Heartbeat),
        ServerMessage::Heartbeat
    ));
    match server_round_trip(&ServerMessage::Connection(7)) {
        ServerMessage::Connection(id) => assert_eq!(id, 7),
        other => panic!("wrong variant: {:?}", other),
    }
    match server_round_trip(&ServerMessage::Error(b"boom".to_vec())) {
        ServerMessage::Error(t) => assert_eq!(t, b"boom".to_vec()),
        other => panic!("wrong variant: {:?}", other),
    }
}

#[test]
fn wire_form_is_tag_then_payload() {
    let bytes = encode_client_msg(&ClientMessage::Hello(0x1f90));
    assert_eq!(bytes, vec![2, 0x1f, 0x90]);
    let framed = frame_client_msg(&ClientMessage::Hello(0x1f90)).unwrap();
    assert_eq!(framed, vec![0, 0, 0, 3, 2, 0x1f, 0x90]);
    let hb = frame_server_msg(&ServerMessage::Heartbeat).unwrap();
    assert_eq!(hb, vec![0, 0, 0, 1, 3]);
}

#[test]
fn unknown_tag_and_malformed_payloads() {
    assert!(matches!(decode_client_msg(&[9, 1, 2]), Err(Error::UnknownTag)));
    assert!(matches!(decode_server_msg(&[77]), Err(Error::UnknownTag)));
    assert!(matches!(decode_client_msg(&[]), Err(Error::Malformed)));
    // A client Hello whose payload is not exactly two bytes.
    assert!(matches!(decode_client_msg(&[2, 1]), Err(Error::Malformed)));
    // A server Connection cut short of its sixteen identifier bytes.
    assert!(matches!(decode_server_msg(&[4, 1, 2, 3]), Err(Error::Malformed)));
    // A Heartbeat with a stray payload byte.
    assert!(matches!(decode_server_msg(&[3, 0]), Err(Error::Malformed)));
}

#[test]
fn frame_sequence_in_order_across_chunks() {
    let sent = [
        ServerMessage::Hello(4242),
        ServerMessage::Heartbeat,
        ServerMessage::Connection(99),
        ServerMessage::Error(b"bye".to_vec()),
    ];
    let mut stream: Vec<u8> = Vec::new();
    for m in &sent {
        stream.extend_from_slice(&frame_server_msg(m).unwrap());
    }
    let mut fb = FrameBuffer::new();
    let mut got: Vec<ServerMessage> = Vec::new();
    // Feed in ragged chunks so frames straddle the feed boundaries.
    for chunk in stream.chunks(3) {
        fb.feed(chunk);
        loop {
            match recv_server_msg(&mut fb) {
                Ok(Some(m)) => got.push(m),
                Ok(None) => break,
                Err(e) => panic!("unexpected error: {:?}", e),
            }
        }
    }
    assert_eq!(got.len(), sent.len());
    assert!(matches!(got[0], ServerMessage::Hello(4242)));
    assert!(matches!(got[1], ServerMessage::Heartbeat));
    assert!(matches!(got[2], ServerMessage::Connection(99)));
    match &got[3] {
        ServerMessage::Error(t) => assert_eq!(t, &b"bye".to_vec()),
        other => panic!("wrong variant: {:?}", other),
    }
}

#[test]
fn oversized_frame_is_refused_without_consuming() {
    // A length prefix of 70 000 (0x00011170), above the 65 536 maximum.
    let mut fb = FrameBuffer::new();
    let header = [0x00, 0x01, 0x11, 0x70, 0xaa, 0xbb];
    fb.feed(&header);
    assert!(matches!(fb.poll_frame(), FramePoll::TooLong));
    // Polling again still refuses: nothing was consumed, no payload was
    // read, and the six fed bytes are all the decoder ever held.
    assert!(matches!(fb.poll_frame(), FramePoll::TooLong));
    assert_eq!(fb.into_residue(), header.to_vec());

    let mut fb2 = FrameBuffer::new();
    fb2.feed(&[0x00, 0x01, 0x11, 0x70]);
    assert!(matches!(recv_client_msg(&mut fb2), Err(Error::Oversized)));
}

#[test]
fn largest_frame_is_accepted() {
    // Exactly the maximum: 65 536 payload bytes pass.
    let mut fb = FrameBuffer::new();
    fb.feed(&[0x00, 0x01, 0x00, 0x00]);
    let payload = vec![5u8; 65536];
    fb.feed(&payload);
    match fb.poll_frame() {
        FramePoll::Payload(p) => assert_eq!(p.len(), 65536),
        other => panic!("expected a payload: {:?}", other),
    }
}

#[test]
fn residue_survives_release() {
    // Two frames and then the opening bytes of a proxied protocol that the
    // reader buffered greedily: the residue must hand them back intact.
    let mut fb = FrameBuffer::new();
    let mut stream: Vec<u8> = Vec::new();
    stream.extend_from_slice(&frame_client_msg(&ClientMessage::Accept(3)).unwrap());
    stream.extend_from_slice(b"GET / HTTP/1.1\r\n");
    fb.feed(&stream);
    assert!(matches!(
        recv_client_msg(&mut fb),
        Ok(Some(ClientMessage::Accept(3)))
    ));
    assert_eq!(fb.into_residue(), b"GET / HTTP/1.1\r\n".to_vec());
}

#[test]
fn partial_frame_stays_pending() {
    let mut fb = FrameBuffer::new();
    fb.feed(&[0, 0, 0, 5, 1, 2]);
    assert!(matches!(fb.poll_frame(), FramePoll::Pending));
    fb.feed(&[3, 4, 5]);
    match fb.poll_frame() {
        FramePoll::Payload(p) => assert_eq!(p, vec![1, 2, 3, 4, 5]),
        other => panic!("expected a payload: {:?}", other),
    }
}

#[test]
fn oversized_message_refused_on_send() {
    let big = vec![0u8; 65536];
    // One tag byte plus 65 536 token bytes exceeds the frame maximum.
    assert!(matches!(
        frame_client_msg(&ClientMessage::Authenticate(big)),
        Err(Error::Oversized)
    ));
}
