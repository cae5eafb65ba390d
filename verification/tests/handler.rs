use framed_echo::codec::{decode_frame, encode_len, MAX_PAYLOAD_LEN};
use framed_echo::handler::{Action, Handler, Input, Phase, ProtoError};

fn read_size(a: Action) -> usize {
    match a {
        Action::Read(n) => n,
        other => panic!("expected a read action, got {:?}", other),
    }
}

fn written_bytes(a: Action) -> Vec<u8> {
    match a {
        Action::Write(b) => b,
        other => panic!("expected a write action, got {:?}", other),
    }
}

fn abort_error(a: Action) -> ProtoError {
    match a {
        Action::Abort(e) => e,
        other => panic!("expected an abort, got {:?}", other),
    }
}

/// Deliver one complete inbound frame and collect the whole response frame.
fn exchange(h: &mut Handler, payload: &[u8]) -> Vec<u8> {
    let n = read_size(h.step(Input::Data(encode_len(payload.len() as u32))));
    assert_eq!(n, payload.len());
    let mut frame = written_bytes(h.step(Input::Data(payload.to_vec())));
    frame.extend(written_bytes(h.step(Input::Written)));
    let n = read_size(h.step(Input::Written));
    assert_eq!(n, 4);
    frame
}

#[test]
fn echo_scenario() {
    let mut h = Handler::new();
    assert_eq!(read_size(h.initial_action()), 4);

    let first = exchange(&mut h, b"Hello, server!");
    assert_eq!(&first[0..4], &[20, 0, 0, 0]);
    assert_eq!(decode_frame(&first), Some(b"ECHO: Hello, server!".to_vec()));

    let second = exchange(&mut h, b"");
    assert_eq!(&second[0..4], &[6, 0, 0, 0]);
    assert_eq!(decode_frame(&second), Some(b"ECHO: ".to_vec()));

    // The peer closes between frames: a quiet end, not an error.
    let a = h.step(Input::Eof { partial: false });
    assert!(matches!(a, Action::Close));
    assert!(h.is_finished());
}

#[test]
fn oversize_is_rejected_before_the_body_is_read() {
    let mut h = Handler::new();
    let a = h.step(Input::Data(encode_len((MAX_PAYLOAD_LEN + 1) as u32)));
    // The connection aborts at once: no read of the declared body is asked for.
    assert_eq!(
        abort_error(a),
        ProtoError::Oversized { declared: (MAX_PAYLOAD_LEN + 1) as u32 }
    );
    assert!(h.is_finished());
}

#[test]
fn largest_allowed_length_is_accepted() {
    let mut h = Handler::new();
    let a = h.step(Input::Data(encode_len(MAX_PAYLOAD_LEN as u32)));
    assert_eq!(read_size(a), MAX_PAYLOAD_LEN);
}

#[test]
fn malformed_body_aborts_without_a_response() {
    let mut h = Handler::new();
    let n = read_size(h.step(Input::Data(encode_len(2))));
    assert_eq!(n, 2);
    // An invalid two-byte sequence: no response frame is ever written.
    let a = h.step(Input::Data(vec![0xC3, 0x28]));
    assert_eq!(abort_error(a), ProtoError::MalformedPayload);
    assert!(h.is_finished());
}

#[test]
fn clean_and_abrupt_eof_are_distinguished() {
    // Closing at a frame boundary is clean.
    let mut boundary = Handler::new();
    assert!(matches!(boundary.step(Input::Eof { partial: false }), Action::Close));

    // Closing with part of a header delivered is abrupt.
    let mut mid_header = Handler::new();
    assert_eq!(
        abort_error(mid_header.step(Input::Eof { partial: true })),
        ProtoError::AbruptDisconnect { phase: Phase::ReadHeader }
    );

    // Closing after the header but before the full body is abrupt.
    let mut mid_body = Handler::new();
    read_size(mid_body.step(Input::Data(encode_len(5))));
    assert_eq!(
        abort_error(mid_body.step(Input::Eof { partial: true })),
        ProtoError::AbruptDisconnect { phase: Phase::ReadBody }
    );
}

#[test]
fn transport_failures_carry_their_phase() {
    let mut at_header = Handler::new();
    assert_eq!(
        abort_error(at_header.step(Input::ReadError)),
        ProtoError::Transport { phase: Phase::ReadHeader }
    );

    let mut at_body = Handler::new();
    read_size(at_body.step(Input::Data(encode_len(3))));
    assert_eq!(
        abort_error(at_body.step(Input::ReadError)),
        ProtoError::Transport { phase: Phase::ReadBody }
    );

    let mut at_write_header = Handler::new();
    read_size(at_write_header.step(Input::Data(encode_len(2))));
    written_bytes(at_write_header.step(Input::Data(vec![0x68, 0x69])));
    assert_eq!(
        abort_error(at_write_header.step(Input::WriteError)),
        ProtoError::Transport { phase: Phase::WriteHeader }
    );

    let mut at_write_body = Handler::new();
    read_size(at_write_body.step(Input::Data(encode_len(2))));
    written_bytes(at_write_body.step(Input::Data(vec![0x68, 0x69])));
    written_bytes(at_write_body.step(Input::Written));
    assert_eq!(
        abort_error(at_write_body.step(Input::WriteError)),
        ProtoError::Transport { phase: Phase::WriteBody }
    );
}

#[test]
fn two_connections_do_not_affect_each_other() {
    // One well-behaved peer and one sending a malformed body, interleaved.
    let mut good = Handler::new();
    let mut bad = Handler::new();

    let n = read_size(good.step(Input::Data(encode_len(2))));
    assert_eq!(n, 2);
    let n = read_size(bad.step(Input::Data(encode_len(2))));
    assert_eq!(n, 2);

    assert_eq!(
        abort_error(bad.step(Input::Data(vec![0xFF, 0xFF]))),
        ProtoError::MalformedPayload
    );
    assert!(bad.is_finished());

    // The aborted neighbour leaves the good connection's run unchanged.
    let mut frame = written_bytes(good.step(Input::Data(vec![0x68, 0x69])));
    frame.extend(written_bytes(good.step(Input::Written)));
    assert_eq!(read_size(good.step(Input::Written)), 4);
    assert_eq!(decode_frame(&frame), Some(b"ECHO: hi".to_vec()));
    assert!(!good.is_finished());

    let a = good.step(Input::Eof { partial: false });
    assert!(matches!(a, Action::Close));
}

#[test]
fn responses_grow_by_the_tag_length() {
    let mut h = Handler::new();
    let frame = exchange(&mut h, "héllo".as_bytes());
    let payload = decode_frame(&frame).unwrap();
    assert_eq!(payload, b"ECHO: h\xC3\xA9llo".to_vec());
    assert_eq!(payload.len(), 6 + "héllo".len());
}
