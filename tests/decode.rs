use zmq_subscribe::{
    decode_frames, Action, Decoder, Error, Message, Stage, DATA_MAX_LEN, SEQUENCE_LEN,
    TOPIC_MAX_LEN,
};

fn frames(parts: &[&[u8]]) -> Vec<Vec<u8>> {
    parts.iter().map(|p| p.to_vec()).collect()
}

/// Drives a decoder over one multipart message the way a socket reader does.
fn drive(decoder: &mut Decoder, parts: &[Vec<u8>]) -> (Result<Message, Error>, usize) {
    let mut action = decoder.start();
    let mut i = 0;
    loop {
        match action {
            Action::Receive(cap) => {
                let frame = &parts[i];
                let n = frame.len().min(cap);
                action = decoder.on_frame(&frame[..n], frame.len());
                i += 1;
            }
            Action::QueryMore => action = decoder.on_more(i < parts.len()),
            Action::Done(r) => return (r, i),
        }
    }
}

#[test]
fn three_frames_decode_to_message() {
    let seq = [0u8, 0, 0, 7];
    let input = frames(&[b"abc", b"0123456789", &seq]);
    let (r, read) = decode_frames(&input);
    let m = r.unwrap();
    assert_eq!(m.topic(), b"abc");
    assert_eq!(m.data(), b"0123456789");
    assert_eq!(m.sequence(), seq);
    assert_eq!(read, 3);
}

#[test]
fn three_frames_decode_through_decoder() {
    let mut decoder = Decoder::new();
    let input = frames(&[b"abc", b"0123456789", &[1, 2, 3, 4]]);
    let (r, read) = drive(&mut decoder, &input);
    let m = r.unwrap();
    assert_eq!(m.topic(), b"abc");
    assert_eq!(m.data(), b"0123456789");
    assert_eq!(m.sequence(), [1, 2, 3, 4]);
    assert_eq!(read, 3);
}

#[test]
fn topic_alone_is_one_frame_message() {
    let (r, read) = decode_frames(&frames(&[b"abc"]));
    assert!(matches!(r, Err(Error::InvalidMultipartLength(1))));
    assert_eq!(read, 1);
}

#[test]
fn two_frames_is_two_frame_message() {
    let (r, read) = decode_frames(&frames(&[b"abc", b"payload"]));
    assert!(matches!(r, Err(Error::InvalidMultipartLength(2))));
    assert_eq!(read, 2);
}

#[test]
fn four_frames_are_drained() {
    let input = frames(&[b"abc", b"payload", &[0, 0, 0, 1], b"extra"]);
    let (r, read) = decode_frames(&input);
    assert!(matches!(r, Err(Error::InvalidMultipartLength(4))));
    assert_eq!(read, input.len());
}

#[test]
fn drained_decoder_reads_next_message_cleanly() {
    let mut decoder = Decoder::new();
    let bad = frames(&[b"abc", b"payload", &[0, 0, 0, 1], b"extra", b"more"]);
    let (r, read) = drive(&mut decoder, &bad);
    assert!(matches!(r, Err(Error::InvalidMultipartLength(5))));
    assert_eq!(read, 5);
    let good = frames(&[b"t", b"d", &[9, 9, 9, 9]]);
    let (r, _) = drive(&mut decoder, &good);
    let m = r.unwrap();
    assert_eq!(m.topic(), b"t");
    assert_eq!(m.data(), b"d");
    assert_eq!(m.sequence(), [9, 9, 9, 9]);
}

#[test]
fn topic_one_byte_too_long() {
    let topic = vec![b'x'; TOPIC_MAX_LEN + 1];
    let input = vec![topic.clone(), b"payload".to_vec(), vec![0; SEQUENCE_LEN]];
    let (r, read) = decode_frames(&input);
    match r {
        Err(Error::InvalidTopic(len, buf)) => {
            assert_eq!(len, TOPIC_MAX_LEN + 1);
            assert_eq!(&buf[..], &topic[..TOPIC_MAX_LEN]);
        }
        other => panic!("unexpected {:?}", other),
    }
    assert_eq!(read, 1);
}

#[test]
fn topic_at_limit_is_accepted() {
    let topic = vec![b'y'; TOPIC_MAX_LEN];
    let input = vec![topic.clone(), Vec::new(), vec![5; SEQUENCE_LEN]];
    let (r, _) = decode_frames(&input);
    let m = r.unwrap();
    assert_eq!(m.topic(), &topic[..]);
    assert!(m.data().is_empty());
}

#[test]
fn payload_too_long() {
    let input = vec![b"abc".to_vec(), vec![0; DATA_MAX_LEN + 1], vec![0; SEQUENCE_LEN]];
    let (r, read) = decode_frames(&input);
    assert!(matches!(r, Err(Error::InvalidDataLength(n)) if n == DATA_MAX_LEN + 1));
    assert_eq!(read, 2);
}

#[test]
fn sequence_wrong_length() {
    let short = frames(&[b"abc", b"d", &[1, 2, 3]]);
    let (r, read) = decode_frames(&short);
    assert!(matches!(r, Err(Error::InvalidSequenceLength(3))));
    assert_eq!(read, 3);
    let long = frames(&[b"abc", b"d", &[1, 2, 3, 4, 5]]);
    let (r, _) = decode_frames(&long);
    assert!(matches!(r, Err(Error::InvalidSequenceLength(5))));
}

#[test]
fn empty_input_has_no_frames() {
    let (r, read) = decode_frames(&Vec::new());
    assert!(matches!(r, Err(Error::InvalidMultipartLength(0))));
    assert_eq!(read, 0);
}

#[test]
fn decoder_asks_for_buffers_in_order() {
    let mut decoder = Decoder::new();
    assert!(matches!(decoder.start(), Action::Receive(n) if n == TOPIC_MAX_LEN));
    assert_eq!(decoder.capacity(), TOPIC_MAX_LEN);
    assert!(matches!(decoder.on_frame(b"abc", 3), Action::QueryMore));
    assert!(matches!(decoder.on_more(true), Action::Receive(n) if n == DATA_MAX_LEN));
    assert!(matches!(decoder.on_frame(b"xy", 2), Action::QueryMore));
    assert!(matches!(decoder.on_more(true), Action::Receive(n) if n == SEQUENCE_LEN));
    assert!(matches!(decoder.on_frame(&[1, 2, 3, 4], 4), Action::QueryMore));
    assert!(matches!(decoder.on_more(true), Action::Receive(0)));
    assert_eq!(decoder.capacity(), 0);
    assert!(matches!(decoder.on_frame(&[], 100), Action::QueryMore));
    assert!(matches!(decoder.on_more(false), Action::Done(Err(Error::InvalidMultipartLength(4)))));
    assert_eq!(decoder.capacity(), TOPIC_MAX_LEN);
}

#[test]
fn stage_starts_at_topic() {
    assert_eq!(Stage::Topic, Stage::Topic);
    assert_ne!(Stage::Topic, Stage::Drain);
}

#[test]
fn transport_error_converts() {
    let e: Error = zmq::Error::EAGAIN.into();
    assert!(matches!(e, Error::Zmq(zmq::Error::EAGAIN)));
}

#[test]
fn message_from_parts_keeps_fields() {
    let m = Message::from_parts(b"rawtx", b"\x01\x02", [0, 0, 1, 0]);
    assert_eq!(m.topic(), b"rawtx");
    assert_eq!(m.data(), &[1, 2]);
    assert_eq!(m.sequence(), [0, 0, 1, 0]);
}
