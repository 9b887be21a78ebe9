use yahps::error::FrameError;
use yahps::packet::{NetReadState, NetReadStep, Packet, PacketBuilder, PacketReader};
use yahps::packet_type::PacketType;

fn packet(ty: PacketType, body: &[u8]) -> Packet {
    Packet::new(ty, bytes::Bytes::from(body.to_vec()))
}

#[test]
fn net_frame_bytes() {
    let p = packet(PacketType::CHAT, &[1, 2, 3]);
    assert_eq!(p.encode_net(), vec![0, 0, 0, 3, 0, 0, 0, 141, 1, 2, 3]);
}

#[test]
fn game_frame_bytes() {
    let p = packet(PacketType::NOT_RESOLVED, &[9]);
    assert_eq!(p.encode_game(), vec![0xff, 0xff, 0xff, 0xff, 0, 0, 0, 1, 9]);
}

#[test]
fn net_frame_roundtrip() {
    let p = packet(PacketType::SYNC, b"hello");
    let mut frame = p.encode_net();
    frame.extend_from_slice(&[7, 7]);
    let (q, n) = Packet::decode_net(&frame).unwrap();
    assert_eq!(n, 13);
    assert_eq!(*q.ty(), PacketType::SYNC);
    assert_eq!(&q.bytes()[..], b"hello");
}

#[test]
fn game_frame_roundtrip() {
    let p = packet(PacketType::KICK, b"bye");
    let frame = p.encode_game();
    let (q, n) = Packet::decode_game(&frame).unwrap();
    assert_eq!(n, 11);
    assert_eq!(*q.ty(), PacketType::KICK);
    assert_eq!(&q.bytes()[..], b"bye");
}

#[test]
fn net_frame_errors() {
    assert!(matches!(Packet::decode_net(&[0, 0, 0]), Err(FrameError::Incomplete)));
    assert!(matches!(Packet::decode_net(&[0xff, 0xff, 0xff, 0xff]), Err(FrameError::LengthBelowZero)));
    // 50000001 = 0x02FAF081
    assert!(matches!(Packet::decode_net(&[0x02, 0xfa, 0xf0, 0x81]), Err(FrameError::LengthTooLong)));
    assert!(matches!(Packet::decode_net(&[0, 0, 0, 2, 0, 0, 0, 108, 1]), Err(FrameError::Incomplete)));
}

#[test]
fn net_frame_at_max_size_length_is_accepted() {
    // 50000000 = 0x02FAF080; the body is missing, so only the length check passes.
    assert!(matches!(Packet::decode_net(&[0x02, 0xfa, 0xf0, 0x80, 0, 0, 0, 0]), Err(FrameError::Incomplete)));
}

#[test]
fn unknown_kind_decodes_as_not_resolved() {
    let (q, _) = Packet::decode_net(&[0, 0, 0, 0, 0, 0, 0x30, 0x39]).unwrap();
    assert_eq!(*q.ty(), PacketType::NOT_RESOLVED);
    assert_eq!(q.bytes().len(), 0);
}

#[test]
fn game_frame_incomplete() {
    assert!(matches!(Packet::decode_game(&[0, 0, 0, 108, 0, 0]), Err(FrameError::Incomplete)));
    assert!(matches!(Packet::decode_game(&[0, 0, 0, 108, 0, 0, 0, 4, 1]), Err(FrameError::Incomplete)));
}

#[test]
fn stream_reader_reads_a_frame() {
    let p = packet(PacketType::TICK, &[5, 6, 7, 8, 9]);
    let frame = p.encode_net();
    let (state, n) = NetReadState::start();
    assert_eq!(n, 4);
    let (state, n) = match state.step(&frame[0..4]) {
        NetReadStep::Read(s, n) => (s, n),
        _ => panic!("expected a read"),
    };
    assert_eq!(n, 4);
    let (state, n) = match state.step(&frame[4..8]) {
        NetReadStep::Read(s, n) => (s, n),
        _ => panic!("expected a read"),
    };
    assert_eq!(n, 5);
    match state.step(&frame[8..13]) {
        NetReadStep::Done(q) => {
            assert_eq!(*q.ty(), PacketType::TICK);
            assert_eq!(&q.bytes()[..], &[5, 6, 7, 8, 9]);
        }
        _ => panic!("expected a packet"),
    }
}

#[test]
fn stream_reader_rejects_bad_lengths() {
    assert!(matches!(NetReadState::Length.step(&[0x80, 0, 0, 0]), NetReadStep::Failed(FrameError::LengthBelowZero)));
    assert!(matches!(NetReadState::Length.step(&[0x7f, 0, 0, 0]), NetReadStep::Failed(FrameError::LengthTooLong)));
}

#[test]
fn builder_bytes() {
    let p = PacketBuilder::default()
        .with_type(PacketType::CHAT)
        .write_str("ab")
        .write_i32(-2)
        .build();
    assert_eq!(*p.ty(), PacketType::CHAT);
    assert_eq!(&p.bytes()[..], &[0, 2, b'a', b'b', 0xff, 0xff, 0xff, 0xfe]);
}

#[test]
fn default_builder_is_empty_and_unresolved() {
    let p = PacketBuilder::default().build();
    assert_eq!(*p.ty(), PacketType::NOT_RESOLVED);
    assert!(p.bytes().is_empty());
}

#[test]
fn builder_reader_roundtrip() {
    let p = PacketBuilder::default()
        .with_type(PacketType::REGISTER_PLAYER)
        .write_str("héllo")
        .write_i32(123456)
        .write_str("")
        .build();
    let mut r = PacketReader::from(p);
    assert_eq!(*r.ty(), PacketType::REGISTER_PLAYER);
    assert_eq!(r.read_str().unwrap(), "héllo");
    assert_eq!(r.read_i32().unwrap(), 123456);
    assert_eq!(r.read_str().unwrap(), "");
    assert!(r.read_i32().is_err());
}

#[test]
fn reader_flags_and_skip() {
    let p = packet(PacketType::CHAT, &[0, 2, 1, 0, 1, b'x', 9, 9, 9]);
    let mut r = PacketReader::from(p);
    assert_eq!(r.read_bool().unwrap(), false);
    assert_eq!(r.read_bool().unwrap(), true);
    assert_eq!(r.read_is_str().unwrap(), "x");
    assert!(r.skip(4).is_err());
    let p = packet(PacketType::CHAT, &[0, 1, 2, 3, 0, 7]);
    let mut r = PacketReader::from(p);
    assert_eq!(r.read_is_str().unwrap(), "");
    r.skip(3).unwrap();
    assert_eq!(r.read_bool().unwrap(), false);
    assert_eq!(r.read_bool().unwrap(), true);
    assert!(r.read_bool().is_err());
}

#[test]
fn reader_rejects_bad_strings() {
    let mut r = PacketReader::from(packet(PacketType::CHAT, &[0, 2, 0xff, 0xfe]));
    let e = r.read_str().unwrap_err();
    assert_eq!(e.kind(), std::io::ErrorKind::Other);
    let mut r = PacketReader::from(packet(PacketType::CHAT, &[0, 5, b'a']));
    let e = r.read_str().unwrap_err();
    assert_eq!(e.kind(), std::io::ErrorKind::UnexpectedEof);
    let mut r = PacketReader::from(packet(PacketType::CHAT, &[0]));
    assert!(r.read_str().is_err());
}

#[test]
fn clone_keeps_kind_and_body() {
    let p = packet(PacketType::HEART_BEAT, &[1, 2]);
    let q = p.clone();
    assert_eq!(*q.ty(), PacketType::HEART_BEAT);
    assert_eq!(&q.bytes()[..], &[1, 2]);
}

#[test]
fn header_and_max_size() {
    assert_eq!(Packet::HEADER_SIZE, 8);
    assert_eq!(Packet::MAX_SIZE, 50000000);
}

#[test]
fn game_length_sign() {
    assert!(Packet::game_length_is_negative(&[0, 0, 0, 1, 0x80, 0, 0, 0]));
    assert!(!Packet::game_length_is_negative(&[0, 0, 0, 1, 0x7f, 0, 0, 0]));
    assert!(!Packet::game_length_is_negative(&[0x80, 0, 0, 1]));
}

#[test]
fn read_error_kinds() {
    let mut rd1 = PacketReader::from(Packet::new(PacketType::CHAT, bytes::Bytes::from(vec![0u8, 1, 0xFF])));
    let mut rd2 = PacketReader::from(Packet::new(PacketType::CHAT, bytes::Bytes::from(vec![0u8, 3, 0x61])));
    assert_eq!(rd1.read_str().unwrap_err().kind(), std::io::ErrorKind::Other);
    assert_eq!(rd2.read_str().unwrap_err().kind(), std::io::ErrorKind::UnexpectedEof);
    let mut rd = PacketReader::from(Packet::new(PacketType::CHAT, bytes::Bytes::from(vec![9u8, 9, 9, 9, 0])));
    assert!(rd.skip(4).is_ok());
    assert_eq!(rd.read_bool().unwrap(), false);
    assert_eq!(rd.skip(1).unwrap_err().kind(), std::io::ErrorKind::UnexpectedEof);
}

#[test]
fn game_body_length_of_header() {
    assert_eq!(Packet::game_body_length(&[0, 0, 0, 1, 0, 0, 1, 2]), 258);
}
