use yahps::error::{Error, ErrorSource, FrameError, ReadError, ErrorKind, HandlePacketError, HandlePacketErrorKind, PacketTypeCastError, WorkerError};

#[test]
fn cast_error_keeps_value() {
    assert_eq!(PacketTypeCastError::new(42).0, 42);
}

#[test]
fn cast_error_text() {
    assert_eq!(PacketTypeCastError::new(42).to_string(), "PacketTypeCastError(42)");
    assert_eq!(PacketTypeCastError::new(0).to_string(), "PacketTypeCastError(0)");
    assert_eq!(PacketTypeCastError::new(-7).to_string(), "PacketTypeCastError(-7)");
    assert_eq!(PacketTypeCastError::new(1203).to_string(), "PacketTypeCastError(1203)");
    for v in [i32::MIN, -1, 9, 10, 99, 100, i32::MAX] {
        let e = PacketTypeCastError::new(v);
        assert_eq!(e.to_string(), format!("{:?}", e));
    }
}

#[test]
fn handle_packet_error_parts() {
    let e = HandlePacketError::new(HandlePacketErrorKind::Fatal, ErrorSource::Message("boom".to_string()));
    assert_eq!(*e.kind(), HandlePacketErrorKind::Fatal);
    assert!(matches!(e.source(), ErrorSource::Message(m) if m == "boom"));
}

#[test]
fn service_error_parts() {
    let io = std::io::Error::new(std::io::ErrorKind::BrokenPipe, "gone");
    let e = Error::new(ErrorKind::Disconnect, ErrorSource::Io(io));
    assert_eq!(e.kind(), ErrorKind::Disconnect);
    assert!(matches!(e.source(), ErrorSource::Io(io) if io.kind() == std::io::ErrorKind::BrokenPipe));
    let w = WorkerError::new(ErrorSource::Message("worker".to_string()));
    assert!(matches!(w.source(), ErrorSource::Message(m) if m == "worker"));
}

#[test]
fn frame_error_messages() {
    assert_eq!(FrameError::LengthBelowZero.message(), "packet length below zero");
    assert_eq!(FrameError::LengthTooLong.message(), "packet length too long");
    assert_eq!(FrameError::Incomplete.message(), "packet frame incomplete");
}

#[test]
fn read_errors_become_io_errors() {
    let eof = ReadError::UnexpectedEof(std::io::Error::from(std::io::ErrorKind::UnexpectedEof));
    assert_eq!(eof.kind(), std::io::ErrorKind::UnexpectedEof);
    assert_eq!(std::io::Error::from(eof).kind(), std::io::ErrorKind::UnexpectedEof);
    let bad = String::from_utf8(vec![0xff]).unwrap_err();
    let utf = ReadError::InvalidUtf8(bad);
    assert_eq!(utf.kind(), std::io::ErrorKind::Other);
    assert_eq!(std::io::Error::from(utf).kind(), std::io::ErrorKind::Other);
}
