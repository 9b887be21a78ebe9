use yahps::packet_type::PacketType;

#[test]
fn codes_of_known_kinds() {
    assert_eq!(PacketType::HEART_BEAT.to_i32(), 108);
    assert_eq!(PacketType::PREREGISTER_INFO.to_i32(), 161);
    assert_eq!(PacketType::SERVER_DEBUG_RECEIVE.to_i32(), 2000);
    assert_eq!(PacketType::EMPTYP_ACKAGE.to_i32(), 0);
    assert_eq!(PacketType::NOT_RESOLVED.to_i32(), -1);
}

#[test]
fn kinds_of_known_codes() {
    assert_eq!(PacketType::from_i32(108), PacketType::HEART_BEAT);
    assert_eq!(PacketType::from_i32(3999), PacketType::STATUS_RESULT);
    assert_eq!(PacketType::from_i32(176), PacketType::PACKET_FORWARD_CLIENT_TO_REPEATED);
    assert_eq!(PacketType::from_i32(-1), PacketType::NOT_RESOLVED);
}

#[test]
fn unknown_codes_are_not_resolved() {
    assert_eq!(PacketType::from_i32(1), PacketType::NOT_RESOLVED);
    assert_eq!(PacketType::from_i32(99999), PacketType::NOT_RESOLVED);
    assert_eq!(PacketType::from_i32(i32::MIN), PacketType::NOT_RESOLVED);
}

#[test]
fn every_code_reads_back() {
    for n in -5..5000 {
        let t = PacketType::from_i32(n);
        if t != PacketType::NOT_RESOLVED {
            assert_eq!(t.to_i32(), n);
            assert_eq!(PacketType::from_i32(t.to_i32()), t);
        }
    }
}

#[test]
fn conversions_through_from() {
    let n: i32 = PacketType::CHAT.into();
    assert_eq!(n, 141);
    let t: PacketType = 108.into();
    assert_eq!(t, PacketType::HEART_BEAT);
    let u: PacketType = PacketType::from(12345);
    assert_eq!(u, PacketType::NOT_RESOLVED);
}
