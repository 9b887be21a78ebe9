use yahps::addr::SockAddr;
use yahps::error::{ErrorSource, HandlePacketErrorKind, ReadError};
use yahps::packet::{Packet, PacketReader};
use yahps::packet_type::PacketType;
use yahps::relay::{
    preregister_info_packet, relay_reply_sent, Conflict, PlayerRelay, RegisterAction, RelayCheck,
    RelayConnection, RelayPeer, RelayPermissionStatus, RelayRoom, RelayServiceHandler,
};

fn addr(port: u16) -> SockAddr {
    SockAddr::V4 { ip: 0x7f00_0001, port }
}

fn str_field(out: &mut Vec<u8>, s: &str) {
    out.extend_from_slice(&(s.len() as u16).to_be_bytes());
    out.extend_from_slice(s.as_bytes());
}

fn register_packet(name: &str, id: &str) -> Packet {
    let mut body = Vec::new();
    str_field(&mut body, "com.corrodinggames.rts");
    body.extend_from_slice(&[0u8; 12]);
    str_field(&mut body, name);
    body.push(1);
    str_field(&mut body, "optional");
    str_field(&mut body, "extra");
    str_field(&mut body, id);
    Packet::new(PacketType::PREREGISTER_INFO_RECEIVE, bytes::Bytes::from(body))
}

fn room_of(started: bool, seats: Vec<(i32, Option<RelayPeer>)>) -> RelayRoom {
    let mut room = RelayRoom::new(started);
    for (site, peer) in seats {
        room.insert_conn(site, peer);
    }
    room
}

fn joined(id: &str) -> Option<RelayPeer> {
    Some(RelayPeer {
        addr: addr(2000),
        permission_status: RelayPermissionStatus::PlayerJoinPermission,
        register_player_id: Some(id.to_string()),
    })
}

fn registered(room: &mut Option<RelayRoom>, name: &str, id: &str) -> RelayConnection {
    registered_at(room, 1000, name, id)
}

fn registered_at(room: &mut Option<RelayRoom>, port: u16, name: &str, id: &str) -> RelayConnection {
    let mut c = RelayConnection::new(addr(port));
    assert!(matches!(c.relay_register_connection(room, register_packet(name, id)), Ok(RegisterAction::Nothing)));
    c.set_permission_status(RelayPermissionStatus::PlayerPermission);
    c
}

#[test]
fn preregister_info_reads_back() {
    let p = preregister_info_packet(77);
    assert_eq!(*p.ty(), PacketType::PREREGISTER_INFO);
    let mut r = PacketReader::from(p);
    assert_eq!(r.read_str().unwrap(), "net.rwhps.server.relayGetUUIDHex.Dr");
    assert_eq!(r.read_i32().unwrap(), 1);
    assert_eq!(r.read_i32().unwrap(), 0);
    assert_eq!(r.read_str().unwrap(), "com.corrodinggames.rts.server");
    assert_eq!(r.read_str().unwrap(), "RCN Team & Tiexiu.xyz Core Team");
    assert_eq!(r.read_i32().unwrap(), 77);
    assert!(r.read_bool().is_err());
}

#[test]
fn relay_check_answers_a_new_connection() {
    let mut h = RelayServiceHandler::new(RelayConnection::new(addr(1)));
    let incoming = Packet::new(PacketType::PREREGISTER_INFO_RECEIVE, bytes::Bytes::new());
    match h.relay_check(&incoming) {
        RelayCheck::Reply(p) => {
            assert_eq!(*p.ty(), PacketType::PREREGISTER_INFO);
            let mut r = PacketReader::from(p);
            assert_eq!(r.read_str().unwrap(), "net.rwhps.server.relayGetUUIDHex.Dr");
        }
        RelayCheck::Pass => panic!("expected an answer"),
    }
    assert_eq!(h.conn().permission_status(), RelayPermissionStatus::GetPlayerInfo);
}

#[test]
fn relay_check_with_hash_closes_the_answer() {
    let mut h = RelayServiceHandler::new(RelayConnection::new(addr(1)));
    let incoming = Packet::new(PacketType::PREREGISTER_INFO_RECEIVE, bytes::Bytes::new());
    match h.relay_check_with_hash(&incoming, -5) {
        RelayCheck::Reply(p) => {
            let full = preregister_info_packet(-5);
            assert_eq!(&p.bytes()[..], &full.bytes()[..]);
            let tail = &p.bytes()[p.bytes().len() - 4..];
            assert_eq!(tail, &(-5i32).to_be_bytes());
        }
        RelayCheck::Pass => panic!("expected an answer"),
    }
}

#[test]
fn relay_check_passes_players() {
    for s in [
        RelayPermissionStatus::PlayerPermission,
        RelayPermissionStatus::PlayerJoinPermission,
        RelayPermissionStatus::HostPermission,
        RelayPermissionStatus::Debug,
    ] {
        let mut c = RelayConnection::new(addr(1));
        c.set_permission_status(s);
        let mut h = RelayServiceHandler::new(c);
        let incoming = Packet::new(PacketType::CHAT, bytes::Bytes::new());
        assert!(matches!(h.relay_check(&incoming), RelayCheck::Pass));
        assert_eq!(h.conn().permission_status(), s);
    }
}

#[test]
fn reply_sent_results() {
    assert!(matches!(relay_reply_sent(Ok(())), Ok(true)));
    let e = relay_reply_sent(Err(std::io::Error::new(std::io::ErrorKind::BrokenPipe, "x"))).unwrap_err();
    assert_eq!(*e.kind(), HandlePacketErrorKind::Disconnect);
    assert!(matches!(e.source(), ErrorSource::Io(io) if io.kind() == std::io::ErrorKind::BrokenPipe));
}

#[test]
fn register_reads_name_and_id() {
    let mut room: Option<RelayRoom> = None;
    let mut c = RelayConnection::new(addr(1));
    let r = c.relay_register_connection(&mut room, register_packet("alice", "id-1"));
    assert!(matches!(r, Ok(RegisterAction::Nothing)));
    assert_eq!(c.name(), "alice");
    assert_eq!(c.register_player_id().as_deref(), Some("id-1"));
    assert_eq!(c.permission_status(), RelayPermissionStatus::InitialConnection);
    // Not a player yet: a second register packet changes nothing.
    let r = c.relay_register_connection(&mut room, register_packet("bob", "id-2"));
    assert!(matches!(r, Ok(RegisterAction::Nothing)));
    assert_eq!(c.name(), "alice");
}

#[test]
fn register_keeps_name_when_id_is_missing() {
    let mut body = Vec::new();
    str_field(&mut body, "x");
    body.extend_from_slice(&[0u8; 12]);
    str_field(&mut body, "carol");
    let p = Packet::new(PacketType::PREREGISTER_INFO_RECEIVE, bytes::Bytes::from(body));
    let mut room: Option<RelayRoom> = None;
    let mut c = RelayConnection::new(addr(1));
    let e = c.relay_register_connection(&mut room, p).unwrap_err();
    assert_eq!(*e.kind(), HandlePacketErrorKind::Ignorable);
    assert!(matches!(e.source(), ErrorSource::Read(ReadError::UnexpectedEof(_))));
    assert_eq!(c.name(), "carol");
    assert!(c.register_player_id().is_none());
}

#[test]
fn register_fails_on_a_short_packet() {
    let p = Packet::new(PacketType::PREREGISTER_INFO_RECEIVE, bytes::Bytes::from(vec![0, 1]));
    let mut room: Option<RelayRoom> = None;
    let mut c = RelayConnection::new(addr(1));
    let e = c.relay_register_connection(&mut room, p).unwrap_err();
    assert_eq!(*e.kind(), HandlePacketErrorKind::Ignorable);
    assert_eq!(c.name(), "");
}

#[test]
fn player_without_room_is_fatal() {
    let mut room = None;
    let mut c = registered(&mut room, "dave", "id-d");
    let e = c.relay_register_connection(&mut room, register_packet("dave", "id-d")).unwrap_err();
    assert_eq!(*e.kind(), HandlePacketErrorKind::Fatal);
    assert!(matches!(e.source(), ErrorSource::Message(m) if m == "no relay room in relay_register_connection"));
}

#[test]
fn player_joins_and_goes_to_host() {
    let mut room = Some(room_of(false, vec![(1, joined("other"))]));
    let mut c = registered(&mut room, "erin", "id-e");
    let p = register_packet("erin", "id-e");
    match c.relay_register_connection(&mut room, p) {
        Ok(RegisterAction::SendToHost(q)) => assert_eq!(*q.ty(), PacketType::PREREGISTER_INFO_RECEIVE),
        _ => panic!("expected the packet to go to the host"),
    }
    assert_eq!(c.permission_status(), RelayPermissionStatus::PlayerJoinPermission);
    assert_eq!(c.player_relay().as_deref(), Some("id-e"));
    let r = room.as_ref().unwrap();
    assert_eq!(r.player_count(), 1);
    let player: PlayerRelay = r.player(&"id-e".to_string()).unwrap();
    assert_eq!(player.uuid(), "id-e");
    assert_eq!(player.name(), "erin");
    assert_eq!(player.now_name(), "erin");
    assert_eq!(player.conn(), addr(1000));
    assert!(!player.disconnect());
    // Joined: a further register packet changes nothing.
    assert!(matches!(c.relay_register_connection(&mut room, register_packet("erin", "id-e")), Ok(RegisterAction::Nothing)));
    assert_eq!(room.as_ref().unwrap().player_count(), 1);
}

#[test]
fn duplicate_id_is_kicked() {
    let mut room = Some(room_of(false, vec![(3, joined("id-f"))]));
    let mut c = registered(&mut room, "frank", "id-f");
    match c.relay_register_connection(&mut room, register_packet("frank", "id-f")) {
        Ok(RegisterAction::Kick(m)) => assert_eq!(m, "[UUID Check] HEX repeated, just try another room"),
        _ => panic!("expected a kick"),
    }
    assert_eq!(c.permission_status(), RelayPermissionStatus::PlayerPermission);
}

#[test]
fn expired_seat_stops_a_join() {
    let room = room_of(false, vec![(1, None), (2, joined("other"))]);
    assert_eq!(room.first_conflict(&Some("id-g".to_string())), Some(Conflict::Expired));
    let mut room = Some(room);
    let mut c = registered(&mut room, "gina", "id-g");
    let e = c.relay_register_connection(&mut room, register_packet("gina", "id-g")).unwrap_err();
    assert_eq!(*e.kind(), HandlePacketErrorKind::Ignorable);
    assert!(matches!(e.source(), ErrorSource::Message(m) if m == "expired conn not cleaned in relay_register_connection"));
    assert_eq!(c.permission_status(), RelayPermissionStatus::PlayerPermission);
}

#[test]
fn either_conflict_may_come_first() {
    // The seats are walked in the map's own order.
    let room = room_of(false, vec![(1, None), (2, joined("id-g"))]);
    let c = room.first_conflict(&Some("id-g".to_string()));
    assert!(c == Some(Conflict::Expired) || c == Some(Conflict::Duplicate));
}

#[test]
fn started_game_skips_the_check() {
    let mut room = Some(room_of(true, vec![(1, None)]));
    let mut c = registered(&mut room, "hal", "id-h");
    assert!(matches!(c.relay_register_connection(&mut room, register_packet("hal", "id-h")), Ok(RegisterAction::SendToHost(_))));
}

#[test]
fn player_setters() {
    let mut p = PlayerRelay::new(addr(1), "u".to_string(), "n".to_string());
    assert_eq!(p.now_name(), "");
    p.set_now_name("m".to_string());
    p.set_conn(addr(2));
    p.set_disconnect(true);
    assert_eq!(p.now_name(), "m");
    assert_eq!(p.conn(), addr(2));
    assert!(p.disconnect());
    assert_eq!(p.name(), "n");
    assert_eq!(p.uuid(), "u");
}

#[test]
fn a_player_id_is_added_once() {
    let mut room = RelayRoom::new(false);
    room.player_or_insert(addr(1), &"id".to_string(), &"first".to_string());
    room.player_or_insert(addr(2), &"id".to_string(), &"second".to_string());
    room.player_or_insert(addr(3), &"other".to_string(), &"third".to_string());
    assert_eq!(room.player_count(), 2);
    let first = room.player(&"id".to_string()).unwrap();
    assert_eq!(first.name(), "first");
    assert_eq!(first.conn(), addr(1));
    assert_eq!(room.player(&"other".to_string()).unwrap().name(), "third");
    assert!(room.player(&"none".to_string()).is_none());
    assert!(!room.is_start_game());
}

#[test]
fn a_seat_key_is_kept_once() {
    let mut room = RelayRoom::new(false);
    room.insert_conn(4, None);
    room.insert_conn(5, joined("y"));
    assert_eq!(room.first_conflict(&Some("x".to_string())), Some(Conflict::Expired));
    room.insert_conn(4, Some(RelayPeer {
        addr: addr(3000),
        permission_status: RelayPermissionStatus::HostPermission,
        register_player_id: None,
    }));
    room.insert_conn(5, joined("x"));
    assert_eq!(room.first_conflict(&Some("x".to_string())), Some(Conflict::Duplicate));
    assert_eq!(room.first_conflict(&Some("y".to_string())), None);
}

#[test]
fn two_players_share_a_room() {
    let mut room = Some(room_of(false, vec![]));
    let mut a = registered(&mut room, "ann", "id-a");
    let mut b = registered(&mut room, "ben", "id-b");
    assert!(matches!(a.relay_register_connection(&mut room, register_packet("ann", "id-a")), Ok(RegisterAction::SendToHost(_))));
    assert!(matches!(b.relay_register_connection(&mut room, register_packet("ben", "id-b")), Ok(RegisterAction::SendToHost(_))));
    let r = room.as_ref().unwrap();
    assert_eq!(r.player_count(), 2);
    assert_eq!(r.player(&"id-a".to_string()).unwrap().name(), "ann");
    assert_eq!(r.player(&"id-b".to_string()).unwrap().name(), "ben");
}

#[test]
fn a_joined_seat_kicks_a_repeated_id() {
    let seat = RelayPeer {
        addr: addr(1001),
        permission_status: RelayPermissionStatus::InitialConnection,
        register_player_id: None,
    };
    let mut room = Some(room_of(false, vec![(1, Some(seat))]));
    let mut a = registered_at(&mut room, 1001, "amy", "id-z");
    assert!(matches!(a.relay_register_connection(&mut room, register_packet("amy", "id-z")), Ok(RegisterAction::SendToHost(_))));
    assert_eq!(room.as_ref().unwrap().first_conflict(&Some("id-z".to_string())), Some(Conflict::Duplicate));
    let mut b = registered_at(&mut room, 1002, "bob", "id-z");
    match b.relay_register_connection(&mut room, register_packet("bob", "id-z")) {
        Ok(RegisterAction::Kick(m)) => assert_eq!(m, "[UUID Check] HEX repeated, just try another room"),
        _ => panic!("expected a kick"),
    }
    assert_eq!(room.as_ref().unwrap().player_count(), 1);
}

#[test]
fn a_seat_follows_its_connection() {
    let seat = RelayPeer {
        addr: addr(1003),
        permission_status: RelayPermissionStatus::InitialConnection,
        register_player_id: None,
    };
    let mut room = room_of(false, vec![(1, Some(seat)), (2, joined("other"))]);
    assert_eq!(room.first_conflict(&Some("id-w".to_string())), None);
    let mut c = RelayConnection::new(addr(1003));
    let mut none = None;
    assert!(matches!(c.relay_register_connection(&mut none, register_packet("wes", "id-w")), Ok(RegisterAction::Nothing)));
    c.set_permission_status(RelayPermissionStatus::PlayerJoinPermission);
    room.refresh_conn(&c);
    assert_eq!(room.first_conflict(&Some("id-w".to_string())), Some(Conflict::Duplicate));
    // The seat of another connection stays as it was.
    assert_eq!(room.first_conflict(&Some("other".to_string())), Some(Conflict::Duplicate));
    c.set_permission_status(RelayPermissionStatus::PlayerPermission);
    room.refresh_conn(&c);
    assert_eq!(room.first_conflict(&Some("id-w".to_string())), None);
}
