//! The relay service's view of its connections and rooms, and its decisions on
//! the first packets of a connection.
use vstd::prelude::*;
use std::hash::Hasher;
use vstd::std_specs::hash::DefaultHasherAdditionalSpecFns;
use crate::outside::{
    player_map, players_contains, players_get, players_insert, players_len, players_new, seat_map,
    seats_entries, seats_insert, seats_new, str_hash_feed,
};
use crate::addr::SockAddr;
use crate::error::{ErrorSource, HandlePacketError, HandlePacketErrorKind, ReadError};
use crate::packet::{read_is_str_spec, Packet, PacketBuilder, PacketReader, PacketView};
use crate::packet_type::PacketType;
use crate::wire::{be_i32_bytes, read_str_spec, str_bytes};

verus! {

/// How far a relay connection has come, and what it may do.
#[derive(Debug, Clone, Copy, PartialEq, Eq, Structural, Hash)]
pub enum RelayPermissionStatus {
    InitialConnection,
    GetPlayerInfo,
    WaitCertified,
    CertifiedEnd,
    PlayerPermission,
    PlayerJoinPermission,
    HostPermission,
    Debug,
}

/// The view of an optional string.
pub open spec fn opt_str_view(o: Option<String>) -> Option<Seq<char>> {
    match o {
        Some(s) => Some(s@),
        None => None,
    }
}

/// A player of a room as a value.
pub struct PlayerRelayView {
    pub conn: SockAddr,
    pub uuid: Seq<char>,
    pub name: Seq<char>,
    pub now_name: Seq<char>,
    pub disconnect: bool,
}

/// A player of a room: the connection it plays on (by peer address), its id,
/// the name it registered with, its current name and whether it left.
pub struct PlayerRelay {
    conn: SockAddr,
    uuid: String,
    name: String,
    now_name: String,
    disconnect: bool,
}

impl View for PlayerRelay {
    type V = PlayerRelayView;

    closed spec fn view(&self) -> PlayerRelayView {
        PlayerRelayView {
            conn: self.conn,
            uuid: self.uuid@,
            name: self.name@,
            now_name: self.now_name@,
            disconnect: self.disconnect,
        }
    }
}

impl PlayerRelay {
    pub fn new(conn: SockAddr, uuid: String, name: String) -> (p: Self)
        ensures
            p@ == (PlayerRelayView {
                conn,
                uuid: uuid@,
                name: name@,
                now_name: Seq::empty(),
                disconnect: false,
            }),
    {
        Self { conn, uuid, name, now_name: String::new(), disconnect: false }
    }

    pub fn set_now_name(&mut self, now_name: String)
        ensures
            final(self)@ == (PlayerRelayView { now_name: now_name@, ..old(self)@ }),
    {
        self.now_name = now_name;
    }

    pub fn set_conn(&mut self, conn: SockAddr)
        ensures
            final(self)@ == (PlayerRelayView { conn, ..old(self)@ }),
    {
        self.conn = conn;
    }

    pub fn set_disconnect(&mut self, disconnect: bool)
        ensures
            final(self)@ == (PlayerRelayView { disconnect, ..old(self)@ }),
    {
        self.disconnect = disconnect;
    }

    pub fn conn(&self) -> (c: SockAddr)
        ensures
            c == self@.conn,
    {
        self.conn
    }

    pub fn uuid(&self) -> (s: &str)
        ensures
            s@ == self@.uuid,
    {
        self.uuid.as_str()
    }

    pub fn name(&self) -> (s: &str)
        ensures
            s@ == self@.name,
    {
        self.name.as_str()
    }

    pub fn now_name(&self) -> (s: &str)
        ensures
            s@ == self@.now_name,
    {
        self.now_name.as_str()
    }

    pub fn disconnect(&self) -> (b: bool)
        ensures
            b == self@.disconnect,
    {
        self.disconnect
    }
}

/// The connection on a seat of a room: its peer address, which names it, and
/// its permission and player id as of its last change.
pub struct RelayPeer {
    pub addr: SockAddr,
    pub permission_status: RelayPermissionStatus,
    pub register_player_id: Option<String>,
}

/// A seat as a value: its connection's peer, permission and player id, or
/// `None` where the connection is gone.
pub type SeatView = Option<(SockAddr, RelayPermissionStatus, Option<Seq<char>>)>;

/// A seat's connection as a value: `None` where the connection is gone.
pub open spec fn peer_view(p: Option<RelayPeer>) -> SeatView {
    match p {
        Some(p) => Some((p.addr, p.permission_status, opt_str_view(p.register_player_id))),
        None => None,
    }
}

/// A copy of a seat's connection.
pub(crate) fn clone_peer(p: &Option<RelayPeer>) -> (q: Option<RelayPeer>)
    ensures
        peer_view(q) == peer_view(*p),
{
    match p {
        Some(p) => Some(
            RelayPeer {
                addr: p.addr,
                permission_status: p.permission_status,
                register_player_id: match &p.register_player_id {
                    Some(id) => Some(id.clone()),
                    None => None,
                },
            },
        ),
        None => None,
    }
}

/// A copy of a player.
pub(crate) fn clone_player(p: &PlayerRelay) -> (q: PlayerRelay)
    ensures
        q@ == p@,
{
    PlayerRelay {
        conn: p.conn,
        uuid: p.uuid.clone(),
        name: p.name.clone(),
        now_name: p.now_name.clone(),
        disconnect: p.disconnect,
    }
}

/// A room as a value: whether its game has started, its seats by key, and its
/// players by id.
pub struct RelayRoomView {
    pub is_start_game: bool,
    pub seats: Map<i32, SeatView>,
    pub players: Map<Seq<char>, PlayerRelayView>,
}

/// A room: whether its game has started, the connections on its seats, and its
/// players.
pub struct RelayRoom {
    is_start_game: bool,
    conn_map: dashmap::DashMap<i32, Option<RelayPeer>>,
    relay_players_data: dashmap::DashMap<String, PlayerRelay>,
}

impl View for RelayRoom {
    type V = RelayRoomView;

    closed spec fn view(&self) -> RelayRoomView {
        RelayRoomView {
            is_start_game: self.is_start_game,
            seats: seat_map(self.conn_map),
            players: player_map(self.relay_players_data),
        }
    }
}

/// A room's invariant: each player is filed under its own id.
pub open spec fn room_wf(r: RelayRoomView) -> bool {
    forall|id: Seq<char>| #[trigger] r.players.contains_key(id) ==> r.players[id].uuid == id
}

/// The players of a room after a connection with peer `conn` claims id `id` under
/// `name`: unchanged where a player has that id, else with a new player.
pub open spec fn players_after(
    players: Map<Seq<char>, PlayerRelayView>,
    conn: SockAddr,
    id: Seq<char>,
    name: Seq<char>,
) -> Map<Seq<char>, PlayerRelayView> {
    if players.contains_key(id) {
        players
    } else {
        players.insert(
            id,
            PlayerRelayView { conn, uuid: id, name, now_name: name, disconnect: false },
        )
    }
}

impl RelayRoom {
    /// The room's invariant, which every room keeps: each player is filed
    /// under its own id.
    #[verifier::type_invariant]
    spec fn wf(self) -> bool {
        room_wf(self@)
    }

    /// A room without seats or players.
    pub fn new(is_start_game: bool) -> (r: Self)
        ensures
            r@.is_start_game == is_start_game,
            r@.seats == Map::<i32, SeatView>::empty(),
            r@.players == Map::<Seq<char>, PlayerRelayView>::empty(),
    {
        Self { is_start_game, conn_map: seats_new(), relay_players_data: players_new() }
    }

    /// Puts `peer` on seat `site`, in place of the seat's connection where it
    /// has one.
    pub fn insert_conn(&mut self, site: i32, peer: Option<RelayPeer>)
        ensures
            final(self)@ == (RelayRoomView {
                seats: old(self)@.seats.insert(site, peer_view(peer)),
                ..old(self)@
            }),
    {
        proof {
            use_type_invariant(&*self);
        }
        let mut seats = seats_new();
        std::mem::swap(&mut seats, &mut self.conn_map);
        seats_insert(&mut seats, site, peer);
        self.conn_map = seats;
    }

    pub fn is_start_game(&self) -> (b: bool)
        ensures
            b == self@.is_start_game,
    {
        self.is_start_game
    }

    /// A copy of the player with id `id`, where there is one.
    pub fn player(&self, id: &String) -> (p: Option<PlayerRelay>)
        ensures
            p is Some <==> self@.players.contains_key(id@),
            p matches Some(p) ==> p@ == self@.players[id@],
    {
        players_get(&self.relay_players_data, id)
    }

    /// How many players the room has.
    pub fn player_count(&self) -> (n: usize)
        ensures
            n == self@.players.len(),
    {
        players_len(&self.relay_players_data)
    }

    /// Adds a player with id `id` where there is none, on the connection with
    /// peer `conn`, under `name` as both its registered and current name.
    pub fn player_or_insert(&mut self, conn: SockAddr, id: &String, name: &String)
        ensures
            final(self)@ == (RelayRoomView {
                players: players_after(old(self)@.players, conn, id@, name@),
                ..old(self)@
            }),
    {
        proof {
            use_type_invariant(&*self);
        }
        if !players_contains(&self.relay_players_data, id) {
            let mut p = PlayerRelay::new(conn, id.clone(), name.clone());
            p.set_now_name(name.clone());
            p.set_disconnect(false);
            let mut players = players_new();
            std::mem::swap(&mut players, &mut self.relay_players_data);
            players_insert(&mut players, id.clone(), p);
            self.relay_players_data = players;
        }
    }
}

/// Why a registering connection may not join: a seat's connection is gone, or a
/// joined player already has its id.
#[derive(Debug, Clone, Copy, PartialEq, Eq, Structural)]
pub enum Conflict {
    Expired,
    Duplicate,
}

/// Whether some seat has lost its connection.
pub open spec fn has_expired_seat(seats: Map<i32, SeatView>) -> bool {
    exists|k: i32| #[trigger] seats.contains_key(k) && seats[k] is None
}

/// Whether some seat's connection has joined with player id `id`.
pub open spec fn has_duplicate_seat(
    seats: Map<i32, SeatView>,
    id: Option<Seq<char>>,
) -> bool {
    exists|k: i32|
        #[trigger] seats.contains_key(k) && (seats[k] matches Some((_, st, pid)) && st
            == RelayPermissionStatus::PlayerJoinPermission && pid == id)
}

/// Whether `c` is a conflict that the seats can give for a connection with player
/// id `id`. The seats are walked in the map's own order, which is not stated:
/// where both kinds of conflicting seat are there, either can come first.
pub open spec fn conflict_found(
    seats: Map<i32, SeatView>,
    id: Option<Seq<char>>,
    c: Option<Conflict>,
) -> bool {
    match c {
        None => !has_expired_seat(seats) && !has_duplicate_seat(seats, id),
        Some(Conflict::Expired) => has_expired_seat(seats),
        Some(Conflict::Duplicate) => has_duplicate_seat(seats, id),
    }
}

/// Whether a seat neither lost its connection nor has a connection that joined
/// with player id `id`.
pub open spec fn not_conflicting(seat: SeatView, id: Option<Seq<char>>) -> bool {
    seat matches Some((_, st, pid)) && !(st == RelayPermissionStatus::PlayerJoinPermission && pid
        == id)
}

fn opt_str_eq(a: &Option<String>, b: &Option<String>) -> (r: bool)
    ensures
        r == (opt_str_view(*a) == opt_str_view(*b)),
{
    match (a, b) {
        (None, None) => true,
        (Some(x), Some(y)) => *x == *y,
        _ => false,
    }
}

impl RelayRoom {
    /// The first seat, in the map's order, that stops a connection with player id
    /// `id` from joining: a seat whose connection is gone, or one whose
    /// connection joined with the same id.
    pub fn first_conflict(&self, id: &Option<String>) -> (c: Option<Conflict>)
        ensures
            conflict_found(self@.seats, opt_str_view(*id), c),
    {
        let entries = seats_entries(&self.conn_map);
        let ghost seats = self@.seats;
        let mut i: usize = 0;
        while i < entries.len()
            invariant
                i <= entries@.len(),
                seats == seat_map(self.conn_map),
                forall|j: int|
                    0 <= j < entries@.len() ==> #[trigger] seats.contains_key(entries@[j].0)
                        && seats[entries@[j].0] == peer_view(entries@[j].1),
                forall|k: i32| #[trigger]
                    seats.contains_key(k) ==> exists|j: int|
                        0 <= j < entries@.len() && #[trigger] entries@[j].0 == k,
                forall|j: int|
                    0 <= j < i ==> #[trigger] not_conflicting(peer_view(entries@[j].1), opt_str_view(*id)),
            decreases entries.len() - i,
        {
            let ghost key = entries@[i as int].0;
            assert(seats.contains_key(key));
            match &entries[i].1 {
                None => {
                    assert(seats[key] is None);
                    return Some(Conflict::Expired);
                },
                Some(p) => {
                    if p.permission_status == RelayPermissionStatus::PlayerJoinPermission
                        && opt_str_eq(&p.register_player_id, id) {
                        assert(seats[key] matches Some((_, st, pid)) && st
                            == RelayPermissionStatus::PlayerJoinPermission && pid == opt_str_view(*id));
                        return Some(Conflict::Duplicate);
                    }
                },
            }
            i += 1;
        }
        assert forall|k: i32| #[trigger] seats.contains_key(k) implies not_conflicting(seats[k], opt_str_view(*id)) by {
            let j = choose|j: int| 0 <= j < entries@.len() && #[trigger] entries@[j].0 == k;
            assert(not_conflicting(peer_view(entries@[j].1), opt_str_view(*id)));
        }
        None
    }
}

/// A seat after its connection changed to `c`: a seat held by the connection
/// with `c`'s peer shows `c`'s permission and player id; any other seat stays.
pub open spec fn refresh_seat(seat: SeatView, c: RelayConnectionView) -> SeatView {
    match seat {
        Some((a, st, id)) => if a == c.addr {
            Some((a, c.permission_status, c.register_player_id))
        } else {
            Some((a, st, id))
        },
        None => None,
    }
}

/// The seats of a room after the connection `c` changed: each seat held by
/// that connection shows its new permission and player id, as the seat's link to
/// the live connection does.
pub open spec fn refresh_seats(seats: Map<i32, SeatView>, c: RelayConnectionView) -> Map<i32, SeatView> {
    Map::new(|k: i32| seats.contains_key(k), |k: i32| refresh_seat(seats[k], c))
}

/// An optional room after the connection `c` changed.
pub open spec fn refresh_room(room: Option<RelayRoomView>, c: RelayConnectionView) -> Option<RelayRoomView> {
    match room {
        Some(r) => Some(RelayRoomView { seats: refresh_seats(r.seats, c), ..r }),
        None => None,
    }
}

impl RelayRoom {
    /// Brings the seats held by `conn` up to its permission and player id.
    pub fn refresh_conn(&mut self, conn: &RelayConnection)
        ensures
            final(self)@ == (RelayRoomView {
                seats: refresh_seats(old(self)@.seats, conn@),
                ..old(self)@
            }),
    {
        let entries = seats_entries(&self.conn_map);
        let ghost seats = self@.seats;
        let ghost c = conn@;
        proof {
            use_type_invariant(&*self);
        }
        let mut map = seats_new();
        std::mem::swap(&mut map, &mut self.conn_map);
        assert(seats == seat_map(map));
        let mut i: usize = 0;
        while i < entries.len()
            invariant
                i <= entries@.len(),
                seats == old(self)@.seats,
                c == conn@,
                self@.players == old(self)@.players,
                self@.is_start_game == old(self)@.is_start_game,
                forall|j: int|
                    0 <= j < entries@.len() ==> #[trigger] seats.contains_key(entries@[j].0)
                        && seats[entries@[j].0] == peer_view(entries@[j].1),
                forall|k: i32| #[trigger]
                    seats.contains_key(k) ==> exists|j: int|
                        0 <= j < entries@.len() && #[trigger] entries@[j].0 == k,
                forall|a: int, b: int| 0 <= a < b < entries@.len() ==> #[trigger] entries@[a].0 != #[trigger] entries@[b].0,
                seat_map(map).dom() == seats.dom(),
                forall|j: int|
                    0 <= j < i ==> #[trigger] seat_map(map)[entries@[j].0] == refresh_seat(
                        seats[entries@[j].0],
                        c,
                    ),
                forall|j: int|
                    i <= j < entries@.len() ==> #[trigger] seat_map(map)[entries@[j].0]
                        == seats[entries@[j].0],
            decreases entries.len() - i,
        {
            let key = entries[i].0;
            assert(seats.contains_key(entries@[i as int].0));
            assert(seats[key] == peer_view(entries@[i as int].1));
            match &entries[i].1 {
                Some(p) => {
                    if p.addr == conn.addr {
                        let ghost before = seat_map(map);
                        let id = match &conn.register_player_id {
                            Some(id) => Some(id.clone()),
                            None => None,
                        };
                        let peer = RelayPeer {
                            addr: p.addr,
                            permission_status: conn.permission_status,
                            register_player_id: id,
                        };
                        assert(peer_view(Some(peer)) == refresh_seat(seats[key], c));
                        seats_insert(&mut map, key, Some(peer));
                        assert(seat_map(map) == before.insert(key, refresh_seat(seats[key], c)));
                        assert forall|j: int| i < j < entries@.len() implies #[trigger] seat_map(map)[entries@[j].0]
                            == seats[entries@[j].0] by {
                            assert(entries@[i as int].0 != entries@[j].0);
                        }
                        assert forall|j: int| 0 <= j < i implies #[trigger] seat_map(map)[entries@[j].0]
                            == refresh_seat(seats[entries@[j].0], c) by {
                            assert(entries@[j].0 != entries@[i as int].0);
                        }
                    }
                },
                None => {},
            }
            i += 1;
        }
        assert forall|k: i32| #[trigger] seats.contains_key(k) implies seat_map(map)[k] == refresh_seat(seats[k], c) by {
            let j = choose|j: int| 0 <= j < entries@.len() && #[trigger] entries@[j].0 == k;
            assert(seat_map(map)[entries@[j].0] == refresh_seat(seats[entries@[j].0], c));
        }
        assert(seat_map(map) =~= refresh_seats(seats, c));
        self.conn_map = map;
    }
}

/// A relay connection as a value.
pub struct RelayConnectionView {
    pub last_receive_time: u64,
    pub addr: SockAddr,
    pub num_of_retries: u64,
    pub permission_status: RelayPermissionStatus,
    pub register_player_id: Option<Seq<char>>,
    pub name: Seq<char>,
    pub player_relay: Option<Seq<char>>,
}

/// A connection of the relay service: its peer, how far it has come, the
/// player id and name it registered, and the id of its player in its room. The
/// room, shared by its connections, is handed to the calls that need it.
pub struct RelayConnection {
    last_receive_time: u64,
    addr: SockAddr,
    num_of_retries: u64,
    permission_status: RelayPermissionStatus,
    register_player_id: Option<String>,
    name: String,
    player_relay: Option<String>,
}

impl View for RelayConnection {
    type V = RelayConnectionView;

    closed spec fn view(&self) -> RelayConnectionView {
        RelayConnectionView {
            last_receive_time: self.last_receive_time,
            addr: self.addr,
            num_of_retries: self.num_of_retries,
            permission_status: self.permission_status,
            register_player_id: opt_str_view(self.register_player_id),
            name: self.name@,
            player_relay: opt_str_view(self.player_relay),
        }
    }
}

/// What the relay does after a connection's register packet, besides updating
/// the connection.
#[derive(Debug)]
pub enum RegisterAction {
    /// Nothing more.
    Nothing,
    /// Kick the connection, with this message.
    Kick(String),
    /// Pass the packet on to the room's host.
    SendToHost(Packet),
}

/// What the player information at the start of a register packet gives: nothing
/// (the name was not reached), the name only, or the name and the player id.
pub enum RegisterInfo {
    Failed,
    NameOnly(Seq<char>),
    Parsed(Seq<char>, Seq<char>),
}

/// Reading a register packet's body: a string, 12 bytes, the name, an optional
/// string, a string, then the player id.
pub open spec fn register_info_spec(body: Seq<u8>) -> RegisterInfo {
    match read_str_spec(body) {
        None => RegisterInfo::Failed,
        Some((_, r1)) => if r1.len() < 12 {
            RegisterInfo::Failed
        } else {
            match read_str_spec(r1.skip(12)) {
                None => RegisterInfo::Failed,
                Some((name, r3)) => match read_is_str_spec(r3) {
                    None => RegisterInfo::NameOnly(name),
                    Some((_, r4)) => match read_str_spec(r4) {
                        None => RegisterInfo::NameOnly(name),
                        Some((_, r5)) => match read_str_spec(r5) {
                            None => RegisterInfo::NameOnly(name),
                            Some((id, _)) => RegisterInfo::Parsed(name, id),
                        },
                    },
                },
            }
        }
    }
}

/// The body of the `PREREGISTER_INFO` packet that the relay answers a new
/// connection with; `hash` closes it.
pub open spec fn preregister_info_body(hash: i32) -> Seq<u8> {
    str_bytes("net.rwhps.server.relayGetUUIDHex.Dr"@) + be_i32_bytes(1) + be_i32_bytes(0)
        + str_bytes("com.corrodinggames.rts.server"@) + str_bytes(
        "RCN Team & Tiexiu.xyz Core Team"@,
    ) + be_i32_bytes(hash)
}

/// The `PREREGISTER_INFO` packet closed by `hash`.
pub fn preregister_info_packet(hash: i32) -> (p: Packet)
    ensures
        p@ == (PacketView { ty: PacketType::PREREGISTER_INFO, bytes: preregister_info_body(hash) }),
{
    let p = PacketBuilder::default().with_type(PacketType::PREREGISTER_INFO).write_str(
        "net.rwhps.server.relayGetUUIDHex.Dr",
    ).write_i32(1).write_i32(0).write_str("com.corrodinggames.rts.server").write_str(
        "RCN Team & Tiexiu.xyz Core Team",
    ).write_i32(hash).build();
    assert(p@.bytes =~= preregister_info_body(hash));
    p
}

fn ignorable(e: ReadError) -> (r: HandlePacketError)
    ensures
        r.spec_kind() == HandlePacketErrorKind::Ignorable,
        r.spec_source() == ErrorSource::Read(e),
{
    HandlePacketError::new(HandlePacketErrorKind::Ignorable, ErrorSource::Read(e))
}


/// What a register packet comes to, as a value: an error of some kind (with its
/// message where the relay fixes it, a failed read where there is none), or one
/// of the actions.
pub enum RegisterOutcome {
    Nothing,
    Kick(Seq<char>),
    SendToHost(PacketView),
    Failed(HandlePacketErrorKind, Option<Seq<char>>),
}

/// Whether the result of a register meets the outcome `want`.
pub open spec fn register_result_meets(
    res: Result<RegisterAction, HandlePacketError>,
    want: RegisterOutcome,
) -> bool {
    match (res, want) {
        (Ok(RegisterAction::Nothing), RegisterOutcome::Nothing) => true,
        (Ok(RegisterAction::Kick(m)), RegisterOutcome::Kick(w)) => m@ == w,
        (Ok(RegisterAction::SendToHost(p)), RegisterOutcome::SendToHost(q)) => p@ == q,
        (Err(e), RegisterOutcome::Failed(k, msg)) => e.spec_kind() == k && match msg {
            Some(w) => e.spec_source() matches ErrorSource::Message(m) && m@ == w,
            None => e.spec_source() is Read,
        },
        _ => false,
    }
}

/// The view of an optional room.
pub open spec fn opt_room_view(r: Option<RelayRoom>) -> Option<RelayRoomView> {
    match r {
        Some(r) => Some(r@),
        None => None,
    }
}

/// Whether `found` is a conflict that the walk of the seats of `room` can give
/// for the connection `c` (none where no walk is made).
pub open spec fn register_conflict_ok(
    c: RelayConnectionView,
    room: Option<RelayRoomView>,
    found: Option<Conflict>,
) -> bool {
    match (c.register_player_id, room) {
        (Some(id), Some(room)) => if c.permission_status == RelayPermissionStatus::PlayerPermission
            && !room.is_start_game {
            conflict_found(room.seats, Some(id), found)
        } else {
            found is None
        },
        _ => found is None,
    }
}

/// What a register packet does to a connection and to its room, and what comes
/// of it, where the walk of the room's seats found `found`.
///
/// A connection without a player id takes its name and id from the packet (the
/// name is kept where only it could be read); its seats show the id. A connection with an id and
/// `PlayerPermission`, in a room whose game has not started, is stopped by the
/// first seat found that has lost its connection or whose connection joined
/// with the same id; else it gets a player in the room (where it has none),
/// becomes `PlayerJoinPermission` (which its seats show), and the packet goes on
/// to the host.
pub open spec fn register_spec(
    c: RelayConnectionView,
    room: Option<RelayRoomView>,
    packet: PacketView,
    found: Option<Conflict>,
) -> (RegisterOutcome, RelayConnectionView, Option<RelayRoomView>) {
    match c.register_player_id {
        None => match register_info_spec(packet.bytes) {
            RegisterInfo::Failed => (
                RegisterOutcome::Failed(HandlePacketErrorKind::Ignorable, None),
                c,
                room,
            ),
            RegisterInfo::NameOnly(name) => (
                RegisterOutcome::Failed(HandlePacketErrorKind::Ignorable, None),
                RelayConnectionView { name, ..c },
                room,
            ),
            RegisterInfo::Parsed(name, id) => {
                let c1 = RelayConnectionView { name, register_player_id: Some(id), ..c };
                (RegisterOutcome::Nothing, c1, refresh_room(room, c1))
            },
        },
        Some(id) => if c.permission_status != RelayPermissionStatus::PlayerPermission {
            (RegisterOutcome::Nothing, c, room)
        } else {
            match room {
                None => (
                    RegisterOutcome::Failed(
                        HandlePacketErrorKind::Fatal,
                        Some("no relay room in relay_register_connection"@),
                    ),
                    c,
                    room,
                ),
                Some(room) => {
                    let conflict = if room.is_start_game {
                        None
                    } else {
                        found
                    };
                    match conflict {
                        Some(Conflict::Expired) => (
                            RegisterOutcome::Failed(
                                HandlePacketErrorKind::Ignorable,
                                Some("expired conn not cleaned in relay_register_connection"@),
                            ),
                            c,
                            Some(room),
                        ),
                        Some(Conflict::Duplicate) => (
                            RegisterOutcome::Kick(
                                "[UUID Check] HEX repeated, just try another room"@,
                            ),
                            c,
                            Some(room),
                        ),
                        None => {
                            let players = if c.player_relay is None {
                                players_after(room.players, c.addr, id, c.name)
                            } else {
                                room.players
                            };
                            let player_relay = if c.player_relay is None {
                                Some(id)
                            } else {
                                c.player_relay
                            };
                            let c1 = RelayConnectionView {
                                permission_status: RelayPermissionStatus::PlayerJoinPermission,
                                player_relay,
                                ..c
                            };
                            (
                                RegisterOutcome::SendToHost(packet),
                                c1,
                                Some(
                                    RelayRoomView {
                                        players,
                                        seats: refresh_seats(room.seats, c1),
                                        ..room
                                    },
                                ),
                            )
                        },
                    }
                },
            }
        },
    }
}

impl RelayConnection {
    /// A new connection from peer `addr` that has not registered yet.
    pub fn new(addr: SockAddr) -> (c: Self)
        ensures
            c@ == (RelayConnectionView {
                last_receive_time: 0,
                addr,
                num_of_retries: 0,
                permission_status: RelayPermissionStatus::InitialConnection,
                register_player_id: None,
                name: Seq::empty(),
                player_relay: None,
            }),
    {
        Self {
            last_receive_time: 0,
            addr,
            num_of_retries: 0,
            permission_status: RelayPermissionStatus::InitialConnection,
            register_player_id: None,
            name: String::new(),
            player_relay: None,
        }
    }

    pub fn addr(&self) -> (a: &SockAddr)
        ensures
            *a == self@.addr,
    {
        &self.addr
    }

    pub fn num_of_retries(&self) -> (n: &u64)
        ensures
            *n == self@.num_of_retries,
    {
        &self.num_of_retries
    }

    pub fn permission_status(&self) -> (s: RelayPermissionStatus)
        ensures
            s == self@.permission_status,
    {
        self.permission_status
    }

    pub fn name(&self) -> (s: &str)
        ensures
            s@ == self@.name,
    {
        self.name.as_str()
    }

    /// Sets the connection's permission; the seats that hold the connection
    /// show it once its room's `refresh_conn` has seen the connection.
    pub fn set_permission_status(&mut self, status: RelayPermissionStatus)
        ensures
            final(self)@ == (RelayConnectionView { permission_status: status, ..old(self)@ }),
    {
        self.permission_status = status;
    }

    pub fn register_player_id(&self) -> (id: &Option<String>)
        ensures
            opt_str_view(*id) == self@.register_player_id,
    {
        &self.register_player_id
    }

    pub fn player_relay(&self) -> (id: &Option<String>)
        ensures
            opt_str_view(*id) == self@.player_relay,
    {
        &self.player_relay
    }

    /// Reads the name and player id from a register packet.
    fn register_player_info(&mut self, packet: &Packet) -> (res: Result<
        RegisterAction,
        HandlePacketError,
    >)
        requires
            old(self)@.register_player_id is None,
        ensures
            register_result_meets(res, register_spec(old(self)@, None, packet@, None).0),
            final(self)@ == register_spec(old(self)@, None, packet@, None).1,
    {
        let mut reader = PacketReader::from(packet.clone());
        if let Err(e) = reader.read_str() {
            return Err(ignorable(e));
        }
        if let Err(e) = reader.skip(12) {
            return Err(ignorable(e));
        }
        match reader.read_str() {
            Ok(name) => {
                self.name = name;
            },
            Err(e) => {
                return Err(ignorable(e));
            },
        }
        if let Err(e) = reader.read_is_str() {
            return Err(ignorable(e));
        }
        if let Err(e) = reader.read_str() {
            return Err(ignorable(e));
        }
        match reader.read_str() {
            Ok(id) => {
                self.register_player_id = Some(id);
                Ok(RegisterAction::Nothing)
            },
            Err(e) => Err(ignorable(e)),
        }
    }

    /// Handles a register packet, in the connection's room `room` (`None`
    /// where it has none): see `register_spec`.
    pub fn relay_register_connection(&mut self, room: &mut Option<RelayRoom>, packet: Packet) -> (res:
        Result<RegisterAction, HandlePacketError>)
        ensures
            res matches Ok(RegisterAction::SendToHost(q)) ==> q@ == packet@,
            exists|found: Option<Conflict>|
                #[trigger] register_conflict_ok(old(self)@, opt_room_view(*old(room)), found)
                    && register_result_meets(
                    res,
                    register_spec(old(self)@, opt_room_view(*old(room)), packet@, found).0,
                ) && final(self)@ == register_spec(
                    old(self)@,
                    opt_room_view(*old(room)),
                    packet@,
                    found,
                ).1 && opt_room_view(*final(room)) == register_spec(
                    old(self)@,
                    opt_room_view(*old(room)),
                    packet@,
                    found,
                ).2,
    {
        if self.register_player_id.is_none() {
            let res = self.register_player_info(&packet);
            if res.is_ok() {
                if let Some(mut r) = room.take() {
                    r.refresh_conn(self);
                    *room = Some(r);
                }
            }
            assert(register_conflict_ok(old(self)@, opt_room_view(*old(room)), None));
            return res;
        }
        if self.permission_status != RelayPermissionStatus::PlayerPermission {
            assert(register_conflict_ok(old(self)@, opt_room_view(*old(room)), None));
            return Ok(RegisterAction::Nothing);
        }
        self.register_player(room, packet)
    }

    /// Handles a register packet of a player with an id.
    fn register_player(&mut self, room: &mut Option<RelayRoom>, packet: Packet) -> (res: Result<
        RegisterAction,
        HandlePacketError,
    >)
        requires
            old(self)@.register_player_id is Some,
            old(self)@.permission_status == RelayPermissionStatus::PlayerPermission,
        ensures
            res matches Ok(RegisterAction::SendToHost(q)) ==> q@ == packet@,
            exists|found: Option<Conflict>|
                #[trigger] register_conflict_ok(old(self)@, opt_room_view(*old(room)), found)
                    && register_result_meets(
                    res,
                    register_spec(old(self)@, opt_room_view(*old(room)), packet@, found).0,
                ) && final(self)@ == register_spec(
                    old(self)@,
                    opt_room_view(*old(room)),
                    packet@,
                    found,
                ).1 && opt_room_view(*final(room)) == register_spec(
                    old(self)@,
                    opt_room_view(*old(room)),
                    packet@,
                    found,
                ).2,
    {
        let ghost old_view = self@;
        let ghost old_room = opt_room_view(*room);
        let mut r = match room.take() {
            Some(r) => r,
            None => {
                assert(register_conflict_ok(old_view, old_room, None));
                return Err(
                    HandlePacketError::new(
                        HandlePacketErrorKind::Fatal,
                        ErrorSource::Message("no relay room in relay_register_connection".to_owned()),
                    ),
                );
            },
        };
        let ghost mut found: Option<Conflict> = None;
        if !r.is_start_game {
            let c = r.first_conflict(&self.register_player_id);
            proof {
                found = c;
            }
            match c {
                Some(Conflict::Expired) => {
                    *room = Some(r);
                    assert(register_conflict_ok(old_view, old_room, found));
                    return Err(
                        HandlePacketError::new(
                            HandlePacketErrorKind::Ignorable,
                            ErrorSource::Message(
                                "expired conn not cleaned in relay_register_connection".to_owned(),
                            ),
                        ),
                    );
                },
                Some(Conflict::Duplicate) => {
                    *room = Some(r);
                    assert(register_conflict_ok(old_view, old_room, found));
                    return Ok(
                        RegisterAction::Kick(
                            "[UUID Check] HEX repeated, just try another room".to_owned(),
                        ),
                    );
                },
                None => {},
            }
        }
        if self.player_relay.is_none() {
            let id = match &self.register_player_id {
                Some(id) => id.clone(),
                None => String::new(),
            };
            r.player_or_insert(self.addr, &id, &self.name);
            self.player_relay = Some(id);
        }
        self.permission_status = RelayPermissionStatus::PlayerJoinPermission;
        r.refresh_conn(self);
        *room = Some(r);
        assert(register_conflict_ok(old_view, old_room, found));
        assert(self@ == register_spec(old_view, old_room, packet@, found).1);
        assert(opt_room_view(*room) == register_spec(old_view, old_room, packet@, found).2);
        Ok(RegisterAction::SendToHost(packet))
    }
}

/// What the relay's first check of a packet comes to: the packet goes on to
/// normal handling, or the relay answers it with this packet.
#[derive(Debug)]
pub enum RelayCheck {
    Pass,
    Reply(Packet),
}

/// Whether a connection has a player's permission (player, joined player, host
/// or debug).
pub open spec fn has_player_permission(s: RelayPermissionStatus) -> bool {
    s == RelayPermissionStatus::PlayerPermission || s == RelayPermissionStatus::PlayerJoinPermission
        || s == RelayPermissionStatus::HostPermission || s == RelayPermissionStatus::Debug
}

/// The states and packets the relay's first check handles: a connection with a
/// player's permission, or a new connection's `PREREGISTER_INFO_RECEIVE`.
pub open spec fn relay_check_handles(s: RelayPermissionStatus, ty: PacketType) -> bool {
    has_player_permission(s) || (s == RelayPermissionStatus::InitialConnection && ty
        == PacketType::PREREGISTER_INFO_RECEIVE)
}

/// The hash that closes the `PREREGISTER_INFO` packet: the standard hasher's
/// hash of "Dr @ 2022", from a new hasher, cut to 32 bits.
pub open spec fn preregister_hash_value() -> i32 {
    (<std::hash::DefaultHasher as DefaultHasherAdditionalSpecFns>::spec_finish(
        str_hash_feed(Seq::empty(), "Dr @ 2022"@),
    )) as i32
}

fn preregister_hash() -> (h: i32)
    ensures
        h == (<std::hash::DefaultHasher as DefaultHasherAdditionalSpecFns>::spec_finish(
            str_hash_feed(Seq::empty(), "Dr @ 2022"@),
        )) as i32,
        h == preregister_hash_value(),
{
    let mut hasher = std::hash::DefaultHasher::new();
    crate::outside::hash_str("Dr @ 2022", &mut hasher);
    let full = hasher.finish();
    full as i32
}

/// The hash that closes the `PREREGISTER_INFO` packet is the low 32 bits of the
/// standard hasher's 64-bit result over "Dr @ 2022", from a new hasher, read as
/// an `i32`.
pub proof fn lemma_preregister_hash_low_bits()
    ensures
        preregister_hash_value() as u32 == ((<std::hash::DefaultHasher as DefaultHasherAdditionalSpecFns>::spec_finish(
            str_hash_feed(Seq::empty(), "Dr @ 2022"@),
        )) % 0x1_0000_0000) as u32,
        preregister_hash_value() == (<std::hash::DefaultHasher as DefaultHasherAdditionalSpecFns>::spec_finish(
            str_hash_feed(Seq::empty(), "Dr @ 2022"@),
        )) as i32,
{
    let full = <std::hash::DefaultHasher as DefaultHasherAdditionalSpecFns>::spec_finish(
        str_hash_feed(Seq::empty(), "Dr @ 2022"@),
    );
    assert((full as i32) as u32 == (full % 0x1_0000_0000) as u32) by (bit_vector);
}

/// The relay service.
pub struct RelayService;

/// The relay's handler of one connection.
pub struct RelayServiceHandler {
    conn: RelayConnection,
}

impl RelayServiceHandler {
    pub fn new(conn: RelayConnection) -> (h: Self)
        ensures
            h.spec_conn() == conn,
    {
        Self { conn }
    }

    pub closed spec fn spec_conn(&self) -> RelayConnection {
        self.conn
    }

    pub fn conn(&self) -> (c: &RelayConnection)
        ensures
            *c == self.spec_conn(),
    {
        &self.conn
    }

    /// The first check of a packet, with `hash` to close an answer: a
    /// connection with a player's permission passes; a new connection's
    /// `PREREGISTER_INFO_RECEIVE` is answered with `PREREGISTER_INFO` and the
    /// connection moves on to `GetPlayerInfo`.
    pub fn relay_check_with_hash(&mut self, packet: &Packet, hash: i32) -> (r: RelayCheck)
        requires
            relay_check_handles(old(self).spec_conn()@.permission_status, packet@.ty),
        ensures
            has_player_permission(old(self).spec_conn()@.permission_status) ==> r is Pass
                && final(self).spec_conn()@ == old(self).spec_conn()@,
            !has_player_permission(old(self).spec_conn()@.permission_status) ==> (r matches RelayCheck::Reply(p)
                && p@ == (PacketView {
                ty: PacketType::PREREGISTER_INFO,
                bytes: preregister_info_body(hash),
            })) && final(self).spec_conn()@ == (RelayConnectionView {
                permission_status: RelayPermissionStatus::GetPlayerInfo,
                ..old(self).spec_conn()@
            }),
    {
        match self.conn.permission_status {
            RelayPermissionStatus::PlayerPermission
            | RelayPermissionStatus::PlayerJoinPermission
            | RelayPermissionStatus::HostPermission
            | RelayPermissionStatus::Debug => RelayCheck::Pass,
            _ => {
                self.conn.permission_status = RelayPermissionStatus::GetPlayerInfo;
                RelayCheck::Reply(preregister_info_packet(hash))
            },
        }
    }

    /// The first check of a packet, closing an answer with the standard
    /// hasher's hash of "Dr @ 2022".
    pub fn relay_check(&mut self, packet: &Packet) -> (r: RelayCheck)
        requires
            relay_check_handles(old(self).spec_conn()@.permission_status, packet@.ty),
        ensures
            has_player_permission(old(self).spec_conn()@.permission_status) ==> r is Pass
                && final(self).spec_conn()@ == old(self).spec_conn()@,
            !has_player_permission(old(self).spec_conn()@.permission_status) ==> (r matches RelayCheck::Reply(p)
                && p@ == (PacketView {
                ty: PacketType::PREREGISTER_INFO,
                bytes: preregister_info_body(preregister_hash_value()),
            })) && final(self).spec_conn()@
                == (RelayConnectionView {
                permission_status: RelayPermissionStatus::GetPlayerInfo,
                ..old(self).spec_conn()@
            }),
    {
        let hash = preregister_hash();
        self.relay_check_with_hash(packet, hash)
    }
}

/// The result of the first check once the answer, where there was one, has been
/// sent: `true` where it was sent, an error that closes the connection where
/// sending failed.
pub fn relay_reply_sent(sent: Result<(), std::io::Error>) -> (r: Result<bool, HandlePacketError>)
    ensures
        sent is Ok ==> r == Ok::<bool, HandlePacketError>(true),
        sent matches Err(x) ==> (r matches Err(e) && e.spec_kind() == HandlePacketErrorKind::Disconnect
            && e.spec_source() == ErrorSource::Io(x)),
{
    match sent {
        Ok(()) => Ok(true),
        Err(e) => Err(HandlePacketError::new(HandlePacketErrorKind::Disconnect, ErrorSource::Io(e))),
    }
}

/// A register packet that goes on to the host goes on as it came, kind and
/// whole body, so the host reads the name and player id from it; and it goes on
/// only from a connection with a player id and `PlayerPermission`, in a room.
pub proof fn lemma_register_forwards_packet(
    c: RelayConnectionView,
    room: Option<RelayRoomView>,
    p: PacketView,
    found: Option<Conflict>,
)
    ensures
        register_spec(c, room, p, found).0 matches RegisterOutcome::SendToHost(q) ==> q == p,
        register_spec(c, room, p, found).0 is SendToHost ==> c.register_player_id is Some
            && c.permission_status == RelayPermissionStatus::PlayerPermission && room is Some,
{
}

/// Once a player's register packet has gone on to the host, the connection has
/// joined: a further register packet changes neither it nor its room and asks
/// for nothing.
pub proof fn lemma_register_settles(
    c: RelayConnectionView,
    room: Option<RelayRoomView>,
    p: PacketView,
    found: Option<Conflict>,
    q: PacketView,
    later: Option<Conflict>,
)
    requires
        register_spec(c, room, p, found).0 is SendToHost,
    ensures
        ({
            let (_, c1, r1) = register_spec(c, room, p, found);
            register_spec(c1, r1, q, later) == (RegisterOutcome::Nothing, c1, r1)
        }),
{
}

/// A register packet keeps the room's invariant: each player is filed under its
/// own id.
pub proof fn lemma_register_keeps_room_wf(
    c: RelayConnectionView,
    room: Option<RelayRoomView>,
    p: PacketView,
    found: Option<Conflict>,
)
    requires
        room matches Some(r) ==> room_wf(r),
    ensures
        register_spec(c, room, p, found).2 matches Some(r) ==> room_wf(r),
{
}

/// What one connection's register packet does to the room it shares with the
/// other connections: the room keeps its seat keys and whether its game
/// started, the seats of the other connections and every player of the room
/// stay as they were, and where the packet goes on to
/// the host from a connection without a player yet, the connection's player id
/// is among the room's players.
pub proof fn lemma_register_in_shared_room(
    c: RelayConnectionView,
    room: RelayRoomView,
    p: PacketView,
    found: Option<Conflict>,
)
    ensures
        ({
            let (out, c1, r1) = register_spec(c, Some(room), p, found);
            &&& r1 matches Some(r) && r.seats.dom() == room.seats.dom() && r.is_start_game
                == room.is_start_game
            &&& r1 matches Some(r) ==> forall|k: i32| #[trigger]
                room.seats.contains_key(k) && !(room.seats[k] matches Some((a, _, _)) && a == c.addr)
                    ==> r.seats[k] == room.seats[k]
            &&& r1 matches Some(r) ==> forall|id: Seq<char>| #[trigger]
                room.players.contains_key(id) ==> r.players.contains_key(id) && r.players[id]
                    == room.players[id]
            &&& out is SendToHost && c.player_relay is None ==> (r1 matches Some(r)
                && c1.player_relay matches Some(pid) && r.players.contains_key(pid))
        }),
{
    if let Some(id) = c.register_player_id {
        if c.permission_status == RelayPermissionStatus::PlayerPermission && c.player_relay is None {
            let after = players_after(room.players, c.addr, id, c.name);
            assert forall|k: Seq<char>| #[trigger] room.players.contains_key(k) implies after.contains_key(k)
                && after[k] == room.players[k] by {
                if !room.players.contains_key(id) {
                    assert(k != id);
                }
            }
        }
    }
}

/// Once a connection has joined a room with player id `id` from its seat there,
/// another connection that registers as a player with the same id in that room,
/// before its game starts and while no seat has lost its connection, is kicked.
pub proof fn lemma_joined_id_is_kicked(
    a: RelayConnectionView,
    room: RelayRoomView,
    pa: PacketView,
    fa: Option<Conflict>,
    seat: i32,
    b: RelayConnectionView,
    pb: PacketView,
    fb: Option<Conflict>,
)
    requires
        register_spec(a, Some(room), pa, fa).0 is SendToHost,
        room.seats.contains_key(seat),
        room.seats[seat] matches Some((addr, _, _)) && addr == a.addr,
        b.register_player_id == a.register_player_id,
        b.permission_status == RelayPermissionStatus::PlayerPermission,
        !room.is_start_game,
        !has_expired_seat(register_spec(a, Some(room), pa, fa).2->Some_0.seats),
        register_conflict_ok(b, register_spec(a, Some(room), pa, fa).2, fb),
    ensures
        register_spec(b, register_spec(a, Some(room), pa, fa).2, pb, fb).0 == RegisterOutcome::Kick(
            "[UUID Check] HEX repeated, just try another room"@,
        ),
{
    let (_, a1, r1) = register_spec(a, Some(room), pa, fa);
    let room1 = r1->Some_0;
    assert(room1.seats.contains_key(seat));
    assert(room1.seats[seat] == refresh_seat(room.seats[seat], a1));
    assert(has_duplicate_seat(room1.seats, b.register_player_id));
}

} // verus!
