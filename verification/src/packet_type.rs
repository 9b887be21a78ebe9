//! The kinds of packets of the game's network protocol, and their numeric codes.
use vstd::prelude::*;

verus! {

/// The kind of a packet, as the game numbers it on the wire. Codes that name no
/// kind read as `NOT_RESOLVED`.
#[derive(Debug, Clone, Copy, PartialEq, Eq, Structural, Hash)]
#[allow(non_camel_case_types)]
pub enum PacketType {
    SERVER_DEBUG_RECEIVE,
    SERVER_DEBUG,
    GET_SERVER_INFO_RECEIVE,
    GET_SERVER_INFO,
    UPDATA_CLASS_RECEIVE,
    STATUS_RESULT,
    PREREGISTER_INFO_RECEIVE,
    PREREGISTER_INFO,
    PASSWD_ERROR,
    REGISTER_PLAYER,
    SERVER_INFO,
    TEAM_LIST,
    HEART_BEAT,
    HEART_BEAT_RESPONSE,
    CHAT_RECEIVE,
    CHAT,
    PACKET_DOWNLOAD_PENDING,
    KICK,
    DISCONNECT,
    START_GAME,
    ACCEPT_START_GAME,
    RETURN_TO_BATTLE_ROOM,
    TICK,
    GAMECOMMAND_RECEIVE,
    SYNCCHECKSUM_STATUS,
    SYNC_CHECK,
    SYNC,
    RELAY_117,
    RELAY_118_117_RETURN,
    RELAY_POW,
    RELAY_POW_RECEIVE,
    RELAY_VERSION_INFO,
    RELAY_BECOME_SERVER,
    FORWARD_CLIENT_ADD,
    FORWARD_CLIENT_REMOVE,
    PACKET_FORWARD_CLIENT_FROM,
    PACKET_FORWARD_CLIENT_TO,
    PACKET_FORWARD_CLIENT_TO_REPEATED,
    PACKET_RECONNECT_TO,
    EMPTYP_ACKAGE,
    NOT_RESOLVED,
}

impl PacketType {
    /// The code of a packet kind.
    pub open spec fn code(self) -> i32 {
        match self {
            PacketType::SERVER_DEBUG_RECEIVE => 2000i32,
            PacketType::SERVER_DEBUG => 2001i32,
            PacketType::GET_SERVER_INFO_RECEIVE => 3000i32,
            PacketType::GET_SERVER_INFO => 3001i32,
            PacketType::UPDATA_CLASS_RECEIVE => 3010i32,
            PacketType::STATUS_RESULT => 3999i32,
            PacketType::PREREGISTER_INFO_RECEIVE => 160i32,
            PacketType::PREREGISTER_INFO => 161i32,
            PacketType::PASSWD_ERROR => 113i32,
            PacketType::REGISTER_PLAYER => 110i32,
            PacketType::SERVER_INFO => 106i32,
            PacketType::TEAM_LIST => 115i32,
            PacketType::HEART_BEAT => 108i32,
            PacketType::HEART_BEAT_RESPONSE => 109i32,
            PacketType::CHAT_RECEIVE => 140i32,
            PacketType::CHAT => 141i32,
            PacketType::PACKET_DOWNLOAD_PENDING => 4i32,
            PacketType::KICK => 150i32,
            PacketType::DISCONNECT => 111i32,
            PacketType::START_GAME => 120i32,
            PacketType::ACCEPT_START_GAME => 112i32,
            PacketType::RETURN_TO_BATTLE_ROOM => 122i32,
            PacketType::TICK => 10i32,
            PacketType::GAMECOMMAND_RECEIVE => 20i32,
            PacketType::SYNCCHECKSUM_STATUS => 31i32,
            PacketType::SYNC_CHECK => 30i32,
            PacketType::SYNC => 35i32,
            PacketType::RELAY_117 => 117i32,
            PacketType::RELAY_118_117_RETURN => 118i32,
            PacketType::RELAY_POW => 151i32,
            PacketType::RELAY_POW_RECEIVE => 152i32,
            PacketType::RELAY_VERSION_INFO => 163i32,
            PacketType::RELAY_BECOME_SERVER => 170i32,
            PacketType::FORWARD_CLIENT_ADD => 172i32,
            PacketType::FORWARD_CLIENT_REMOVE => 173i32,
            PacketType::PACKET_FORWARD_CLIENT_FROM => 174i32,
            PacketType::PACKET_FORWARD_CLIENT_TO => 175i32,
            PacketType::PACKET_FORWARD_CLIENT_TO_REPEATED => 176i32,
            PacketType::PACKET_RECONNECT_TO => 178i32,
            PacketType::EMPTYP_ACKAGE => 0i32,
            PacketType::NOT_RESOLVED => -1i32,
        }
    }

    /// The packet kind of a code: the kind whose code it is, else `NOT_RESOLVED`.
    pub open spec fn of_code(n: i32) -> PacketType {
        match n {
            2000i32 => PacketType::SERVER_DEBUG_RECEIVE,
            2001i32 => PacketType::SERVER_DEBUG,
            3000i32 => PacketType::GET_SERVER_INFO_RECEIVE,
            3001i32 => PacketType::GET_SERVER_INFO,
            3010i32 => PacketType::UPDATA_CLASS_RECEIVE,
            3999i32 => PacketType::STATUS_RESULT,
            160i32 => PacketType::PREREGISTER_INFO_RECEIVE,
            161i32 => PacketType::PREREGISTER_INFO,
            113i32 => PacketType::PASSWD_ERROR,
            110i32 => PacketType::REGISTER_PLAYER,
            106i32 => PacketType::SERVER_INFO,
            115i32 => PacketType::TEAM_LIST,
            108i32 => PacketType::HEART_BEAT,
            109i32 => PacketType::HEART_BEAT_RESPONSE,
            140i32 => PacketType::CHAT_RECEIVE,
            141i32 => PacketType::CHAT,
            4i32 => PacketType::PACKET_DOWNLOAD_PENDING,
            150i32 => PacketType::KICK,
            111i32 => PacketType::DISCONNECT,
            120i32 => PacketType::START_GAME,
            112i32 => PacketType::ACCEPT_START_GAME,
            122i32 => PacketType::RETURN_TO_BATTLE_ROOM,
            10i32 => PacketType::TICK,
            20i32 => PacketType::GAMECOMMAND_RECEIVE,
            31i32 => PacketType::SYNCCHECKSUM_STATUS,
            30i32 => PacketType::SYNC_CHECK,
            35i32 => PacketType::SYNC,
            117i32 => PacketType::RELAY_117,
            118i32 => PacketType::RELAY_118_117_RETURN,
            151i32 => PacketType::RELAY_POW,
            152i32 => PacketType::RELAY_POW_RECEIVE,
            163i32 => PacketType::RELAY_VERSION_INFO,
            170i32 => PacketType::RELAY_BECOME_SERVER,
            172i32 => PacketType::FORWARD_CLIENT_ADD,
            173i32 => PacketType::FORWARD_CLIENT_REMOVE,
            174i32 => PacketType::PACKET_FORWARD_CLIENT_FROM,
            175i32 => PacketType::PACKET_FORWARD_CLIENT_TO,
            176i32 => PacketType::PACKET_FORWARD_CLIENT_TO_REPEATED,
            178i32 => PacketType::PACKET_RECONNECT_TO,
            0i32 => PacketType::EMPTYP_ACKAGE,
            _ => PacketType::NOT_RESOLVED,
        }
    }

    /// Whether some packet kind has code `n`.
    pub open spec fn is_code(n: i32) -> bool {
        exists|t: PacketType| t.code() == n
    }

    /// The code of this packet kind, as the wire carries it.
    pub fn to_i32(self) -> (n: i32)
        ensures
            n == self.code(),
    {
        match self {
            PacketType::SERVER_DEBUG_RECEIVE => 2000,
            PacketType::SERVER_DEBUG => 2001,
            PacketType::GET_SERVER_INFO_RECEIVE => 3000,
            PacketType::GET_SERVER_INFO => 3001,
            PacketType::UPDATA_CLASS_RECEIVE => 3010,
            PacketType::STATUS_RESULT => 3999,
            PacketType::PREREGISTER_INFO_RECEIVE => 160,
            PacketType::PREREGISTER_INFO => 161,
            PacketType::PASSWD_ERROR => 113,
            PacketType::REGISTER_PLAYER => 110,
            PacketType::SERVER_INFO => 106,
            PacketType::TEAM_LIST => 115,
            PacketType::HEART_BEAT => 108,
            PacketType::HEART_BEAT_RESPONSE => 109,
            PacketType::CHAT_RECEIVE => 140,
            PacketType::CHAT => 141,
            PacketType::PACKET_DOWNLOAD_PENDING => 4,
            PacketType::KICK => 150,
            PacketType::DISCONNECT => 111,
            PacketType::START_GAME => 120,
            PacketType::ACCEPT_START_GAME => 112,
            PacketType::RETURN_TO_BATTLE_ROOM => 122,
            PacketType::TICK => 10,
            PacketType::GAMECOMMAND_RECEIVE => 20,
            PacketType::SYNCCHECKSUM_STATUS => 31,
            PacketType::SYNC_CHECK => 30,
            PacketType::SYNC => 35,
            PacketType::RELAY_117 => 117,
            PacketType::RELAY_118_117_RETURN => 118,
            PacketType::RELAY_POW => 151,
            PacketType::RELAY_POW_RECEIVE => 152,
            PacketType::RELAY_VERSION_INFO => 163,
            PacketType::RELAY_BECOME_SERVER => 170,
            PacketType::FORWARD_CLIENT_ADD => 172,
            PacketType::FORWARD_CLIENT_REMOVE => 173,
            PacketType::PACKET_FORWARD_CLIENT_FROM => 174,
            PacketType::PACKET_FORWARD_CLIENT_TO => 175,
            PacketType::PACKET_FORWARD_CLIENT_TO_REPEATED => 176,
            PacketType::PACKET_RECONNECT_TO => 178,
            PacketType::EMPTYP_ACKAGE => 0,
            PacketType::NOT_RESOLVED => -1,
        }
    }

    /// The packet kind of a code read from the wire; a code that names no kind
    /// gives `NOT_RESOLVED`.
    pub fn from_i32(n: i32) -> (t: PacketType)
        ensures
            t == PacketType::of_code(n),
    {
        match n {
            2000 => PacketType::SERVER_DEBUG_RECEIVE,
            2001 => PacketType::SERVER_DEBUG,
            3000 => PacketType::GET_SERVER_INFO_RECEIVE,
            3001 => PacketType::GET_SERVER_INFO,
            3010 => PacketType::UPDATA_CLASS_RECEIVE,
            3999 => PacketType::STATUS_RESULT,
            160 => PacketType::PREREGISTER_INFO_RECEIVE,
            161 => PacketType::PREREGISTER_INFO,
            113 => PacketType::PASSWD_ERROR,
            110 => PacketType::REGISTER_PLAYER,
            106 => PacketType::SERVER_INFO,
            115 => PacketType::TEAM_LIST,
            108 => PacketType::HEART_BEAT,
            109 => PacketType::HEART_BEAT_RESPONSE,
            140 => PacketType::CHAT_RECEIVE,
            141 => PacketType::CHAT,
            4 => PacketType::PACKET_DOWNLOAD_PENDING,
            150 => PacketType::KICK,
            111 => PacketType::DISCONNECT,
            120 => PacketType::START_GAME,
            112 => PacketType::ACCEPT_START_GAME,
            122 => PacketType::RETURN_TO_BATTLE_ROOM,
            10 => PacketType::TICK,
            20 => PacketType::GAMECOMMAND_RECEIVE,
            31 => PacketType::SYNCCHECKSUM_STATUS,
            30 => PacketType::SYNC_CHECK,
            35 => PacketType::SYNC,
            117 => PacketType::RELAY_117,
            118 => PacketType::RELAY_118_117_RETURN,
            151 => PacketType::RELAY_POW,
            152 => PacketType::RELAY_POW_RECEIVE,
            163 => PacketType::RELAY_VERSION_INFO,
            170 => PacketType::RELAY_BECOME_SERVER,
            172 => PacketType::FORWARD_CLIENT_ADD,
            173 => PacketType::FORWARD_CLIENT_REMOVE,
            174 => PacketType::PACKET_FORWARD_CLIENT_FROM,
            175 => PacketType::PACKET_FORWARD_CLIENT_TO,
            176 => PacketType::PACKET_FORWARD_CLIENT_TO_REPEATED,
            178 => PacketType::PACKET_RECONNECT_TO,
            0 => PacketType::EMPTYP_ACKAGE,
            _ => PacketType::NOT_RESOLVED,
        }
    }
}

impl vstd::std_specs::convert::FromSpecImpl<i32> for PacketType {
    open spec fn obeys_from_spec() -> bool {
        true
    }

    open spec fn from_spec(n: i32) -> PacketType {
        PacketType::of_code(n)
    }
}

impl From<i32> for PacketType {
    fn from(n: i32) -> (t: PacketType) {
        PacketType::from_i32(n)
    }
}

impl vstd::std_specs::convert::FromSpecImpl<PacketType> for i32 {
    open spec fn obeys_from_spec() -> bool {
        true
    }

    open spec fn from_spec(t: PacketType) -> i32 {
        t.code()
    }
}

impl From<PacketType> for i32 {
    fn from(t: PacketType) -> (n: i32) {
        t.to_i32()
    }
}

/// The protocol's table of codes: each packet kind is written as its number
/// below, and that number reads back as the kind; `NOT_RESOLVED` is written as
/// `-1`, which names no kind.
pub proof fn lemma_code_table()
    ensures
        PacketType::SERVER_DEBUG_RECEIVE.code() == 2000i32 && PacketType::of_code(2000i32) == PacketType::SERVER_DEBUG_RECEIVE,
        PacketType::SERVER_DEBUG.code() == 2001i32 && PacketType::of_code(2001i32) == PacketType::SERVER_DEBUG,
        PacketType::GET_SERVER_INFO_RECEIVE.code() == 3000i32 && PacketType::of_code(3000i32) == PacketType::GET_SERVER_INFO_RECEIVE,
        PacketType::GET_SERVER_INFO.code() == 3001i32 && PacketType::of_code(3001i32) == PacketType::GET_SERVER_INFO,
        PacketType::UPDATA_CLASS_RECEIVE.code() == 3010i32 && PacketType::of_code(3010i32) == PacketType::UPDATA_CLASS_RECEIVE,
        PacketType::STATUS_RESULT.code() == 3999i32 && PacketType::of_code(3999i32) == PacketType::STATUS_RESULT,
        PacketType::PREREGISTER_INFO_RECEIVE.code() == 160i32 && PacketType::of_code(160i32) == PacketType::PREREGISTER_INFO_RECEIVE,
        PacketType::PREREGISTER_INFO.code() == 161i32 && PacketType::of_code(161i32) == PacketType::PREREGISTER_INFO,
        PacketType::PASSWD_ERROR.code() == 113i32 && PacketType::of_code(113i32) == PacketType::PASSWD_ERROR,
        PacketType::REGISTER_PLAYER.code() == 110i32 && PacketType::of_code(110i32) == PacketType::REGISTER_PLAYER,
        PacketType::SERVER_INFO.code() == 106i32 && PacketType::of_code(106i32) == PacketType::SERVER_INFO,
        PacketType::TEAM_LIST.code() == 115i32 && PacketType::of_code(115i32) == PacketType::TEAM_LIST,
        PacketType::HEART_BEAT.code() == 108i32 && PacketType::of_code(108i32) == PacketType::HEART_BEAT,
        PacketType::HEART_BEAT_RESPONSE.code() == 109i32 && PacketType::of_code(109i32) == PacketType::HEART_BEAT_RESPONSE,
        PacketType::CHAT_RECEIVE.code() == 140i32 && PacketType::of_code(140i32) == PacketType::CHAT_RECEIVE,
        PacketType::CHAT.code() == 141i32 && PacketType::of_code(141i32) == PacketType::CHAT,
        PacketType::PACKET_DOWNLOAD_PENDING.code() == 4i32 && PacketType::of_code(4i32) == PacketType::PACKET_DOWNLOAD_PENDING,
        PacketType::KICK.code() == 150i32 && PacketType::of_code(150i32) == PacketType::KICK,
        PacketType::DISCONNECT.code() == 111i32 && PacketType::of_code(111i32) == PacketType::DISCONNECT,
        PacketType::START_GAME.code() == 120i32 && PacketType::of_code(120i32) == PacketType::START_GAME,
        PacketType::ACCEPT_START_GAME.code() == 112i32 && PacketType::of_code(112i32) == PacketType::ACCEPT_START_GAME,
        PacketType::RETURN_TO_BATTLE_ROOM.code() == 122i32 && PacketType::of_code(122i32) == PacketType::RETURN_TO_BATTLE_ROOM,
        PacketType::TICK.code() == 10i32 && PacketType::of_code(10i32) == PacketType::TICK,
        PacketType::GAMECOMMAND_RECEIVE.code() == 20i32 && PacketType::of_code(20i32) == PacketType::GAMECOMMAND_RECEIVE,
        PacketType::SYNCCHECKSUM_STATUS.code() == 31i32 && PacketType::of_code(31i32) == PacketType::SYNCCHECKSUM_STATUS,
        PacketType::SYNC_CHECK.code() == 30i32 && PacketType::of_code(30i32) == PacketType::SYNC_CHECK,
        PacketType::SYNC.code() == 35i32 && PacketType::of_code(35i32) == PacketType::SYNC,
        PacketType::RELAY_117.code() == 117i32 && PacketType::of_code(117i32) == PacketType::RELAY_117,
        PacketType::RELAY_118_117_RETURN.code() == 118i32 && PacketType::of_code(118i32) == PacketType::RELAY_118_117_RETURN,
        PacketType::RELAY_POW.code() == 151i32 && PacketType::of_code(151i32) == PacketType::RELAY_POW,
        PacketType::RELAY_POW_RECEIVE.code() == 152i32 && PacketType::of_code(152i32) == PacketType::RELAY_POW_RECEIVE,
        PacketType::RELAY_VERSION_INFO.code() == 163i32 && PacketType::of_code(163i32) == PacketType::RELAY_VERSION_INFO,
        PacketType::RELAY_BECOME_SERVER.code() == 170i32 && PacketType::of_code(170i32) == PacketType::RELAY_BECOME_SERVER,
        PacketType::FORWARD_CLIENT_ADD.code() == 172i32 && PacketType::of_code(172i32) == PacketType::FORWARD_CLIENT_ADD,
        PacketType::FORWARD_CLIENT_REMOVE.code() == 173i32 && PacketType::of_code(173i32) == PacketType::FORWARD_CLIENT_REMOVE,
        PacketType::PACKET_FORWARD_CLIENT_FROM.code() == 174i32 && PacketType::of_code(174i32) == PacketType::PACKET_FORWARD_CLIENT_FROM,
        PacketType::PACKET_FORWARD_CLIENT_TO.code() == 175i32 && PacketType::of_code(175i32) == PacketType::PACKET_FORWARD_CLIENT_TO,
        PacketType::PACKET_FORWARD_CLIENT_TO_REPEATED.code() == 176i32 && PacketType::of_code(176i32) == PacketType::PACKET_FORWARD_CLIENT_TO_REPEATED,
        PacketType::PACKET_RECONNECT_TO.code() == 178i32 && PacketType::of_code(178i32) == PacketType::PACKET_RECONNECT_TO,
        PacketType::EMPTYP_ACKAGE.code() == 0i32 && PacketType::of_code(0i32) == PacketType::EMPTYP_ACKAGE,
        PacketType::NOT_RESOLVED.code() == -1i32 && PacketType::of_code(-1i32) == PacketType::NOT_RESOLVED,
{
}

/// A packet kind read back from its code is that kind.
pub proof fn lemma_code_roundtrip(t: PacketType)
    ensures
        PacketType::of_code(t.code()) == t,
{
}

/// A code read as a packet kind and written back is the same code exactly when
/// some kind has that code; every other code reads as `NOT_RESOLVED`.
pub proof fn lemma_of_code(n: i32)
    ensures
        PacketType::is_code(n) ==> PacketType::of_code(n).code() == n,
        !PacketType::is_code(n) ==> PacketType::of_code(n) == PacketType::NOT_RESOLVED,
{
    if PacketType::is_code(n) {
        let t = choose|t: PacketType| t.code() == n;
        lemma_code_roundtrip(t);
    } else {
        assert(PacketType::of_code(n).code() != n ==> PacketType::of_code(n) == PacketType::NOT_RESOLVED);
    }
}

} // verus!
