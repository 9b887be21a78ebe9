//! Trusted declarations of the outside crates' items that the library calls.
use vstd::prelude::*;
use crate::relay::{peer_view, PlayerRelay, PlayerRelayView, RelayPeer, SeatView};

verus! {

#[verifier::external_type_specification]
#[verifier::external_body]
pub struct ExBytes(bytes::Bytes);

/// The bytes that a `bytes::Bytes` value holds.
pub uninterp spec fn bytes_content(b: bytes::Bytes) -> Seq<u8>;

/// Calls `<bytes::Bytes as From<Vec<u8>>>::from`, which takes over the vector's
/// storage: the result holds exactly the vector's bytes.
#[verifier::external_body]
pub(crate) fn bytes_from_vec(v: Vec<u8>) -> (b: bytes::Bytes)
    ensures
        bytes_content(b) == v@,
{
    bytes::Bytes::from(v)
}


/// Calls `<bytes::Bytes as Clone>::clone`: a second handle on the same bytes.
#[verifier::external_body]
pub(crate) fn bytes_clone(b: &bytes::Bytes) -> (c: bytes::Bytes)
    ensures
        bytes_content(c) == bytes_content(*b),
{
    b.clone()
}

/// Calls `<bytes::Bytes as Deref>::deref`: the held bytes as a slice.
#[verifier::external_body]
pub(crate) fn bytes_as_slice(b: &bytes::Bytes) -> (s: &[u8])
    ensures
        s@ == bytes_content(*b),
{
    b
}

#[verifier::external_type_specification]
#[verifier::external_body]
#[verifier::reject_recursive_types(B)]
pub struct ExReader<B>(bytes::buf::Reader<B>);

#[verifier::external_type_specification]
#[verifier::external_body]
pub struct ExIoError(std::io::Error);

#[verifier::external_type_specification]
pub struct ExIoErrorKind(std::io::ErrorKind);

#[verifier::external_type_specification]
#[verifier::external_body]
pub struct ExFromUtf8Error(std::string::FromUtf8Error);

/// The bytes that a reader over `bytes::Bytes` has not yet handed out.
pub uninterp spec fn reader_remaining(r: bytes::buf::Reader<bytes::Bytes>) -> Seq<u8>;

/// Calls `bytes::Buf::reader` on a `bytes::Bytes`: a reader whose unread bytes
/// are all the bytes held.
#[verifier::external_body]
pub(crate) fn bytes_reader(b: bytes::Bytes) -> (r: bytes::buf::Reader<bytes::Bytes>)
    ensures
        reader_remaining(r) == bytes_content(b),
{
    bytes::Buf::reader(b)
}

/// Calls `byteorder::ReadBytesExt::read_u8` on a reader over `bytes::Bytes`.
/// The reader's `read` copies as many unread bytes as fit, never fails, and
/// returns 0 only when nothing is left, so `read_exact` succeeds exactly when a
/// byte is left, hands out the first unread byte and moves past it. Where it
/// fails, how far the reader moved is not stated.
#[verifier::external_body]
pub(crate) fn reader_read_u8(r: &mut bytes::buf::Reader<bytes::Bytes>) -> (res: Result<u8, std::io::Error>)
    ensures
        res is Ok <==> reader_remaining(*old(r)).len() >= 1,
        res matches Ok(v) ==> v == reader_remaining(*old(r))[0] && reader_remaining(*final(r))
            == reader_remaining(*old(r)).skip(1),
{
    byteorder::ReadBytesExt::read_u8(r)
}

/// Calls `byteorder::ReadBytesExt::read_u16::<BigEndian>` on a reader over
/// `bytes::Bytes`: succeeds exactly when two bytes are left, returns them read
/// most significant first and moves past them. Where it fails, how far the
/// reader moved is not stated.
#[verifier::external_body]
pub(crate) fn reader_read_u16_be(r: &mut bytes::buf::Reader<bytes::Bytes>) -> (res: Result<u16, std::io::Error>)
    ensures
        res is Ok <==> reader_remaining(*old(r)).len() >= 2,
        res matches Ok(v) ==> v == crate::wire::be_u16_value(reader_remaining(*old(r)))
            && reader_remaining(*final(r)) == reader_remaining(*old(r)).skip(2),
{
    byteorder::ReadBytesExt::read_u16::<byteorder::BigEndian>(r)
}

/// Calls `byteorder::ReadBytesExt::read_i32::<BigEndian>` on a reader over
/// `bytes::Bytes`: succeeds exactly when four bytes are left, returns them read
/// as a two's complement number most significant first and moves past them.
/// Where it fails, how far the reader moved is not stated.
#[verifier::external_body]
pub(crate) fn reader_read_i32_be(r: &mut bytes::buf::Reader<bytes::Bytes>) -> (res: Result<i32, std::io::Error>)
    ensures
        res is Ok <==> reader_remaining(*old(r)).len() >= 4,
        res matches Ok(v) ==> v == crate::wire::be_i32_value(reader_remaining(*old(r)))
            && reader_remaining(*final(r)) == reader_remaining(*old(r)).skip(4),
{
    byteorder::ReadBytesExt::read_i32::<byteorder::BigEndian>(r)
}

/// Calls `std::io::Read::read_exact` on a reader over `bytes::Bytes` with the
/// whole of `buf`: succeeds exactly when `buf.len()` bytes are left, fills `buf`
/// with them and moves past them. Where it fails, neither the reader's position
/// nor the contents of `buf` are stated.
#[verifier::external_body]
pub(crate) fn reader_read_exact(r: &mut bytes::buf::Reader<bytes::Bytes>, buf: &mut Vec<u8>) -> (res: Result<(), std::io::Error>)
    ensures
        final(buf)@.len() == old(buf)@.len(),
        res is Ok <==> reader_remaining(*old(r)).len() >= old(buf)@.len(),
        res is Ok ==> final(buf)@ == reader_remaining(*old(r)).take(old(buf)@.len() as int)
            && reader_remaining(*final(r)) == reader_remaining(*old(r)).skip(old(buf)@.len() as int),
{
    std::io::Read::read_exact(r, buf.as_mut_slice())
}

/// Calls `String::from_utf8`: succeeds exactly when the bytes are UTF-8, with
/// the string they encode.
#[verifier::external_body]
pub(crate) fn string_from_utf8(v: Vec<u8>) -> (res: Result<String, std::string::FromUtf8Error>)
    ensures
        res is Ok <==> vstd::utf8::valid_utf8(v@),
        res matches Ok(s) ==> s@ == vstd::utf8::decode_utf8(v@),
{
    String::from_utf8(v)
}

/// Calls `std::io::Error::new` with `ErrorKind::Other` on a UTF-8 error.
#[verifier::external_body]
pub(crate) fn io_error_other(e: std::string::FromUtf8Error) -> std::io::Error {
    std::io::Error::new(std::io::ErrorKind::Other, e)
}

/// Calls `byteorder::WriteBytesExt::write_u16::<BigEndian>` on a vector, which
/// appends the two bytes of `n`, most significant first; appending to a vector
/// does not fail.
#[verifier::external_body]
pub(crate) fn vec_write_u16_be(v: &mut Vec<u8>, n: u16)
    ensures
        final(v)@ == old(v)@ + crate::wire::be_u16_bytes(n),
{
    byteorder::WriteBytesExt::write_u16::<byteorder::BigEndian>(v, n).expect("write str failed")
}

/// Calls `byteorder::WriteBytesExt::write_i32::<BigEndian>` on a vector, which
/// appends the four bytes of `n`, most significant first; appending to a vector
/// does not fail.
#[verifier::external_body]
pub(crate) fn vec_write_i32_be(v: &mut Vec<u8>, n: i32)
    ensures
        final(v)@ == old(v)@ + crate::wire::be_i32_bytes(n),
{
    byteorder::WriteBytesExt::write_i32::<byteorder::BigEndian>(v, n).expect("write i32 failed")
}


/// Calls `num_cpus::get`, whose documentation promises at least 1; the number
/// itself depends on the machine.
#[verifier::external_body]
pub(crate) fn num_cpus_get() -> (n: usize)
    ensures
        n >= 1,
{
    num_cpus::get()
}


/// The state of a `DefaultHasher` after `<str as Hash>::hash` fed it `s` from
/// state `state`.
pub uninterp spec fn str_hash_feed(state: Seq<Seq<u8>>, s: Seq<char>) -> Seq<Seq<u8>>;

/// Calls `<str as std::hash::Hash>::hash` into a `DefaultHasher`. What it feeds
/// the hasher depends on the string and the hasher's state alone (a
/// `DefaultHasher` is not seeded per process); std documents no byte layout
/// for it, so the new state is given by a name.
#[verifier::external_body]
pub(crate) fn hash_str(s: &str, h: &mut std::hash::DefaultHasher)
    ensures
        final(h)@ == str_hash_feed(old(h)@, s@),
{
    std::hash::Hash::hash(s, h)
}

#[verifier::external_type_specification]
#[verifier::external_body]
#[verifier::reject_recursive_types(K)]
#[verifier::reject_recursive_types(V)]
#[verifier::reject_recursive_types(S)]
pub struct ExDashMap<K, V, S>(dashmap::DashMap<K, V, S>);

/// The seats that a room's `DashMap` holds: each key with its connection's
/// peer, permission and player id, or `None` where the connection is gone.
pub uninterp spec fn seat_map(m: dashmap::DashMap<i32, Option<RelayPeer>>) -> Map<i32, SeatView>;

/// The players that a room's `DashMap` holds, by the string key they are filed
/// under.
pub uninterp spec fn player_map(m: dashmap::DashMap<String, PlayerRelay>) -> Map<
    Seq<char>,
    PlayerRelayView,
>;

/// Calls `dashmap::DashMap::new` for a room's seats: an empty map.
#[verifier::external_body]
pub(crate) fn seats_new() -> (fresh: dashmap::DashMap<i32, Option<RelayPeer>>)
    ensures
        seat_map(fresh).dom() == Set::<i32>::empty(),
{
    dashmap::DashMap::new()
}

/// Calls `dashmap::DashMap::insert`: the key now holds the value, in place of
/// any value it held; the other keys are untouched.
#[verifier::external_body]
pub(crate) fn seats_insert(m: &mut dashmap::DashMap<i32, Option<RelayPeer>>, site: i32, peer: Option<RelayPeer>)
    ensures
        seat_map(*final(m)) == seat_map(*old(m)).insert(site, peer_view(peer)),
{
    m.insert(site, peer);
}

/// Calls `dashmap::DashMap::iter` and copies each entry out: every key of the
/// map comes once, with its value, in an order that the source leaves open.
#[verifier::external_body]
pub(crate) fn seats_entries(m: &dashmap::DashMap<i32, Option<RelayPeer>>) -> (v: Vec<(i32, Option<RelayPeer>)>)
    ensures
        forall|j: int|
            0 <= j < v@.len() ==> #[trigger] seat_map(*m).contains_key(v@[j].0) && seat_map(*m)[v@[j].0]
                == peer_view(v@[j].1),
        forall|k: i32| #[trigger]
            seat_map(*m).contains_key(k) ==> exists|j: int| 0 <= j < v@.len() && #[trigger] v@[j].0 == k,
        forall|a: int, b: int| 0 <= a < b < v@.len() ==> #[trigger] v@[a].0 != #[trigger] v@[b].0,
{
    m.iter().map(|r| (*r.key(), crate::relay::clone_peer(r.value()))).collect()
}

/// Calls `dashmap::DashMap::new` for a room's players: an empty map.
#[verifier::external_body]
pub(crate) fn players_new() -> (made: dashmap::DashMap<String, PlayerRelay>)
    ensures
        player_map(made).dom() == Set::<Seq<char>>::empty(),
{
    dashmap::DashMap::new()
}

/// Calls `dashmap::DashMap::contains_key`: whether a value is filed under the
/// key.
#[verifier::external_body]
pub(crate) fn players_contains(m: &dashmap::DashMap<String, PlayerRelay>, id: &String) -> (b: bool)
    ensures
        b == player_map(*m).contains_key(id@),
{
    m.contains_key(id)
}

/// Calls `dashmap::DashMap::insert`: the key now holds the value, in place of
/// any value it held; the other keys are untouched.
#[verifier::external_body]
pub(crate) fn players_insert(m: &mut dashmap::DashMap<String, PlayerRelay>, id: String, p: PlayerRelay)
    ensures
        player_map(*final(m)) == player_map(*old(m)).insert(id@, p@),
{
    m.insert(id, p);
}

/// Calls `dashmap::DashMap::get` and copies the value out: the value filed
/// under the key, where there is one.
#[verifier::external_body]
pub(crate) fn players_get(m: &dashmap::DashMap<String, PlayerRelay>, id: &String) -> (p: Option<PlayerRelay>)
    ensures
        p is Some <==> player_map(*m).contains_key(id@),
        p matches Some(p) ==> p@ == player_map(*m)[id@],
{
    m.get(id).map(|r| crate::relay::clone_player(r.value()))
}

/// Calls `dashmap::DashMap::len`: how many key-value pairs the map holds.
#[verifier::external_body]
pub(crate) fn players_len(m: &dashmap::DashMap<String, PlayerRelay>) -> (n: usize)
    ensures
        n == player_map(*m).len(),
{
    m.len()
}

} // verus!
