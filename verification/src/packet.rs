//! Packets of the game protocol: their two wire framings, a builder that writes
//! a packet's body and a reader that reads it back.
use vstd::prelude::*;
use vstd::slice::*;
use crate::error::{FrameError, ReadError};
use crate::outside::{
    bytes_as_slice, bytes_clone, bytes_content, bytes_from_vec, bytes_reader, reader_read_exact,
    reader_read_i32_be, reader_read_u16_be, reader_read_u8, reader_remaining, string_from_utf8, vec_write_i32_be, vec_write_u16_be,
};
use crate::packet_type::PacketType;
use crate::wire::{be_u16_value, be_i32_bytes, be_i32_value, be_u16_bytes, be_u32_of, read_str_spec, str_bytes};

verus! {

/// A packet as a value: its kind and its body.
pub struct PacketView {
    pub ty: PacketType,
    pub bytes: Seq<u8>,
}

/// The largest body that the network framing accepts.
pub open spec fn max_size() -> int {
    50000000
}

/// The network framing: the body's length, the kind's code, then the body, the
/// two numbers as big-endian `i32` (the length cut to 32 bits).
pub open spec fn net_frame(p: PacketView) -> Seq<u8> {
    be_i32_bytes(p.bytes.len() as i32) + be_i32_bytes(p.ty.code()) + p.bytes
}

/// The game framing: the kind's code, the body's length, then the body, the
/// two numbers as big-endian `i32` (the length cut to 32 bits).
pub open spec fn game_frame(p: PacketView) -> Seq<u8> {
    be_i32_bytes(p.ty.code()) + be_i32_bytes(p.bytes.len() as i32) + p.bytes
}

/// Reading one network frame from the start of `s`: the packet and the number
/// of bytes it took, or why there is none. The length is checked as soon as it
/// is there, before the rest of the frame.
pub open spec fn decode_net_spec(s: Seq<u8>) -> Result<(PacketView, nat), FrameError> {
    if s.len() < 4 {
        Err(FrameError::Incomplete)
    } else {
        let len = be_i32_value(s);
        if len < 0 {
            Err(FrameError::LengthBelowZero)
        } else if len > max_size() {
            Err(FrameError::LengthTooLong)
        } else if s.len() < 8 + len {
            Err(FrameError::Incomplete)
        } else {
            Ok(
                (
                    PacketView {
                        ty: PacketType::of_code(be_i32_value(s.skip(4))),
                        bytes: s.subrange(8, 8 + len),
                    },
                    (8 + len) as nat,
                ),
            )
        }
    }
}

/// Whether the game frame at the start of `s` has a negative length field.
pub open spec fn game_length_negative(s: Seq<u8>) -> bool {
    s.len() >= 8 && be_i32_value(s.skip(4)) < 0
}

/// Reading one game frame from the start of `s` (whose length field, where
/// there is one, is not negative).
pub open spec fn decode_game_spec(s: Seq<u8>) -> Result<(PacketView, nat), FrameError> {
    if s.len() < 8 {
        Err(FrameError::Incomplete)
    } else {
        let len = be_i32_value(s.skip(4)) as int;
        if s.len() < 8 + len {
            Err(FrameError::Incomplete)
        } else {
            Ok(
                (
                    PacketView {
                        ty: PacketType::of_code(be_i32_value(s)),
                        bytes: s.subrange(8, 8 + len),
                    },
                    (8 + len) as nat,
                ),
            )
        }
    }
}

/// The big-endian `i32` at `at` in `buf`.
fn read_be_i32(buf: &[u8], at: usize) -> (n: i32)
    requires
        at + 4 <= buf@.len(),
    ensures
        n == be_i32_value(buf@.skip(at as int)),
{
    let b0 = buf[at];
    let b1 = buf[at + 1];
    let b2 = buf[at + 2];
    let b3 = buf[at + 3];
    let u: u32 = ((b0 as u32) << 24u32) | ((b1 as u32) << 16u32) | ((b2 as u32) << 8u32) | (
    b3 as u32);
    assert(u == be_u32_of(b0, b1, b2, b3));
    u as i32
}

/// A packet: its kind and its body.
#[derive(Debug)]
pub struct Packet {
    ty: PacketType,
    bytes: bytes::Bytes,
}

impl View for Packet {
    type V = PacketView;

    closed spec fn view(&self) -> PacketView {
        PacketView { ty: self.ty, bytes: bytes_content(self.bytes) }
    }
}

impl Clone for Packet {
    fn clone(&self) -> (c: Self)
        ensures
            c@ == self@,
    {
        Packet { ty: self.ty, bytes: bytes_clone(&self.bytes) }
    }
}

impl Packet {
    pub const HEADER_SIZE: i32 = 8;

    pub const MAX_SIZE: i32 = 50000000;

    pub fn new(ty: PacketType, bytes: bytes::Bytes) -> (p: Self)
        ensures
            p@ == (PacketView { ty, bytes: bytes_content(bytes) }),
    {
        Self { ty, bytes }
    }

    pub fn ty(&self) -> (t: &PacketType)
        ensures
            *t == self@.ty,
    {
        &self.ty
    }

    pub fn bytes(&self) -> (b: &bytes::Bytes)
        ensures
            bytes_content(*b) == self@.bytes,
    {
        &self.bytes
    }

    /// The packet's bytes in the network framing.
    pub fn encode_net(&self) -> (v: Vec<u8>)
        ensures
            v@ == net_frame(self@),
    {
        let body = bytes_as_slice(&self.bytes);
        let mut out: Vec<u8> = Vec::new();
        vec_write_i32_be(&mut out, body.len() as i32);
        vec_write_i32_be(&mut out, self.ty.to_i32());
        out.extend_from_slice(body);
        assert(out@ =~= net_frame(self@));
        out
    }

    /// The packet's bytes in the game framing.
    pub fn encode_game(&self) -> (v: Vec<u8>)
        ensures
            v@ == game_frame(self@),
    {
        let body = bytes_as_slice(&self.bytes);
        let mut out: Vec<u8> = Vec::new();
        vec_write_i32_be(&mut out, self.ty.to_i32());
        vec_write_i32_be(&mut out, body.len() as i32);
        out.extend_from_slice(body);
        assert(out@ =~= game_frame(self@));
        out
    }

    /// Reads one network frame from the start of `buf`.
    pub fn decode_net(buf: &[u8]) -> (res: Result<(Packet, usize), FrameError>)
        ensures
            match (res, decode_net_spec(buf@)) {
                (Ok((p, n)), Ok((q, m))) => p@ == q && n == m,
                (Err(e), Err(f)) => e == f,
                _ => false,
            },
    {
        if buf.len() < 4 {
            return Err(FrameError::Incomplete);
        }
        let len = read_be_i32(buf, 0);
        assert(buf@.skip(0) =~= buf@);
        if len < 0 {
            Err(FrameError::LengthBelowZero)
        } else if len > Packet::MAX_SIZE {
            Err(FrameError::LengthTooLong)
        } else if buf.len() < 8 + len as usize {
            Err(FrameError::Incomplete)
        } else {
            let code = read_be_i32(buf, 4);
            let body = slice_to_vec(slice_subrange(buf, 8, 8 + len as usize));
            let p = Packet::new(PacketType::from_i32(code), bytes_from_vec(body));
            Ok((p, 8 + len as usize))
        }
    }

    /// Whether the game frame at the start of `buf` has a negative length field.
    pub fn game_length_is_negative(buf: &[u8]) -> (b: bool)
        ensures
            b == game_length_negative(buf@),
    {
        buf.len() >= 8 && read_be_i32(buf, 4) < 0
    }

    /// The body length that the header of a game frame at the start of `buf`
    /// gives, where it is not negative.
    pub fn game_body_length(buf: &[u8]) -> (n: usize)
        requires
            buf@.len() >= 8,
            !game_length_negative(buf@),
        ensures
            n == be_i32_value(buf@.skip(4)),
    {
        read_be_i32(buf, 4) as usize
    }

    /// Reads one game frame from the start of `buf`, whose length field must not
    /// be negative.
    pub fn decode_game(buf: &[u8]) -> (res: Result<(Packet, usize), FrameError>)
        requires
            !game_length_negative(buf@),
        ensures
            match (res, decode_game_spec(buf@)) {
                (Ok((p, n)), Ok((q, m))) => p@ == q && n == m,
                (Err(e), Err(f)) => e == f,
                _ => false,
            },
    {
        if buf.len() < 8 {
            return Err(FrameError::Incomplete);
        }
        let code = read_be_i32(buf, 0);
        assert(buf@.skip(0) =~= buf@);
        let len = read_be_i32(buf, 4);
        if buf.len() - 8 < len as usize {
            Err(FrameError::Incomplete)
        } else {
            let body = slice_to_vec(slice_subrange(buf, 8, 8 + len as usize));
            let p = Packet::new(PacketType::from_i32(code), bytes_from_vec(body));
            Ok((p, 8 + len as usize))
        }
    }
}

/// Writes the body of a packet, field after field.
pub struct PacketBuilder {
    ty: PacketType,
    bytes: Vec<u8>,
}

impl View for PacketBuilder {
    type V = PacketView;

    closed spec fn view(&self) -> PacketView {
        PacketView { ty: self.ty, bytes: self.bytes@ }
    }
}

impl Default for PacketBuilder {
    fn default() -> (b: Self)
        ensures
            b@ == (PacketView { ty: PacketType::NOT_RESOLVED, bytes: Seq::empty() }),
    {
        Self { ty: PacketType::NOT_RESOLVED, bytes: Vec::new() }
    }
}

impl PacketBuilder {
    /// The packet of the kind and body written so far.
    pub fn build(self) -> (p: Packet)
        ensures
            p@ == self@,
    {
        Packet::new(self.ty, bytes_from_vec(self.bytes))
    }

    pub fn with_type(self, ty: PacketType) -> (b: Self)
        ensures
            b@ == (PacketView { ty, bytes: self@.bytes }),
    {
        let mut b = self;
        b.ty = ty;
        b
    }

    /// Appends `s`: its UTF-8 length as a big-endian `u16` (cut to 16 bits),
    /// then its UTF-8 bytes.
    pub fn write_str(self, s: &str) -> (b: Self)
        ensures
            b@ == (PacketView { ty: self@.ty, bytes: self@.bytes + str_bytes(s@) }),
    {
        let mut b = self;
        let str_bytes = s.as_bytes();
        vec_write_u16_be(&mut b.bytes, str_bytes.len() as u16);
        b.bytes.extend_from_slice(str_bytes);
        assert(b.bytes@ =~= self.bytes@ + crate::wire::str_bytes(s@));
        b
    }

    /// Appends `n` as a big-endian `i32`.
    pub fn write_i32(self, n: i32) -> (b: Self)
        ensures
            b@ == (PacketView { ty: self@.ty, bytes: self@.bytes + be_i32_bytes(n) }),
    {
        let mut b = self;
        vec_write_i32_be(&mut b.bytes, n);
        b
    }
}

/// A reader's state as a value: the packet's kind and the bytes of its body not
/// yet read.
pub struct PacketReaderView {
    pub ty: PacketType,
    pub remaining: Seq<u8>,
}

/// Reading a flag: one byte, any other value than 0 meaning `true`.
pub open spec fn read_bool_spec(rem: Seq<u8>) -> Option<(bool, Seq<u8>)> {
    if rem.len() < 1 {
        None
    } else {
        Some((rem[0] != 0, rem.skip(1)))
    }
}

/// Whether `rem` holds a string's whole length prefix and body (UTF-8 or not).
pub open spec fn str_fits(rem: Seq<u8>) -> bool {
    rem.len() >= 2 && rem.len() >= 2 + be_u16_value(rem) as int
}

/// Whether `rem` holds a flag and, where the flag is set, a whole string.
pub open spec fn is_str_fits(rem: Seq<u8>) -> bool {
    rem.len() >= 1 && (rem[0] != 0 ==> str_fits(rem.skip(1)))
}

/// Reading an optional string: a flag, then the string where the flag is set;
/// the empty string where it is not.
pub open spec fn read_is_str_spec(rem: Seq<u8>) -> Option<(Seq<char>, Seq<u8>)> {
    match read_bool_spec(rem) {
        None => None,
        Some((true, rest)) => read_str_spec(rest),
        Some((false, rest)) => Some((Seq::empty(), rest)),
    }
}

/// Reads the body of a packet, field after field.
pub struct PacketReader {
    ty: PacketType,
    reader: bytes::buf::Reader<bytes::Bytes>,
}

impl View for PacketReader {
    type V = PacketReaderView;

    closed spec fn view(&self) -> PacketReaderView {
        PacketReaderView { ty: self.ty, remaining: reader_remaining(self.reader) }
    }
}

impl vstd::std_specs::convert::FromSpecImpl<Packet> for PacketReader {
    /// The reader is stated by the `from` below, over views, not by this
    /// function.
    open spec fn obeys_from_spec() -> bool {
        false
    }

    open spec fn from_spec(value: Packet) -> PacketReader {
        vstd::pervasive::arbitrary()
    }
}

impl From<Packet> for PacketReader {
    /// A reader at the start of the packet's body.
    fn from(value: Packet) -> (r: Self)
        ensures
            r@ == (PacketReaderView { ty: value@.ty, remaining: value@.bytes }),
    {
        Self { ty: value.ty, reader: bytes_reader(value.bytes) }
    }
}

impl PacketReader {

    pub fn ty(&self) -> (t: &PacketType)
        ensures
            *t == self@.ty,
    {
        &self.ty
    }

    /// Reads a flag: one byte, any value but 0 meaning `true`.
    pub fn read_bool(&mut self) -> (res: Result<bool, ReadError>)
        ensures
            final(self)@.ty == old(self)@.ty,
            res is Ok <==> read_bool_spec(old(self)@.remaining) is Some,
            res matches Ok(b) ==> read_bool_spec(old(self)@.remaining) == Some(
                (b, final(self)@.remaining),
            ),
            res matches Err(e) ==> e is UnexpectedEof,
    {
        match reader_read_u8(&mut self.reader) {
            Ok(x) => Ok(x != 0),
            Err(e) => Err(ReadError::UnexpectedEof(e)),
        }
    }

    /// Moves past `len` bytes.
    pub fn skip(&mut self, len: u64) -> (res: Result<(), ReadError>)
        ensures
            final(self)@.ty == old(self)@.ty,
            res is Ok <==> old(self)@.remaining.len() >= len as usize,
            res is Ok ==> final(self)@.remaining == old(self)@.remaining.skip(len as usize as int),
            res matches Err(e) ==> e is UnexpectedEof,
    {
        let mut buf = vec![0u8; len as usize];
        match reader_read_exact(&mut self.reader, &mut buf) {
            Ok(()) => Ok(()),
            Err(e) => Err(ReadError::UnexpectedEof(e)),
        }
    }

    /// Reads an optional string: a flag, then the string where the flag is set.
    pub fn read_is_str(&mut self) -> (res: Result<String, ReadError>)
        ensures
            final(self)@.ty == old(self)@.ty,
            res is Ok <==> read_is_str_spec(old(self)@.remaining) is Some,
            res matches Ok(s) ==> read_is_str_spec(old(self)@.remaining) == Some(
                (s@, final(self)@.remaining),
            ),
            res matches Err(e) ==> (e is UnexpectedEof <==> !is_str_fits(old(self)@.remaining)),
    {
        if self.read_bool()? {
            self.read_str()
        } else {
            Ok(String::new())
        }
    }

    /// Reads a string: its UTF-8 length as a big-endian `u16`, then its UTF-8
    /// bytes.
    pub fn read_str(&mut self) -> (res: Result<String, ReadError>)
        ensures
            final(self)@.ty == old(self)@.ty,
            res is Ok <==> read_str_spec(old(self)@.remaining) is Some,
            res matches Ok(s) ==> read_str_spec(old(self)@.remaining) == Some(
                (s@, final(self)@.remaining),
            ),
            res matches Err(e) ==> (e is UnexpectedEof <==> !str_fits(old(self)@.remaining)),
    {
        let ghost rem = self@.remaining;
        let len = match reader_read_u16_be(&mut self.reader) {
            Ok(len) => len,
            Err(e) => {
                return Err(ReadError::UnexpectedEof(e));
            },
        };
        let mut buf = vec![0u8; len as usize];
        let ghost rest = self@.remaining;
        if let Err(e) = reader_read_exact(&mut self.reader, &mut buf) {
            return Err(ReadError::UnexpectedEof(e));
        }
        assert(rem.subrange(2, 2 + len as int) =~= rest.take(len as int));
        assert(rem.skip(2 + len as int) =~= rest.skip(len as int));
        match string_from_utf8(buf) {
            Ok(s) => Ok(s),
            Err(e) => Err(ReadError::InvalidUtf8(e)),
        }
    }

    /// Reads a big-endian `i32`.
    pub fn read_i32(&mut self) -> (res: Result<i32, ReadError>)
        ensures
            final(self)@.ty == old(self)@.ty,
            res is Ok <==> old(self)@.remaining.len() >= 4,
            res matches Ok(n) ==> n == be_i32_value(old(self)@.remaining) && final(self)@.remaining
                == old(self)@.remaining.skip(4),
            res matches Err(e) ==> e is UnexpectedEof,
    {
        match reader_read_i32_be(&mut self.reader) {
            Ok(n) => Ok(n),
            Err(e) => Err(ReadError::UnexpectedEof(e)),
        }
    }
}

/// Whether the handling of a packet goes on or stops.
#[derive(Debug)]
pub enum PacketControl {
    Continue,
    Stop,
}

pub type PacketWithControl = (Packet, PacketControl);

/// Where a reader of network frames from a stream stands: it waits for the
/// length, for the kind, or for the body.
#[derive(Debug, Clone, Copy, PartialEq, Eq, Structural)]
pub enum NetReadState {
    Length,
    Type { len: usize },
    Payload { len: usize, ty: PacketType },
}

/// What a reader of network frames does next: read so many bytes and go on in a
/// new state, hand out a packet, or fail.
#[derive(Debug)]
pub enum NetReadStep {
    Read(NetReadState, usize),
    Done(Packet),
    Failed(FrameError),
}

/// A step of a reader of network frames, as a value.
pub enum NetReadOutcome {
    Read(NetReadState, nat),
    Done(PacketView),
    Failed(FrameError),
}

impl NetReadStep {
    pub open spec fn outcome(&self) -> NetReadOutcome {
        match self {
            NetReadStep::Read(s, n) => NetReadOutcome::Read(*s, *n as nat),
            NetReadStep::Done(p) => NetReadOutcome::Done(p@),
            NetReadStep::Failed(e) => NetReadOutcome::Failed(*e),
        }
    }
}

impl NetReadState {
    /// How many bytes the reader waits for in this state.
    pub open spec fn wanted(self) -> nat {
        match self {
            NetReadState::Length => 4,
            NetReadState::Type { .. } => 4,
            NetReadState::Payload { len, .. } => len as nat,
        }
    }

    /// What the reader does with the bytes it waited for.
    pub open spec fn step_spec(self, chunk: Seq<u8>) -> NetReadOutcome {
        match self {
            NetReadState::Length => {
                let len = be_i32_value(chunk);
                if len < 0 {
                    NetReadOutcome::Failed(FrameError::LengthBelowZero)
                } else if len > max_size() {
                    NetReadOutcome::Failed(FrameError::LengthTooLong)
                } else {
                    NetReadOutcome::Read(NetReadState::Type { len: len as usize }, 4)
                }
            },
            NetReadState::Type { len } => NetReadOutcome::Read(
                NetReadState::Payload { len, ty: PacketType::of_code(be_i32_value(chunk)) },
                len as nat,
            ),
            NetReadState::Payload { len, ty } => NetReadOutcome::Done(
                PacketView { ty, bytes: chunk },
            ),
        }
    }

    /// The state a reader starts a frame in, and how many bytes it first waits
    /// for.
    pub fn start() -> (r: (NetReadState, usize))
        ensures
            r.0 == NetReadState::Length,
            r.1 == r.0.wanted(),
    {
        (NetReadState::Length, 4)
    }

    /// Takes the bytes that the reader waited for in this state.
    pub fn step(self, chunk: &[u8]) -> (r: NetReadStep)
        requires
            chunk@.len() == self.wanted(),
        ensures
            r.outcome() == self.step_spec(chunk@),
            r matches NetReadStep::Read(next, n) ==> n == next.wanted(),
    {
        match self {
            NetReadState::Length => {
                let len = read_be_i32(chunk, 0);
                assert(chunk@.skip(0) =~= chunk@);
                if len < 0 {
                    NetReadStep::Failed(FrameError::LengthBelowZero)
                } else if len > Packet::MAX_SIZE {
                    NetReadStep::Failed(FrameError::LengthTooLong)
                } else {
                    NetReadStep::Read(NetReadState::Type { len: len as usize }, 4)
                }
            },
            NetReadState::Type { len } => {
                let code = read_be_i32(chunk, 0);
                assert(chunk@.skip(0) =~= chunk@);
                NetReadStep::Read(
                    NetReadState::Payload { len, ty: PacketType::from_i32(code) },
                    len,
                )
            },
            NetReadState::Payload { len, ty } => {
                NetReadStep::Done(Packet::new(ty, bytes_from_vec(slice_to_vec(chunk))))
            },
        }
    }
}

/// A packet written in the network framing is read back whole from the start of
/// any bytes that begin with its frame, where its body is no longer than
/// `Packet::MAX_SIZE`.
pub proof fn lemma_net_frame_roundtrip(p: PacketView, rest: Seq<u8>)
    requires
        p.bytes.len() <= max_size(),
    ensures
        decode_net_spec(net_frame(p) + rest) == Ok::<(PacketView, nat), FrameError>(
            (p, (8 + p.bytes.len()) as nat),
        ),
{
    let len = p.bytes.len() as i32;
    let s = net_frame(p) + rest;
    assert(s =~= be_i32_bytes(len) + (be_i32_bytes(p.ty.code()) + (p.bytes + rest)));
    crate::wire::lemma_be_i32_roundtrip(len, be_i32_bytes(p.ty.code()) + (p.bytes + rest));
    assert(s.skip(4) =~= be_i32_bytes(p.ty.code()) + (p.bytes + rest));
    crate::wire::lemma_be_i32_roundtrip(p.ty.code(), p.bytes + rest);
    crate::packet_type::lemma_code_roundtrip(p.ty);
    assert(s.subrange(8, 8 + p.bytes.len() as int) =~= p.bytes);
}

/// A network frame that has not fully arrived reads as incomplete: every proper
/// prefix of a packet's frame, where its body is no longer than
/// `Packet::MAX_SIZE`, asks for more bytes.
pub proof fn lemma_net_frame_prefix_incomplete(p: PacketView, k: int)
    requires
        p.bytes.len() <= max_size(),
        0 <= k < 8 + p.bytes.len(),
    ensures
        decode_net_spec(net_frame(p).take(k)) == Err::<(PacketView, nat), FrameError>(FrameError::Incomplete),
{
    let len = p.bytes.len() as i32;
    let s = net_frame(p).take(k);
    if k >= 4 {
        let rest = s.skip(4);
        assert(s =~= be_i32_bytes(len) + rest);
        crate::wire::lemma_be_i32_roundtrip(len, rest);
    }
}

/// A network frame is refused as too long exactly where its length field, once
/// it is there, is above `Packet::MAX_SIZE`.
pub proof fn lemma_net_length_too_long(s: Seq<u8>)
    ensures
        decode_net_spec(s) == Err::<(PacketView, nat), FrameError>(FrameError::LengthTooLong) <==> (
        s.len() >= 4 && be_i32_value(s) > max_size()),
{
}

/// A packet written in the game framing is read back whole from the start of any
/// bytes that begin with its frame, where its body's length fits an `i32`.
pub proof fn lemma_game_frame_roundtrip(p: PacketView, rest: Seq<u8>)
    requires
        p.bytes.len() <= i32::MAX,
    ensures
        !game_length_negative(game_frame(p) + rest),
        decode_game_spec(game_frame(p) + rest) == Ok::<(PacketView, nat), FrameError>(
            (p, (8 + p.bytes.len()) as nat),
        ),
{
    let len = p.bytes.len() as i32;
    let s = game_frame(p) + rest;
    assert(s =~= be_i32_bytes(p.ty.code()) + (be_i32_bytes(len) + (p.bytes + rest)));
    crate::wire::lemma_be_i32_roundtrip(p.ty.code(), be_i32_bytes(len) + (p.bytes + rest));
    assert(s.skip(4) =~= be_i32_bytes(len) + (p.bytes + rest));
    crate::wire::lemma_be_i32_roundtrip(len, p.bytes + rest);
    crate::packet_type::lemma_code_roundtrip(p.ty);
    assert(s.subrange(8, 8 + p.bytes.len() as int) =~= p.bytes);
}

/// A stream reader of network frames that is given, step by step, the bytes of a
/// packet's frame hands out that packet after the third step, where its body is
/// no longer than `Packet::MAX_SIZE`.
pub proof fn lemma_net_stream_roundtrip(p: PacketView)
    requires
        p.bytes.len() <= max_size(),
    ensures
        ({
            let f = net_frame(p);
            let len = p.bytes.len();
            let s1 = NetReadState::Type { len: len as usize };
            let s2 = NetReadState::Payload { len: len as usize, ty: p.ty };
            &&& NetReadState::Length.step_spec(f.subrange(0, 4)) == NetReadOutcome::Read(s1, 4)
            &&& s1.step_spec(f.subrange(4, 8)) == NetReadOutcome::Read(s2, len)
            &&& s2.step_spec(f.subrange(8, 8 + len as int)) == NetReadOutcome::Done(p)
        }),
{
    let f = net_frame(p);
    let len = p.bytes.len();
    crate::wire::lemma_be_i32_roundtrip(len as i32, Seq::empty());
    assert(f.subrange(0, 4) =~= be_i32_bytes(len as i32) + Seq::empty());
    crate::wire::lemma_be_i32_roundtrip(p.ty.code(), Seq::empty());
    assert(f.subrange(4, 8) =~= be_i32_bytes(p.ty.code()) + Seq::empty());
    crate::packet_type::lemma_code_roundtrip(p.ty);
    assert(f.subrange(8, 8 + len as int) =~= p.bytes);
}

/// A reader that stands right after what a builder wrote before a string reads
/// that string back and then stands before what was written after it, where
/// the string's UTF-8 form is shorter than 65536 bytes.
pub proof fn lemma_write_then_read_str(before: Seq<u8>, s: Seq<char>, after: Seq<u8>)
    requires
        vstd::utf8::encode_utf8(s).len() < 65536,
    ensures
        read_str_spec((before + str_bytes(s) + after).skip(before.len() as int)) == Some((s, after)),
{
    assert((before + str_bytes(s) + after).skip(before.len() as int) =~= str_bytes(s) + after);
    crate::wire::lemma_str_roundtrip(s, after);
}

/// A reader that stands right after what a builder wrote before an `i32` reads
/// that number back and then stands before what was written after it.
pub proof fn lemma_write_then_read_i32(before: Seq<u8>, n: i32, after: Seq<u8>)
    ensures
        be_i32_value((before + be_i32_bytes(n) + after).skip(before.len() as int)) == n,
        (before + be_i32_bytes(n) + after).skip(before.len() as int).skip(4) == after,
{
    assert((before + be_i32_bytes(n) + after).skip(before.len() as int) =~= be_i32_bytes(n) + after);
    crate::wire::lemma_be_i32_roundtrip(n, after);
}

} // verus!
