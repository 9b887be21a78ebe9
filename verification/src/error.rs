//! Errors of the packet codec, of packet handling and of the server's workers.
use vstd::prelude::*;
use crate::outside::string_from_utf8;

verus! {

/// A code that could not be taken as a packet kind.
#[derive(Debug, Clone, Copy, PartialEq, Eq, Structural)]
pub struct PacketTypeCastError(pub i32);

impl PacketTypeCastError {
    pub fn new(value: i32) -> (e: Self)
        ensures
            e.0 == value,
    {
        Self(value)
    }

    /// The error's text: its name and, in brackets, the code, as
    /// `PacketTypeCastError(42)`.
    pub fn to_string(&self) -> (s: String)
        ensures
            s@ == cast_error_text(self.0),
    {
        let v = self.0;
        let prefix = "PacketTypeCastError(";
        let suffix = ")";
        let mut b: Vec<u8> = Vec::new();
        b.extend_from_slice(prefix.as_bytes());
        let magnitude: u32 = if v < 0 {
            b.push(45u8);
            (0i64 - v as i64) as u32
        } else {
            v as u32
        };
        let mut digits = decimal_bytes(magnitude);
        b.append(&mut digits);
        b.extend_from_slice(suffix.as_bytes());
        let ghost text = int_text(v as int);
        proof {
            assert(text == if v < 0 { seq!['-'] + decimal_digits(magnitude as nat) } else {
                decimal_digits(magnitude as nat)
            });
            lemma_decimal_digits_ascii(magnitude as nat);
            if v < 0 {
                assert forall|i: int| 0 <= i < text.len() implies '\0' <= #[trigger] text[i] <= '\u{7f}' by {
                    if i > 0 {
                        assert(text[i] == decimal_digits(magnitude as nat)[i - 1]);
                    }
                }
            }
            assert(vstd::utf8::is_ascii_chars(text));
            vstd::utf8::is_ascii_chars_encode_utf8(text);
            assert(vstd::utf8::encode_utf8(text) =~= ascii_bytes(text));
            lemma_encode_utf8_concat(prefix@, text);
            lemma_encode_utf8_concat(prefix@ + text, suffix@);
            assert(b@ =~= vstd::utf8::encode_utf8(prefix@ + text + suffix@));
            vstd::utf8::encode_utf8_valid_utf8(prefix@ + text + suffix@);
            vstd::utf8::encode_utf8_decode_utf8(prefix@ + text + suffix@);
        }
        match string_from_utf8(b) {
            Ok(s) => s,
            Err(_) => {
                proof {
                    assert(false);
                }
                String::new()
            },
        }
    }
}

/// The decimal digit `d` as a character.
pub open spec fn digit_char(d: nat) -> char {
    (d + 48) as char
}

/// The decimal digits of `n`, most significant first, without leading zeros
/// (`0` is the single digit `0`).
pub open spec fn decimal_digits(n: nat) -> Seq<char>
    decreases n,
{
    if n < 10 {
        seq![digit_char(n)]
    } else {
        decimal_digits(n / 10).push(digit_char(n % 10))
    }
}

/// The decimal text of `v`: a minus sign before the digits of a negative value.
pub open spec fn int_text(v: int) -> Seq<char> {
    if v < 0 {
        seq!['-'] + decimal_digits((-v) as nat)
    } else {
        decimal_digits(v as nat)
    }
}

/// The text of a cast error of code `v`.
pub open spec fn cast_error_text(v: i32) -> Seq<char> {
    "PacketTypeCastError("@ + int_text(v as int) + ")"@
}

/// The bytes of characters below 128, one each.
pub open spec fn ascii_bytes(s: Seq<char>) -> Seq<u8> {
    s.map_values(|c: char| c as u8)
}

proof fn lemma_decimal_digits_ascii(n: nat)
    ensures
        decimal_digits(n).len() >= 1,
        forall|i: int|
            0 <= i < decimal_digits(n).len() ==> '0' <= #[trigger] decimal_digits(n)[i] <= '9',
    decreases n,
{
    if n >= 10 {
        lemma_decimal_digits_ascii(n / 10);
    }
}

proof fn lemma_encode_utf8_concat(a: Seq<char>, b: Seq<char>)
    ensures
        vstd::utf8::encode_utf8(a + b) == vstd::utf8::encode_utf8(a) + vstd::utf8::encode_utf8(b),
    decreases a.len(),
{
    if a.len() == 0 {
        assert(a + b =~= b);
        assert(vstd::utf8::encode_utf8(a) + vstd::utf8::encode_utf8(b) =~= vstd::utf8::encode_utf8(b));
    } else {
        assert((a + b).drop_first() =~= a.drop_first() + b);
        lemma_encode_utf8_concat(a.drop_first(), b);
        assert((a + b)[0] == a[0]);
        assert(vstd::utf8::encode_utf8(a + b) =~= vstd::utf8::encode_scalar(a[0] as u32) + (
        vstd::utf8::encode_utf8(a.drop_first()) + vstd::utf8::encode_utf8(b)));
    }
}

/// The decimal digits of `n` as bytes, most significant first.
fn decimal_bytes(n: u32) -> (b: Vec<u8>)
    ensures
        b@ == ascii_bytes(decimal_digits(n as nat)),
{
    let ghost mut tail: Seq<char> = Seq::empty();
    let mut acc: Vec<u8> = Vec::new();
    let mut m: u32 = n;
    while m >= 10
        invariant
            decimal_digits(n as nat) == decimal_digits(m as nat) + tail,
            acc@ == ascii_bytes(tail),
        decreases m,
    {
        let d: u32 = m % 10;
        let byte: u8 = (48 + d) as u8;
        proof {
            assert(digit_char(d as nat) as u8 == byte);
            assert(decimal_digits(m as nat) == decimal_digits((m / 10) as nat).push(digit_char(d as nat)));
            assert(decimal_digits(n as nat) =~= decimal_digits((m / 10) as nat) + (seq![digit_char(d as nat)] + tail));
            assert(ascii_bytes(seq![digit_char(d as nat)] + tail) =~= seq![byte] + acc@);
            tail = seq![digit_char(d as nat)] + tail;
        }
        acc.insert(0, byte);
        m = m / 10;
    }
    let byte: u8 = (48 + m) as u8;
    proof {
        assert(digit_char(m as nat) as u8 == byte);
        assert(decimal_digits(m as nat) == seq![digit_char(m as nat)]);
        assert(ascii_bytes(decimal_digits(n as nat)) =~= seq![byte] + acc@);
    }
    acc.insert(0, byte);
    acc
}

/// How severe an error met while handling a packet is.
#[derive(Debug, Clone, Copy, PartialEq, Eq, Structural, Hash)]
pub enum HandlePacketErrorKind {
    Ignorable,
    Disconnect,
    Fatal,
}

/// A failed read of a packet's body.
#[derive(Debug)]
pub enum ReadError {
    /// The body ended before the field did (the reader's own error).
    UnexpectedEof(std::io::Error),
    /// A string's bytes are not UTF-8.
    InvalidUtf8(std::string::FromUtf8Error),
}

impl ReadError {
    /// The kind of the `std::io::Error` this error stands for: `UnexpectedEof`
    /// for a body that ended early, `Other` for bytes that are not UTF-8.
    pub fn kind(&self) -> (k: std::io::ErrorKind)
        ensures
            self is UnexpectedEof ==> k == std::io::ErrorKind::UnexpectedEof,
            self is InvalidUtf8 ==> k == std::io::ErrorKind::Other,
    {
        match self {
            ReadError::UnexpectedEof(_) => std::io::ErrorKind::UnexpectedEof,
            ReadError::InvalidUtf8(_) => std::io::ErrorKind::Other,
        }
    }
}

impl vstd::std_specs::convert::FromSpecImpl<ReadError> for std::io::Error {
    /// An `std::io::Error` is opaque: the conversion is stated by no spec
    /// function.
    open spec fn obeys_from_spec() -> bool {
        false
    }

    open spec fn from_spec(e: ReadError) -> std::io::Error {
        vstd::pervasive::arbitrary()
    }
}

impl From<ReadError> for std::io::Error {
    /// The reader's own error as it is, or a UTF-8 error wrapped as `Other`.
    fn from(e: ReadError) -> std::io::Error {
        match e {
            ReadError::UnexpectedEof(e) => e,
            ReadError::InvalidUtf8(e) => crate::outside::io_error_other(e),
        }
    }
}

/// What went wrong, where an error is reported: a failed read, an I/O error, or
/// a message.
#[derive(Debug)]
pub enum ErrorSource {
    Read(ReadError),
    Io(std::io::Error),
    Message(String),
}

/// An error met while handling a packet: its severity and what went wrong.
#[derive(Debug)]
pub struct HandlePacketError {
    kind: HandlePacketErrorKind,
    err: ErrorSource,
}

impl HandlePacketError {
    pub closed spec fn spec_kind(&self) -> HandlePacketErrorKind {
        self.kind
    }

    pub closed spec fn spec_source(&self) -> ErrorSource {
        self.err
    }

    pub fn new(kind: HandlePacketErrorKind, err: ErrorSource) -> (e: Self)
        ensures
            e.spec_kind() == kind,
            e.spec_source() == err,
    {
        Self { kind, err }
    }

    pub fn kind(&self) -> (k: &HandlePacketErrorKind)
        ensures
            *k == self.spec_kind(),
    {
        &self.kind
    }

    /// What went wrong.
    pub fn source(&self) -> (s: &ErrorSource)
        ensures
            *s == self.spec_source(),
    {
        &self.err
    }
}

/// How the server treats an error that a decoder, encoder or handler reports.
#[derive(Debug, Clone, Copy, PartialEq, Eq, Structural, Hash)]
pub enum ErrorKind {
    /// Logged at debug level; the connection goes on.
    Ignorable,
    /// Logged as a warning; the connection goes on.
    WarnOnly,
    /// The connection is closed.
    Disconnect,
    /// The server stops.
    Fatal,
}

/// An error that a decoder, encoder or handler reports to the server.
#[derive(Debug)]
pub struct Error {
    kind: ErrorKind,
    err: ErrorSource,
}

impl Error {
    pub closed spec fn spec_kind(&self) -> ErrorKind {
        self.kind
    }

    pub closed spec fn spec_source(&self) -> ErrorSource {
        self.err
    }

    pub fn new(kind: ErrorKind, err: ErrorSource) -> (e: Self)
        ensures
            e.spec_kind() == kind,
            e.spec_source() == err,
    {
        Self { kind, err }
    }

    pub fn kind(&self) -> (k: ErrorKind)
        ensures
            k == self.spec_kind(),
    {
        self.kind
    }

    /// What went wrong.
    pub fn source(&self) -> (s: &ErrorSource)
        ensures
            *s == self.spec_source(),
    {
        &self.err
    }
}

/// An error that ended a worker of the server.
#[derive(Debug)]
pub struct WorkerError {
    err: ErrorSource,
}

impl WorkerError {
    pub closed spec fn spec_source(&self) -> ErrorSource {
        self.err
    }

    pub fn new(err: ErrorSource) -> (e: Self)
        ensures
            e.spec_source() == err,
    {
        Self { err }
    }

    /// What went wrong.
    pub fn source(&self) -> (s: &ErrorSource)
        ensures
            *s == self.spec_source(),
    {
        &self.err
    }
}

/// Why a frame of bytes could not be read as a packet.
#[derive(Debug, Clone, Copy, PartialEq, Eq, Structural)]
pub enum FrameError {
    /// The length field is negative.
    LengthBelowZero,
    /// The length field is above `Packet::MAX_SIZE`.
    LengthTooLong,
    /// The bytes end before the frame does.
    Incomplete,
}

impl FrameError {
    /// The text of the error that a stream reader reports.
    pub fn message(&self) -> (m: &'static str)
        ensures
            *self == FrameError::LengthBelowZero ==> m@ == "packet length below zero"@,
            *self == FrameError::LengthTooLong ==> m@ == "packet length too long"@,
            *self == FrameError::Incomplete ==> m@ == "packet frame incomplete"@,
    {
        match self {
            FrameError::LengthBelowZero => "packet length below zero",
            FrameError::LengthTooLong => "packet length too long",
            FrameError::Incomplete => "packet frame incomplete",
        }
    }
}

} // verus!
