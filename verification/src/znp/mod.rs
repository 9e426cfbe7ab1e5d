//! The command header of a frame: two bytes that hold a command type, a
//! subsystem and a command ID.
//!
//! The first byte on the wire is the low byte of the 16-bit header word. It
//! holds the command type in bits [7:5] and the subsystem in bits [4:0].
//! The second byte, the high byte of the word, is the command ID.

use crate::Error;
use vstd::prelude::*;

pub mod command;

use command::Subsystem;
use command::Type;

verus! {

/// Type of a command ID.
///
/// This is the second byte in a command header.
pub type ID = u8;

/// The first byte of a header word: bits [7:0].
pub open spec fn word_cmd0(word: u16) -> u8 {
    (word % 256) as u8
}

/// The command type that a header word holds in bits [7:5].
pub open spec fn word_kind(word: u16) -> Type {
    Type::of((word as int / 32) % 8)
}

/// The subsystem that a header word holds in bits [4:0].
pub open spec fn word_subsystem(word: u16) -> Subsystem {
    Subsystem::of(word as int % 32)
}

/// The command ID that a header word holds in bits [15:8].
pub open spec fn word_id(word: u16) -> ID {
    (word / 256) as u8
}

/// The header word that holds the three fields, each in its own bits.
pub open spec fn pack(kind: Type, subsystem: Subsystem, id: ID) -> u16 {
    (id * 256 + kind.raw() * 32 + subsystem.raw()) as u16
}

/// Packing the three fields that a header word holds gives that word back,
/// whatever the word.
pub proof fn lemma_pack_fields_of_word(word: u16)
    ensures
        pack(word_kind(word), word_subsystem(word), word_id(word)) == word,
{
    let k = (word as int / 32) % 8;
    let s = word as int % 32;
    Type::lemma_raw_of(k);
    Subsystem::lemma_raw_of(s);
}

/// The word packed from three fields holds those three fields and no other.
pub proof fn lemma_fields_of_packed_word(kind: Type, subsystem: Subsystem, id: ID)
    ensures
        pack(kind, subsystem, id) == id * 256 + kind.raw() * 32 + subsystem.raw(),
        word_kind(pack(kind, subsystem, id)) == kind,
        word_subsystem(pack(kind, subsystem, id)) == subsystem,
        word_id(pack(kind, subsystem, id)) == id,
        word_cmd0(pack(kind, subsystem, id)) == kind.raw() * 32 + subsystem.raw(),
{
    Type::lemma_of_raw(kind);
    Subsystem::lemma_of_raw(subsystem);
}

/// The three fields of a header word are the bit ranges [7:5], [4:0] and
/// [15:8] of the word, and its first byte is the range [7:0].
pub proof fn lemma_fields_are_bit_ranges(word: u16)
    ensures
        word_cmd0(word) == word & 0x00FF,
        word_kind(word).raw() == (word >> 5) & 0x07,
        word_subsystem(word).raw() == word & 0x1F,
        word_id(word) == word >> 8,
{
    assert(word & 0x00FF == word % 256) by (bit_vector);
    assert((word >> 5) & 0x07 == (word / 32) % 8) by (bit_vector);
    assert(word & 0x1F == word % 32) by (bit_vector);
    assert(word >> 8 == word / 256) by (bit_vector);
    Type::lemma_raw_of((word as int / 32) % 8);
    Subsystem::lemma_raw_of(word as int % 32);
}

/// Combines a command type, a subsystem and a command ID into a header word.
pub fn encode_header(kind: Type, subsystem: Subsystem, id: ID) -> (word: u16)
    ensures
        word == pack(kind, subsystem, id),
{
    let k: u16 = kind.inner_raw() as u16;
    let s: u16 = subsystem.inner_raw() as u16;
    let i: u16 = id as u16;
    proof {
        Type::lemma_of_raw(kind);
        Subsystem::lemma_of_raw(subsystem);
    }
    assert(((i << 8) | (k << 5) | s) == i * 256 + k * 32 + s) by (bit_vector)
        requires
            i < 256,
            k < 8,
            s < 32,
    ;
    (i << 8) | (k << 5) | s
}

/// A command header: a command type, a subsystem and a command ID, packed
/// into the 16 bits that travel on the wire.
///
/// Every 16-bit word is a header, so a `Command` has no invalid state. It is
/// not changed once built.
#[derive(Clone, Copy, Debug, PartialEq, Eq, Structural)]
pub struct Command {
    word: u16,
}

impl Command {
    /// The header word that this command is packed into.
    pub closed spec fn word(self) -> u16 {
        self.word
    }

    /// Two commands packed into the same word are the same command.
    pub proof fn lemma_same_word(a: Command, b: Command)
        requires
            a.word() == b.word(),
        ensures
            a == b,
    {
    }

    /// Builds the header of a command from its three fields.
    pub fn new(kind: Type, subsystem: Subsystem, id: ID) -> (c: Command)
        ensures
            c.word() == pack(kind, subsystem, id),
    {
        Command { word: encode_header(kind, subsystem, id) }
    }

    /// Takes a word as it came off the wire for a header.
    pub fn from_raw(word: u16) -> (c: Command)
        ensures
            c.word() == word,
    {
        Command { word }
    }

    /// Returns the header word, ready for the wire.
    pub fn raw(self) -> (word: u16)
        ensures
            word == self.word(),
    {
        self.word
    }

    /// Returns the command type, from bits [7:5] of the word.
    pub fn kind(self) -> (t: Type)
        ensures
            t == word_kind(self.word()),
    {
        Type::from_cmd0(low_byte(self.word))
    }

    /// Returns the subsystem, from bits [4:0] of the word.
    pub fn subsystem(self) -> (s: Subsystem)
        ensures
            s == word_subsystem(self.word()),
    {
        Subsystem::from_cmd0(low_byte(self.word))
    }

    /// Returns the command ID, from bits [15:8] of the word.
    pub fn id(self) -> (id: ID)
        ensures
            id == word_id(self.word()),
    {
        high_byte(self.word)
    }
}

/// The low byte of a word, which is the first byte of a header.
fn low_byte(word: u16) -> (byte: u8)
    ensures
        byte == word_cmd0(word),
{
    let low: u16 = word & 0x00FF;
    assert(low == word % 256) by (bit_vector)
        requires
            low == word & 0x00FF,
    ;
    low as u8
}

/// The high byte of a word, which is the second byte of a header.
fn high_byte(word: u16) -> (byte: u8)
    ensures
        byte == word_id(word),
{
    let high: u16 = word >> 8;
    assert(high == word / 256) by (bit_vector)
        requires
            high == word >> 8,
    ;
    high as u8
}

/// Defines a trait for reading command header information.
///
/// A header may still lie in a wider integer than the two bytes it fills, so
/// each accessor may fail where a byte cannot be taken out of it.
pub trait CommandHeader {
    /// What an accessor gives where the byte it reads does not fit in eight
    /// bits.
    type U8Error;

    /// Returns the first byte of the command header.
    fn cmd0(&self) -> Result<u8, Self::U8Error>;

    /// Returns the subsystem for the command from the first byte in bits [4:0].
    fn subsystem(&self) -> Result<Subsystem, Self::U8Error>;

    /// Returns the command ID (second byte) of the header.
    fn id(&self) -> Result<ID, Self::U8Error>;
}

/// Adds support for reading a u16 as a command frame header.
///
/// Both bytes of a 16-bit word fit in eight bits, so no accessor fails.
impl CommandHeader for u16 {
    type U8Error = core::num::TryFromIntError;

    fn cmd0(&self) -> (r: Result<u8, Self::U8Error>)
        ensures
            r is Ok,
            r matches Ok(byte) ==> byte == word_cmd0(*self),
    {
        // Extracts the first byte from the two-byte command header.
        //
        // This byte contains the command type and subsystem.
        let low: u16 = *self & 0x00FF;
        assert(low == *self % 256) by (bit_vector)
            requires
                low == *self & 0x00FF,
        ;
        u8::try_from(low)
    }

    fn subsystem(&self) -> (r: Result<Subsystem, Self::U8Error>)
        ensures
            r is Ok,
            r matches Ok(s) ==> s == word_subsystem(*self),
    {
        // Extract the first byte of the command header
        // that contains the command type and subsystem.
        match self.cmd0() {
            Ok(cmd0) => Ok(Subsystem::from_cmd0(cmd0)),
            Err(e) => Err(e),
        }
    }

    fn id(&self) -> (r: Result<ID, Self::U8Error>)
        ensures
            r is Ok,
            r matches Ok(byte) ==> byte == word_id(*self),
    {
        let high: u16 = *self >> 8;
        assert(high == *self / 256) by (bit_vector)
            requires
                high == *self >> 8,
        ;
        u8::try_from(high)
    }
}

/// The three fields of a header, from what its accessors gave for the first
/// byte and for the command ID.
///
/// The command type and the subsystem are read from the first byte, which
/// always holds one of each. So the only failure is a byte that an accessor
/// could not give, and that is a failure of numeric conversion.
pub open spec fn fields_of<E>(cmd0: Result<u8, E>, id: Result<ID, E>) -> Result<
    (Type, Subsystem, ID),
    Error,
> {
    match (cmd0, id) {
        (Ok(first), Ok(second)) => Ok(
            (Type::of(first as int / 32), Subsystem::of(first as int % 32), second),
        ),
        _ => Err(Error::NumericConversion),
    }
}

/// Puts together the three fields of a header from what its accessors gave
/// for the first byte and for the command ID.
pub fn header_fields<E>(cmd0: Result<u8, E>, id: Result<ID, E>) -> (r: Result<
    (Type, Subsystem, ID),
    Error,
>)
    ensures
        r == fields_of(cmd0, id),
{
    match (cmd0, id) {
        (Ok(first), Ok(second)) => Ok(
            (Type::from_cmd0(first), Subsystem::from_cmd0(first), second),
        ),
        _ => Err(Error::NumericConversion),
    }
}

/// Reads the three fields of a command header through its accessors.
///
/// What comes back is what [`header_fields`] makes of a first byte and a
/// command ID that the accessors of this header give: the fields where they
/// give both bytes, a failure of numeric conversion where one of them fails.
pub fn read_header<H: CommandHeader>(header: &H) -> (r: Result<(Type, Subsystem, ID), Error>)
    ensures
        exists|cmd0: Result<u8, H::U8Error>, id: Result<ID, H::U8Error>|
            {
                &&& call_ensures(H::cmd0, (header,), cmd0)
                &&& call_ensures(H::id, (header,), id)
                &&& r == fields_of(cmd0, id)
            },
{
    let cmd0 = header.cmd0();
    let id = header.id();
    header_fields(cmd0, id)
}

/// Splits a header word into its command type, subsystem and command ID.
///
/// Every 16-bit word is a header: each pattern of three bits is a command
/// type and each pattern of five bits a subsystem.
pub fn decode_header(word: u16) -> (r: Result<(Type, Subsystem, ID), Error>)
    ensures
        r == Ok::<(Type, Subsystem, ID), Error>(
            (word_kind(word), word_subsystem(word), word_id(word)),
        ),
{
    header_fields(word.cmd0(), word.id())
}

/// The largest number of payload bytes that a frame can carry.
pub const MAX_LENGTH: u8 = 250;

/// What a frame holds for its reader: the header and the bytes of payload
/// that count.
pub struct FrameView {
    /// The command header of the frame.
    pub command: Command,
    /// The payload: as many bytes as the frame's length says.
    pub payload: Seq<u8>,
}

/// A packet frame that can be sent to a Z-Stack device.
///
/// On the wire a frame is one length byte, the two bytes of the command
/// header, and as many bytes of payload as the length says.
#[derive(Clone, Copy, Debug)]
pub struct Frame<const N: usize> {
    /// The length of the frame.
    ///
    /// Can range from 0 to 250.
    length: u8,
    /// The command header for the frame.
    command: Command,
    /// The data for the frame. Only the first `length` bytes are payload;
    /// what lies behind them is padding.
    data: [u8; N],
}

impl<const N: usize> View for Frame<N> {
    type V = FrameView;

    closed spec fn view(&self) -> FrameView {
        FrameView { command: self.command, payload: self.data@.subrange(0, self.length as int) }
    }
}

impl<const N: usize> Frame<N> {
    #[verifier::type_invariant]
    spec fn well_formed(self) -> bool {
        &&& self.length <= MAX_LENGTH
        &&& self.length <= N
    }

    /// Builds a frame that carries the first `length` bytes of `data`.
    ///
    /// A length above 250, or above the capacity of the buffer, is refused:
    /// no frame is cut short to fit.
    pub fn new(length: u8, command: Command, data: [u8; N]) -> (r: Result<Frame<N>, Error>)
        ensures
            match r {
                Ok(frame) => length <= MAX_LENGTH && length <= N && frame@ == (FrameView {
                    command,
                    payload: data@.subrange(0, length as int),
                }),
                Err(e) => (length > MAX_LENGTH || length > N) && e
                    == Error::OutOfRangeConstruction,
            },
    {
        if length > MAX_LENGTH || length as usize > N {
            Err(Error::OutOfRangeConstruction)
        } else {
            Ok(Frame { length, command, data })
        }
    }

    /// Returns the number of payload bytes, which is at most 250 and at most
    /// the capacity of the buffer.
    pub fn length(&self) -> (n: u8)
        ensures
            n == self@.payload.len(),
            n <= MAX_LENGTH,
            n <= N,
    {
        proof {
            use_type_invariant(self);
        }
        self.length
    }

    /// Returns the command header.
    pub fn command(&self) -> (c: Command)
        ensures
            c == self@.command,
    {
        self.command
    }

    /// Returns the payload, without the padding behind it.
    pub fn payload(&self) -> (bytes: &[u8])
        ensures
            bytes@ == self@.payload,
    {
        proof {
            use_type_invariant(self);
        }
        vstd::slice::slice_subrange(self.data.as_slice(), 0, self.length as usize)
    }
}

/// An error code that can be returned from an SREQ as part of the SRSP response.
#[derive(Clone, Copy, Debug, PartialEq, Eq, Structural)]
pub enum SRSPErrorCode {
    /// The request was carried out.
    Success,
    InvalidSubsystem,
    InvalidCommandID,
    InvalidParameter,
    InvalidLength,
}

impl SRSPErrorCode {
    /// The byte that stands for this code in a response.
    pub open spec fn raw(self) -> int {
        match self {
            SRSPErrorCode::Success => 0,
            SRSPErrorCode::InvalidSubsystem => 1,
            SRSPErrorCode::InvalidCommandID => 2,
            SRSPErrorCode::InvalidParameter => 3,
            SRSPErrorCode::InvalidLength => 4,
        }
    }

    /// The code that the byte `n` stands for; meaningful for `0 <= n < 5`.
    pub open spec fn of(n: int) -> SRSPErrorCode {
        if n == 0 {
            SRSPErrorCode::Success
        } else if n == 1 {
            SRSPErrorCode::InvalidSubsystem
        } else if n == 2 {
            SRSPErrorCode::InvalidCommandID
        } else if n == 3 {
            SRSPErrorCode::InvalidParameter
        } else {
            SRSPErrorCode::InvalidLength
        }
    }

    /// Returns the byte that stands for this code in a response.
    pub fn inner_raw(self) -> (n: u8)
        ensures
            n == self.raw(),
    {
        match self {
            SRSPErrorCode::Success => 0,
            SRSPErrorCode::InvalidSubsystem => 1,
            SRSPErrorCode::InvalidCommandID => 2,
            SRSPErrorCode::InvalidParameter => 3,
            SRSPErrorCode::InvalidLength => 4,
        }
    }

    /// Reads a code from the byte at the error position of a response.
    ///
    /// A byte that is none of the five codes is a decoding failure, which is
    /// not one of the codes either.
    pub fn from_raw(n: u8) -> (r: Result<SRSPErrorCode, Error>)
        ensures
            n < 5 ==> r == Ok::<SRSPErrorCode, Error>(SRSPErrorCode::of(n as int)),
            n >= 5 ==> r == Err::<SRSPErrorCode, Error>(Error::ProtocolDecode),
    {
        match n {
            0 => Ok(SRSPErrorCode::Success),
            1 => Ok(SRSPErrorCode::InvalidSubsystem),
            2 => Ok(SRSPErrorCode::InvalidCommandID),
            3 => Ok(SRSPErrorCode::InvalidParameter),
            4 => Ok(SRSPErrorCode::InvalidLength),
            _ => Err(Error::ProtocolDecode),
        }
    }

    /// Reading a code as a byte and reading that byte as a code gives the
    /// same code, and the byte is one of 0 to 4.
    pub proof fn lemma_of_raw(code: SRSPErrorCode)
        ensures
            0 <= code.raw() < 5,
            SRSPErrorCode::of(code.raw()) == code,
    {
    }

    /// Reading one of the bytes 0 to 4 as a code and the code as a byte
    /// gives that byte.
    pub proof fn lemma_raw_of(n: int)
        requires
            0 <= n < 5,
        ensures
            SRSPErrorCode::of(n).raw() == n,
    {
    }
}

} // verus!
