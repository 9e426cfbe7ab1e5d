//! The two enumerations that share the first byte of a command header.

use crate::Error;
use vstd::prelude::*;

verus! {

/// Specifies the type of a command being sent.
///
/// Occupies bits [7:5] in the first byte of a command header.
#[derive(Clone, Copy, Debug, PartialEq, Eq, Structural)]
pub enum Type {
    /// Not supported on CC2630 radios.
    POLL,
    /// A synchronous request that requires an immediate response,
    /// such as a function call with a return value.
    SREQ,
    /// An asynchronous request with no return value.
    AREQ,
    /// A synchronous response sent in response to an SREQ command.
    ///
    /// The subsystem and ID of an SRSP are those of the SREQ it answers.
    /// An SRSP normally carries data, so one with a length of zero
    /// typically indicates an error.
    SRSP,
    Reserved4,
    Reserved5,
    Reserved6,
    Reserved7,
}

impl Type {
    /// The number of bits that a command type occupies.
    pub const BITS: u8 = 3;

    /// The position of this value in the enumeration: its three bits on the
    /// wire, read as a number.
    pub open spec fn raw(self) -> int {
        match self {
            Type::POLL => 0,
            Type::SREQ => 1,
            Type::AREQ => 2,
            Type::SRSP => 3,
            Type::Reserved4 => 4,
            Type::Reserved5 => 5,
            Type::Reserved6 => 6,
            Type::Reserved7 => 7,
        }
    }

    /// The value whose position is `n`; meaningful for `0 <= n < 8`.
    pub open spec fn of(n: int) -> Type {
        if n == 0 {
            Type::POLL
        } else if n == 1 {
            Type::SREQ
        } else if n == 2 {
            Type::AREQ
        } else if n == 3 {
            Type::SRSP
        } else if n == 4 {
            Type::Reserved4
        } else if n == 5 {
            Type::Reserved5
        } else if n == 6 {
            Type::Reserved6
        } else {
            Type::Reserved7
        }
    }

    /// Returns the numeric value of this command type.
    pub fn inner_raw(self) -> (n: u8)
        ensures
            n == self.raw(),
    {
        match self {
            Type::POLL => 0,
            Type::SREQ => 1,
            Type::AREQ => 2,
            Type::SRSP => 3,
            Type::Reserved4 => 4,
            Type::Reserved5 => 5,
            Type::Reserved6 => 6,
            Type::Reserved7 => 7,
        }
    }

    /// The command type with the numeric value `n`, for a number of three
    /// bits.
    fn pick(n: u8) -> (t: Type)
        requires
            n < 8,
        ensures
            t == Type::of(n as int),
    {
        match n {
            0 => Type::POLL,
            1 => Type::SREQ,
            2 => Type::AREQ,
            3 => Type::SRSP,
            4 => Type::Reserved4,
            5 => Type::Reserved5,
            6 => Type::Reserved6,
            _ => Type::Reserved7,
        }
    }

    /// Builds the command type with the numeric value `n`.
    ///
    /// Every value of three bits names a type; anything larger is refused.
    pub fn from_raw(n: u8) -> (r: Result<Type, Error>)
        ensures
            n < 8 ==> r == Ok::<Type, Error>(Type::of(n as int)),
            n >= 8 ==> r == Err::<Type, Error>(Error::OutOfRangeConstruction),
    {
        if n < 8 {
            Ok(Type::pick(n))
        } else {
            Err(Error::OutOfRangeConstruction)
        }
    }

    /// Reads the command type from bits [7:5] of the first byte of a command
    /// header. Every byte holds one.
    pub fn from_cmd0(cmd0: u8) -> (t: Type)
        ensures
            t == Type::of(cmd0 as int / 32),
    {
        let bits: u8 = cmd0 >> 5;
        assert(bits == cmd0 / 32 && bits < 8) by (bit_vector)
            requires
                bits == cmd0 >> 5,
        ;
        Type::pick(bits)
    }

    /// Reading a command type as a number and building it again gives the
    /// same type, and the number is one of three bits.
    pub proof fn lemma_of_raw(t: Type)
        ensures
            0 <= t.raw() < 8,
            Type::of(t.raw()) == t,
    {
    }

    /// Building a command type from a number of three bits and reading it as
    /// a number gives that number.
    pub proof fn lemma_raw_of(n: int)
        requires
            0 <= n < 8,
        ensures
            Type::of(n).raw() == n,
    {
    }
}

/// Specifies the subsystem a command is for.
///
/// Occupies bits [4:0] in the first byte of the command header.
#[derive(Clone, Copy, Debug, PartialEq, Eq, Structural)]
pub enum Subsystem {
    /// Errors of the remote procedure call layer itself.
    RPCErrorInterface,
    /// The system interface.
    SYSInterface,
    Reserved2,
    Reserved3,
    /// The application framework interface.
    AFInterface,
    /// The Zigbee device object interface.
    ZDOInterface,
    /// The simple API interface.
    SimpleAPIInterface,
    /// The utilities interface.
    UTILInterface,
    Reserved8,
    /// The application interface.
    APPInterface,
    Reserved10,
    Reserved11,
    Reserved12,
    Reserved13,
    Reserved14,
    Reserved15,
    Reserved16,
    Reserved17,
    Reserved18,
    Reserved19,
    Reserved20,
    Reserved21,
    Reserved22,
    Reserved23,
    Reserved24,
    Reserved25,
    Reserved26,
    Reserved27,
    Reserved28,
    Reserved29,
    Reserved30,
    Reserved31,
}

impl Subsystem {
    /// The number of bits that a subsystem occupies.
    pub const BITS: u8 = 5;

    /// The position of this value in the enumeration: its five bits on the
    /// wire, read as a number.
    pub open spec fn raw(self) -> int {
        match self {
            Subsystem::RPCErrorInterface => 0,
            Subsystem::SYSInterface => 1,
            Subsystem::Reserved2 => 2,
            Subsystem::Reserved3 => 3,
            Subsystem::AFInterface => 4,
            Subsystem::ZDOInterface => 5,
            Subsystem::SimpleAPIInterface => 6,
            Subsystem::UTILInterface => 7,
            Subsystem::Reserved8 => 8,
            Subsystem::APPInterface => 9,
            Subsystem::Reserved10 => 10,
            Subsystem::Reserved11 => 11,
            Subsystem::Reserved12 => 12,
            Subsystem::Reserved13 => 13,
            Subsystem::Reserved14 => 14,
            Subsystem::Reserved15 => 15,
            Subsystem::Reserved16 => 16,
            Subsystem::Reserved17 => 17,
            Subsystem::Reserved18 => 18,
            Subsystem::Reserved19 => 19,
            Subsystem::Reserved20 => 20,
            Subsystem::Reserved21 => 21,
            Subsystem::Reserved22 => 22,
            Subsystem::Reserved23 => 23,
            Subsystem::Reserved24 => 24,
            Subsystem::Reserved25 => 25,
            Subsystem::Reserved26 => 26,
            Subsystem::Reserved27 => 27,
            Subsystem::Reserved28 => 28,
            Subsystem::Reserved29 => 29,
            Subsystem::Reserved30 => 30,
            Subsystem::Reserved31 => 31,
        }
    }

    /// The value whose position is `n`; meaningful for `0 <= n < 32`.
    pub open spec fn of(n: int) -> Subsystem {
        if n == 0 {
            Subsystem::RPCErrorInterface
        } else if n == 1 {
            Subsystem::SYSInterface
        } else if n == 2 {
            Subsystem::Reserved2
        } else if n == 3 {
            Subsystem::Reserved3
        } else if n == 4 {
            Subsystem::AFInterface
        } else if n == 5 {
            Subsystem::ZDOInterface
        } else if n == 6 {
            Subsystem::SimpleAPIInterface
        } else if n == 7 {
            Subsystem::UTILInterface
        } else if n == 8 {
            Subsystem::Reserved8
        } else if n == 9 {
            Subsystem::APPInterface
        } else if n == 10 {
            Subsystem::Reserved10
        } else if n == 11 {
            Subsystem::Reserved11
        } else if n == 12 {
            Subsystem::Reserved12
        } else if n == 13 {
            Subsystem::Reserved13
        } else if n == 14 {
            Subsystem::Reserved14
        } else if n == 15 {
            Subsystem::Reserved15
        } else if n == 16 {
            Subsystem::Reserved16
        } else if n == 17 {
            Subsystem::Reserved17
        } else if n == 18 {
            Subsystem::Reserved18
        } else if n == 19 {
            Subsystem::Reserved19
        } else if n == 20 {
            Subsystem::Reserved20
        } else if n == 21 {
            Subsystem::Reserved21
        } else if n == 22 {
            Subsystem::Reserved22
        } else if n == 23 {
            Subsystem::Reserved23
        } else if n == 24 {
            Subsystem::Reserved24
        } else if n == 25 {
            Subsystem::Reserved25
        } else if n == 26 {
            Subsystem::Reserved26
        } else if n == 27 {
            Subsystem::Reserved27
        } else if n == 28 {
            Subsystem::Reserved28
        } else if n == 29 {
            Subsystem::Reserved29
        } else if n == 30 {
            Subsystem::Reserved30
        } else {
            Subsystem::Reserved31
        }
    }

    /// Returns the numeric value of this subsystem.
    pub fn inner_raw(self) -> (n: u8)
        ensures
            n == self.raw(),
    {
        match self {
            Subsystem::RPCErrorInterface => 0,
            Subsystem::SYSInterface => 1,
            Subsystem::Reserved2 => 2,
            Subsystem::Reserved3 => 3,
            Subsystem::AFInterface => 4,
            Subsystem::ZDOInterface => 5,
            Subsystem::SimpleAPIInterface => 6,
            Subsystem::UTILInterface => 7,
            Subsystem::Reserved8 => 8,
            Subsystem::APPInterface => 9,
            Subsystem::Reserved10 => 10,
            Subsystem::Reserved11 => 11,
            Subsystem::Reserved12 => 12,
            Subsystem::Reserved13 => 13,
            Subsystem::Reserved14 => 14,
            Subsystem::Reserved15 => 15,
            Subsystem::Reserved16 => 16,
            Subsystem::Reserved17 => 17,
            Subsystem::Reserved18 => 18,
            Subsystem::Reserved19 => 19,
            Subsystem::Reserved20 => 20,
            Subsystem::Reserved21 => 21,
            Subsystem::Reserved22 => 22,
            Subsystem::Reserved23 => 23,
            Subsystem::Reserved24 => 24,
            Subsystem::Reserved25 => 25,
            Subsystem::Reserved26 => 26,
            Subsystem::Reserved27 => 27,
            Subsystem::Reserved28 => 28,
            Subsystem::Reserved29 => 29,
            Subsystem::Reserved30 => 30,
            Subsystem::Reserved31 => 31,
        }
    }

    /// The subsystem with the numeric value `n`, for a number of five bits.
    fn pick(n: u8) -> (s: Subsystem)
        requires
            n < 32,
        ensures
            s == Subsystem::of(n as int),
    {
        match n {
            0 => Subsystem::RPCErrorInterface,
            1 => Subsystem::SYSInterface,
            2 => Subsystem::Reserved2,
            3 => Subsystem::Reserved3,
            4 => Subsystem::AFInterface,
            5 => Subsystem::ZDOInterface,
            6 => Subsystem::SimpleAPIInterface,
            7 => Subsystem::UTILInterface,
            8 => Subsystem::Reserved8,
            9 => Subsystem::APPInterface,
            10 => Subsystem::Reserved10,
            11 => Subsystem::Reserved11,
            12 => Subsystem::Reserved12,
            13 => Subsystem::Reserved13,
            14 => Subsystem::Reserved14,
            15 => Subsystem::Reserved15,
            16 => Subsystem::Reserved16,
            17 => Subsystem::Reserved17,
            18 => Subsystem::Reserved18,
            19 => Subsystem::Reserved19,
            20 => Subsystem::Reserved20,
            21 => Subsystem::Reserved21,
            22 => Subsystem::Reserved22,
            23 => Subsystem::Reserved23,
            24 => Subsystem::Reserved24,
            25 => Subsystem::Reserved25,
            26 => Subsystem::Reserved26,
            27 => Subsystem::Reserved27,
            28 => Subsystem::Reserved28,
            29 => Subsystem::Reserved29,
            30 => Subsystem::Reserved30,
            _ => Subsystem::Reserved31,
        }
    }

    /// Builds the subsystem with the numeric value `n`.
    ///
    /// Every value of five bits names a subsystem; anything larger is
    /// refused.
    pub fn from_raw(n: u8) -> (r: Result<Subsystem, Error>)
        ensures
            n < 32 ==> r == Ok::<Subsystem, Error>(Subsystem::of(n as int)),
            n >= 32 ==> r == Err::<Subsystem, Error>(Error::OutOfRangeConstruction),
    {
        if n < 32 {
            Ok(Subsystem::pick(n))
        } else {
            Err(Error::OutOfRangeConstruction)
        }
    }

    /// Reads the subsystem from bits [4:0] of the first byte of a command
    /// header. Every byte holds one.
    pub fn from_cmd0(cmd0: u8) -> (s: Subsystem)
        ensures
            s == Subsystem::of(cmd0 as int % 32),
    {
        let bits: u8 = cmd0 & 0x1F;
        assert(bits == cmd0 % 32 && bits < 32) by (bit_vector)
            requires
                bits == cmd0 & 0x1F,
        ;
        Subsystem::pick(bits)
    }

    /// Reading a subsystem as a number and building it again gives the same
    /// subsystem, and the number is one of five bits.
    pub proof fn lemma_of_raw(s: Subsystem)
        ensures
            0 <= s.raw() < 32,
            Subsystem::of(s.raw()) == s,
    {
    }

    /// Building a subsystem from a number of five bits and reading it as a
    /// number gives that number.
    pub proof fn lemma_raw_of(n: int)
        requires
            0 <= n < 32,
        ensures
            Subsystem::of(n).raw() == n,
    {
    }
}

} // verus!
