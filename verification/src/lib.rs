//! Typed model of the command-frame header exchanged with a Zigbee network
//! processor over a serial link.

use vstd::prelude::*;

pub mod znp;

verus! {

/// Why a value could not be built or read.
#[derive(Clone, Copy, Debug, PartialEq, Eq, Structural)]
pub enum Error {
    /// A field read from a raw integer does not fit the width of its target.
    NumericConversion,
    /// A raw value or a length lies outside the domain of the type to build.
    OutOfRangeConstruction,
    /// A byte on the wire is none of the codes that the protocol defines.
    ProtocolDecode,
}

/// The address of a device on a Zigbee network.
#[derive(Clone, Copy, Debug, PartialEq, Eq, Structural)]
pub enum Address {
    /// 16-bit Zigbee network address
    Bit16(u16),
    /// 64-bit IEEE address
    Bit64(u64),
}

} // verus!
