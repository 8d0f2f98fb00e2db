//! A minimal length-prefixed binary packet format ("YMMP").
//!
//! A packet on the wire is an 8-octet header (4-octet magic tag, 4-octet
//! version tag), an 8-octet little-endian message length, and the message
//! octets themselves. The codec here is pure: encoding always succeeds, and
//! decoding rejects truncated or mismatched input with a typed error instead
//! of panicking. Transport glue that moves encoded packets over datagram
//! sockets lives outside this library.

pub mod header;
pub mod packet;

use vstd::prelude::*;

verus! {

/// One byte of a wire encoding.
pub type Octet = u8;

/// A borrowed run of wire bytes.
pub type Octets = [Octet];

} // verus!

pub use crate::header::Header;
pub use crate::packet::Packet;
