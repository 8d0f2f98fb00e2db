//! The wire codec and in-memory form of one message unit.
//!
//! A packet's encoding is its 8-octet header, the message length as an
//! 8-octet little-endian unsigned integer, and the message octets verbatim.
//! Decoding rejects buffers shorter than the 16-octet fixed prefix with
//! [`Error::PacketTooShort`], and buffers whose declared length disagrees
//! with the octets actually present with [`Error::LengthMismatch`]; it never
//! panics. The header octets are taken from the wire without validation.

use vstd::prelude::*;
use vstd::bytes::{
    lemma_auto_spec_u64_to_from_le_bytes, spec_u64_from_le_bytes, spec_u64_to_le_bytes,
    u64_from_le_bytes, u64_to_le_bytes,
};
use vstd::slice::{slice_index_get, slice_subrange, slice_to_vec};

use crate::header::{Header, HeaderOctets, HEADER_LENGTH};
use crate::{Octet, Octets};

verus! {

/// Length in octets of the message-length field.
pub const LENGTH_FIELD_LENGTH: usize = 8;

/// Length in octets of the shortest valid encoding: header plus length field,
/// with an empty message.
pub const MIN_ENCODED_LENGTH: usize = HEADER_LENGTH + LENGTH_FIELD_LENGTH;

/// Capacity in octets of the receive buffer the transport roles use. An
/// encoding longer than this is truncated by the platform receive call
/// before the decoder ever sees it.
pub const RECEIVE_BUFFER_LENGTH: usize = 2048;

/// The longest message whose encoding fits in one receive buffer. Longer
/// messages do not round-trip through the transports: this format carries no
/// fragment index, so a payload never spans datagrams.
pub const MAX_MESSAGE_LENGTH: usize = RECEIVE_BUFFER_LENGTH - MIN_ENCODED_LENGTH;

/// Why a buffer failed to decode.
#[derive(Debug, Clone, Copy, PartialEq, Eq, Structural)]
pub enum Error {
    /// The buffer is shorter than the 16-octet fixed prefix.
    PacketTooShort,
    /// The declared message length disagrees with the octets present.
    LengthMismatch,
}

/// The length field a buffer declares, read little-endian from octets 8..16.
pub open spec fn spec_declared_length(s: Seq<Octet>) -> u64 {
    spec_u64_from_le_bytes(s.subrange(HEADER_LENGTH as int, MIN_ENCODED_LENGTH as int))
}

/// Whether a buffer decodes: long enough for the fixed prefix, and its
/// declared length equal to the number of octets that follow it.
pub open spec fn spec_well_formed(s: Seq<Octet>) -> bool {
    &&& s.len() >= MIN_ENCODED_LENGTH
    &&& spec_declared_length(s) == s.len() - MIN_ENCODED_LENGTH
}

/// The header octets of a buffer: the first 8, taken verbatim.
pub open spec fn spec_header_octets(s: Seq<Octet>) -> Seq<Octet> {
    s.subrange(0, HEADER_LENGTH as int)
}

/// The message octets of a buffer: everything after the fixed prefix.
pub open spec fn spec_message_octets(s: Seq<Octet>) -> Seq<Octet> {
    s.subrange(MIN_ENCODED_LENGTH as int, s.len() as int)
}

/// One message unit: a header and an opaque, variable-length message.
#[derive(Debug)]
pub struct Packet {
    /// The fixed preamble, constant on the encode side and copied from the
    /// wire on the decode side.
    pub header: Header,
    /// The opaque payload; the codec gives its octets no interpretation.
    pub message: Vec<Octet>,
}

impl Packet {
    /// The wire form of this packet: header, little-endian message length,
    /// then the message octets verbatim.
    pub open spec fn encoded(self) -> Seq<Octet> {
        self.header.octets() + spec_u64_to_le_bytes(self.message@.len() as u64) + self.message@
    }

    /// Builds a packet around the given message, under the canonical header.
    pub fn new(message: Vec<Octet>) -> (p: Self)
        ensures
            p.header.is_canonical(),
            p.message@ == message@,
    {
        Self { header: Header::default(), message }
    }

    /// Builds a packet from raw wire pieces: 8 header octets taken verbatim
    /// and unvalidated, and the message octets copied as given.
    pub fn from_raw_parts(header: &HeaderOctets, message: &Octets) -> (p: Self)
        ensures
            p.header.octets() == header@,
            p.message@ == message@,
    {
        Self { header: Header::from_octets(header), message: slice_to_vec(message) }
    }

    /// Serializes this packet to its wire form. Always succeeds; the result
    /// is exactly the 16-octet prefix followed by the message.
    pub fn to_octets_vec(&self) -> (r: Vec<Octet>)
        ensures
            r@ == self.encoded(),
            r@.len() == MIN_ENCODED_LENGTH + self.message@.len(),
    {
        let mut v = self.header.to_octets_vec();
        let length_octets = u64_to_le_bytes(self.message.len() as u64);
        v.extend_from_slice(length_octets.as_slice());
        v.extend_from_slice(self.message.as_slice());
        proof {
            lemma_auto_spec_u64_to_from_le_bytes();
            assert(v@ =~= self.encoded());
        }
        v
    }

    /// Parses one packet out of a received buffer.
    ///
    /// Fails with [`Error::PacketTooShort`] exactly when the buffer is
    /// shorter than the 16-octet fixed prefix, and with
    /// [`Error::LengthMismatch`] exactly when the declared length disagrees
    /// with the octets that follow the prefix. Otherwise returns the packet
    /// whose header is the first 8 octets verbatim — no magic or version
    /// check — and whose message is everything after the prefix.
    pub fn try_from(value: &Octets) -> (r: Result<Packet, Error>)
        ensures
            value@.len() < MIN_ENCODED_LENGTH ==> r == Err::<Packet, Error>(
                Error::PacketTooShort,
            ),
            value@.len() >= MIN_ENCODED_LENGTH && !spec_well_formed(value@) ==> r == Err::<
                Packet,
                Error,
            >(Error::LengthMismatch),
            spec_well_formed(value@) ==> {
                &&& r is Ok
                &&& (r->Ok_0).header.octets() == spec_header_octets(value@)
                &&& (r->Ok_0).message@ == spec_message_octets(value@)
            },
    {
        if value.len() < MIN_ENCODED_LENGTH {
            return Err(Error::PacketTooShort);
        }
        let header_octets: HeaderOctets = [
            *slice_index_get(value, 0),
            *slice_index_get(value, 1),
            *slice_index_get(value, 2),
            *slice_index_get(value, 3),
            *slice_index_get(value, 4),
            *slice_index_get(value, 5),
            *slice_index_get(value, 6),
            *slice_index_get(value, 7),
        ];
        let length_octets = slice_subrange(value, HEADER_LENGTH, MIN_ENCODED_LENGTH);
        let declared = u64_from_le_bytes(length_octets);
        let rest = slice_subrange(value, MIN_ENCODED_LENGTH, value.len());
        if declared != rest.len() as u64 {
            return Err(Error::LengthMismatch);
        }
        let p = Packet::from_raw_parts(&header_octets, rest);
        proof {
            assert(header_octets@ =~= spec_header_octets(value@));
        }
        Ok(p)
    }

    /// The message octets, borrowed.
    pub fn message(&self) -> (r: &Octets)
        ensures
            r@ == self.message@,
    {
        self.message.as_slice()
    }
}

impl Default for Packet {
    /// A packet with an empty message under the canonical header.
    fn default() -> (p: Self)
        ensures
            p.header.is_canonical(),
            p.message@ == Seq::<Octet>::empty(),
    {
        let p = Packet::new(Vec::new());
        proof {
            assert(p.message@ =~= Seq::<Octet>::empty());
        }
        p
    }
}

/// Compares two runs of octets for equality, element by element.
fn octets_eq(a: &Octets, b: &Octets) -> (r: bool)
    ensures
        r <==> a@ == b@,
{
    if a.len() != b.len() {
        proof {
            assert(a@.len() != b@.len());
        }
        return false;
    }
    let n = a.len();
    let mut i: usize = 0;
    while i < n
        invariant
            n == a@.len(),
            b@.len() == n,
            0 <= i <= n,
            forall|j: int| 0 <= j < i ==> a@[j] == b@[j],
        decreases n - i,
    {
        if *slice_index_get(a, i) != *slice_index_get(b, i) {
            return false;
        }
        i += 1;
    }
    proof {
        assert(a@ =~= b@);
    }
    true
}

impl PartialEq for Packet {
    /// Two packets are equal when their headers and their messages agree
    /// octet for octet.
    fn eq(&self, other: &Self) -> (r: bool) {
        self.header == other.header && octets_eq(self.message.as_slice(), other.message.as_slice())
    }
}

impl vstd::std_specs::cmp::PartialEqSpecImpl for Packet {
    open spec fn obeys_eq_spec() -> bool {
        true
    }

    open spec fn eq_spec(&self, other: &Self) -> bool {
        self.header == other.header && self.message@ == other.message@
    }
}

/// The decoder ignores what the header octets hold: any 8 octets, followed
/// by a length field that matches the message that follows it, form a
/// well-formed buffer, and both pieces come back out verbatim.
pub proof fn lemma_encoding_well_formed(h: Seq<Octet>, m: Seq<Octet>)
    requires
        h.len() == HEADER_LENGTH,
        m.len() <= u64::MAX,
    ensures
        ({
            let e = h + spec_u64_to_le_bytes(m.len() as u64) + m;
            &&& e.len() == MIN_ENCODED_LENGTH + m.len()
            &&& spec_well_formed(e)
            &&& spec_header_octets(e) == h
            &&& spec_message_octets(e) == m
        }),
{
    lemma_auto_spec_u64_to_from_le_bytes();
    let lb = spec_u64_to_le_bytes(m.len() as u64);
    let e = h + lb + m;
    assert(e.subrange(HEADER_LENGTH as int, MIN_ENCODED_LENGTH as int) =~= lb);
    assert(spec_header_octets(e) =~= h);
    assert(spec_message_octets(e) =~= m);
}

/// Round-trip law: the encoding of any packet whose message length fits the
/// length field is well formed, and decoding it yields the packet's own
/// header octets and message, unchanged.
pub proof fn lemma_round_trip(p: Packet)
    requires
        p.message@.len() <= u64::MAX,
    ensures
        spec_well_formed(p.encoded()),
        spec_header_octets(p.encoded()) == p.header.octets(),
        spec_message_octets(p.encoded()) == p.message@,
{
    lemma_encoding_well_formed(p.header.octets(), p.message@);
}

/// Length-field fidelity: octets 8..16 of any packet's encoding are exactly
/// the message's length as an 8-octet little-endian integer.
pub proof fn lemma_length_field(p: Packet)
    requires
        p.message@.len() <= u64::MAX,
    ensures
        p.encoded().subrange(HEADER_LENGTH as int, MIN_ENCODED_LENGTH as int)
            == spec_u64_to_le_bytes(p.message@.len() as u64),
{
    lemma_auto_spec_u64_to_from_le_bytes();
    assert(p.encoded().subrange(HEADER_LENGTH as int, MIN_ENCODED_LENGTH as int)
        =~= spec_u64_to_le_bytes(p.message@.len() as u64));
}

} // verus!
