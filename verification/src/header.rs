//! The fixed 8-octet packet preamble: a 4-octet magic tag followed by a
//! 4-octet version tag.
//!
//! Encoding a header concatenates the two tags. Decoding copies 8 octets
//! verbatim and performs no validation of the tags; callers that need strict
//! conformance call [`Header::validate`] themselves.

use vstd::prelude::*;

use crate::Octet;

verus! {

/// Length in octets of the magic tag.
pub const MAGIC_LENGTH: usize = 4;

/// Length in octets of the version tag.
pub const VERSION_LENGTH: usize = 4;

/// Length in octets of an encoded header.
pub const HEADER_LENGTH: usize = MAGIC_LENGTH + VERSION_LENGTH;

/// The magic tag of a packet header.
pub type Magic = [Octet; MAGIC_LENGTH];

/// The version tag of a packet header.
pub type Version = [Octet; VERSION_LENGTH];

/// An encoded header: magic tag followed by version tag.
pub type HeaderOctets = [Octet; HEADER_LENGTH];

/// The magic tag carried by every header this library produces.
pub open spec fn default_magic() -> Seq<Octet> {
    seq![89u8, 77u8, 77u8, 80u8]
}

/// The version tag carried by every header this library produces.
pub open spec fn default_version() -> Seq<Octet> {
    seq![118u8, 49u8, 46u8, 48u8]
}

/// The fixed preamble of a packet: protocol tag and format-version tag.
#[derive(Debug, Clone, Copy)]
pub struct Header {
    /// The 4-octet protocol tag.
    pub magic: Magic,
    /// The 4-octet format-version tag.
    pub version: Version,
}

impl Header {
    /// The 8-octet wire form of this header: magic tag then version tag.
    pub open spec fn octets(self) -> Seq<Octet> {
        self.magic@ + self.version@
    }

    /// Whether this header carries the canonical magic and version tags.
    pub open spec fn is_canonical(self) -> bool {
        self.magic@ == default_magic() && self.version@ == default_version()
    }

    /// Builds a header from its two tags, copied verbatim.
    pub fn from_raw_parts(magic: &Magic, version: &Version) -> (h: Self)
        ensures
            h.magic == *magic,
            h.version == *version,
    {
        Self { magic: *magic, version: *version }
    }

    /// Builds a header by splitting 8 octets at the magic/version boundary,
    /// copying each half verbatim. No tag validation is performed.
    pub fn from_octets(octets: &HeaderOctets) -> (h: Self)
        ensures
            h.octets() == octets@,
    {
        let magic: Magic = [octets[0], octets[1], octets[2], octets[3]];
        let version: Version = [octets[4], octets[5], octets[6], octets[7]];
        let h = Self { magic, version };
        proof {
            assert(h.octets() =~= octets@);
        }
        h
    }

    /// The 8-octet wire form of this header as a fixed array: magic tag then
    /// version tag.
    pub fn to_octets(&self) -> (r: HeaderOctets)
        ensures
            r@ == self.octets(),
    {
        let r: HeaderOctets = [
            self.magic[0],
            self.magic[1],
            self.magic[2],
            self.magic[3],
            self.version[0],
            self.version[1],
            self.version[2],
            self.version[3],
        ];
        proof {
            assert(r@ =~= self.octets());
        }
        r
    }

    /// Serializes this header to its 8-octet wire form.
    pub fn to_octets_vec(&self) -> (r: Vec<Octet>)
        ensures
            r@ == self.octets(),
            r@.len() == HEADER_LENGTH,
    {
        let mut v: Vec<Octet> = Vec::new();
        v.extend_from_slice(self.magic.as_slice());
        v.extend_from_slice(self.version.as_slice());
        v
    }

    /// Reports whether the header carries the canonical magic and version
    /// tags. Decoding never calls this: a decoder accepts any 8 octets.
    pub fn validate(&self) -> (r: bool)
        ensures
            r == self.is_canonical(),
    {
        let r = self.magic[0] == 89u8 && self.magic[1] == 77u8 && self.magic[2] == 77u8
            && self.magic[3] == 80u8 && self.version[0] == 118u8 && self.version[1] == 49u8
            && self.version[2] == 46u8 && self.version[3] == 48u8;
        proof {
            assert(self.magic@ =~= default_magic() <==> (self.magic@[0] == 89u8
                && self.magic@[1] == 77u8 && self.magic@[2] == 77u8 && self.magic@[3] == 80u8));
            assert(self.version@ =~= default_version() <==> (self.version@[0] == 118u8
                && self.version@[1] == 49u8 && self.version@[2] == 46u8 && self.version@[3]
                == 48u8));
        }
        r
    }
}

impl Default for Header {
    /// The canonical header: magic tag `YMMP`, version tag `v1.0`.
    fn default() -> (h: Self)
        ensures
            h.is_canonical(),
    {
        let h = Self {
            magic: [89u8, 77u8, 77u8, 80u8],
            version: [118u8, 49u8, 46u8, 48u8],
        };
        proof {
            assert(h.magic@ =~= default_magic());
            assert(h.version@ =~= default_version());
        }
        h
    }
}

impl PartialEq for Header {
    /// Two headers are equal when both tags agree octet for octet.
    fn eq(&self, other: &Self) -> (r: bool) {
        let r = self.magic[0] == other.magic[0] && self.magic[1] == other.magic[1]
            && self.magic[2] == other.magic[2] && self.magic[3] == other.magic[3]
            && self.version[0] == other.version[0] && self.version[1] == other.version[1]
            && self.version[2] == other.version[2] && self.version[3] == other.version[3];
        proof {
            assert(self.magic@ =~= other.magic@ <==> (self.magic@[0] == other.magic@[0]
                && self.magic@[1] == other.magic@[1] && self.magic@[2] == other.magic@[2]
                && self.magic@[3] == other.magic@[3]));
            assert(self.version@ =~= other.version@ <==> (self.version@[0] == other.version@[0]
                && self.version@[1] == other.version@[1] && self.version@[2] == other.version@[2]
                && self.version@[3] == other.version@[3]));
            assert(self.magic@ == other.magic@ && self.version@ == other.version@
                ==> self.magic =~= other.magic && self.version =~= other.version);
        }
        r
    }
}

impl vstd::std_specs::cmp::PartialEqSpecImpl for Header {
    open spec fn obeys_eq_spec() -> bool {
        true
    }

    open spec fn eq_spec(&self, other: &Self) -> bool {
        self.magic == other.magic && self.version == other.version
    }
}

} // verus!
