//! The inner headers of a tunnel's control block.

use crate::wire::{
    be_bytes, lemma_bytes_injective, lemma_bytes_len, lemma_span_values, push_be, ByteOrder,
};
use vstd::prelude::*;

verus! {

/// The version of the outer header of a 6in4 tunnel.
pub const IP_VERSION: u8 = 4;

/// The length of an IPv4 header without options, in 32-bit words.
pub const HEADER_WORDS: u8 = 5;

/// The hop limit that a 6in4 tunnel gives its outer packets.
pub const TUNNEL_TTL: u8 = 64;

/// The protocol number of an IPv6 packet carried in an IPv4 packet.
pub const PROTOCOL_IPV6: u8 = 41;

/// The bytes that an IPv4 header takes in a control block.
pub const IPHDR4_SIZE: usize = 20;

/// Where the version and header length stand in an IPv4 header.
pub const VIHL_OFFSET: usize = 0;

/// Where the type of service stands.
pub const TOS_OFFSET: usize = 1;

/// Where the total length starts.
pub const TOT_LEN_OFFSET: usize = 2;

/// Where the identification starts.
pub const ID_OFFSET: usize = 4;

/// Where the fragment offset starts.
pub const FRAG_OFF_OFFSET: usize = 6;

/// Where the hop limit stands.
pub const TTL_OFFSET: usize = 8;

/// Where the protocol number stands.
pub const PROTOCOL_OFFSET: usize = 9;

/// Where the checksum starts.
pub const CHECK_OFFSET: usize = 10;

/// Where the source address starts.
pub const SADDR_OFFSET: usize = 12;

/// Where the destination address starts.
pub const DADDR_OFFSET: usize = 16;

/// The bytes that a pair of IPv6 addresses takes in a control block.
pub const IPHDR6_SIZE: usize = 32;

/// The first byte of an IPv4 header: the version in the high four bits, the
/// header length in 32-bit words in the low four.
#[derive(Clone, Copy, Debug, PartialEq, Eq)]
pub struct VerIhl(pub u8);

impl Default for VerIhl {
    /// Version and header length both zero.
    fn default() -> (byte: Self)
        ensures
            byte.0 == 0,
    {
        VerIhl(0)
    }
}

impl VerIhl {
    /// The version nibble.
    pub open spec fn spec_version(self) -> int {
        self.0 as int / 16
    }

    /// The header length nibble.
    pub open spec fn spec_ihl(self) -> int {
        self.0 as int % 16
    }

    /// Replaces the version by the low four bits of `version`; the header
    /// length stays.
    pub fn set_version(&mut self, version: u8)
        ensures
            final(self).spec_version() == version % 16,
            final(self).spec_ihl() == old(self).spec_ihl(),
    {
        let byte: u8 = self.0;
        let packed: u8 = (byte & 0x0f) | (version << 4);
        assert(packed / 16 == version % 16 && packed % 16 == byte % 16) by (bit_vector)
            requires
                packed == (byte & 0x0f) | (version << 4),
        ;
        self.0 = packed;
    }

    /// Replaces the header length by the low four bits of `ihl`; the version
    /// stays.
    pub fn set_ihl(&mut self, ihl: u8)
        ensures
            final(self).spec_ihl() == ihl % 16,
            final(self).spec_version() == old(self).spec_version(),
    {
        let byte: u8 = self.0;
        let packed: u8 = (byte & 0xf0) | (ihl & 0x0f);
        assert(packed % 16 == ihl % 16 && packed / 16 == byte / 16) by (bit_vector)
            requires
                packed == (byte & 0xf0) | (ihl & 0x0f),
        ;
        self.0 = packed;
    }

    /// The version.
    pub fn version(&self) -> (version: u8)
        ensures
            version == self.spec_version(),
    {
        self.0 / 16
    }

    /// The header length in 32-bit words.
    pub fn ihl(&self) -> (ihl: u8)
        ensures
            ihl == self.spec_ihl(),
    {
        self.0 % 16
    }
}

/// `libc::IPPROTO_IPV6` as the byte that an IPv4 header holds: libc defines
/// the protocol number as 41.
#[verifier::external_body]
fn ipv6_protocol() -> (protocol: u8)
    ensures
        protocol == PROTOCOL_IPV6,
{
    libc::IPPROTO_IPV6 as u8
}

/// An IPv4 header as a control block holds it: the outer header of a 6in4
/// tunnel. Numbers of more than one byte stand in network order.
#[derive(Clone, Copy, Debug, PartialEq, Eq)]
pub struct IpHdr4 {
    pub vihl: VerIhl,
    pub tos: u8,
    pub tot_len: u16,
    pub id: u16,
    pub frag_off: u16,
    pub ttl: u8,
    pub protocol: u8,
    pub check: u16,
    pub saddr: u32,
    pub daddr: u32,
}

impl IpHdr4 {
    /// The header of a tunnel that carries IPv6 from `saddr` to `daddr`:
    /// version 4, five words long, hop limit 64, protocol 41, and zero in every
    /// field that the kernel fills in when it sends a packet.
    pub open spec fn spec_tunnel(saddr: u32, daddr: u32) -> IpHdr4 {
        IpHdr4 {
            vihl: VerIhl((IP_VERSION * 16 + HEADER_WORDS) as u8),
            tos: 0,
            tot_len: 0,
            id: 0,
            frag_off: 0,
            ttl: TUNNEL_TTL,
            protocol: PROTOCOL_IPV6,
            check: 0,
            saddr,
            daddr,
        }
    }

    /// The header with every field zero, as a deletion sends it.
    pub open spec fn spec_zeroed() -> IpHdr4 {
        IpHdr4 {
            vihl: VerIhl(0),
            tos: 0,
            tot_len: 0,
            id: 0,
            frag_off: 0,
            ttl: 0,
            protocol: 0,
            check: 0,
            saddr: 0,
            daddr: 0,
        }
    }

    /// The twenty bytes of the header, field after field.
    pub open spec fn spec_bytes(self) -> Seq<u8> {
        seq![self.vihl.0, self.tos] + be_bytes(self.tot_len as nat, 2) + be_bytes(
            self.id as nat,
            2,
        ) + be_bytes(self.frag_off as nat, 2) + seq![self.ttl, self.protocol] + be_bytes(
            self.check as nat,
            2,
        ) + be_bytes(self.saddr as nat, 4) + be_bytes(self.daddr as nat, 4)
    }

    /// The header has as many bytes as its size says.
    pub proof fn lemma_size(self)
        ensures
            self.spec_bytes().len() == IPHDR4_SIZE,
    {
        lemma_bytes_len(self.tot_len as nat, 2);
        lemma_bytes_len(self.id as nat, 2);
        lemma_bytes_len(self.frag_off as nat, 2);
        lemma_bytes_len(self.check as nat, 2);
        lemma_bytes_len(self.saddr as nat, 4);
        lemma_bytes_len(self.daddr as nat, 4);
    }

    /// Where each field stands among the header's bytes.
    pub proof fn lemma_layout(self)
        ensures
            self.spec_bytes()[VIHL_OFFSET as int] == self.vihl.0,
            self.spec_bytes()[TOS_OFFSET as int] == self.tos,
            self.spec_bytes().subrange(TOT_LEN_OFFSET as int, TOT_LEN_OFFSET + 2) == be_bytes(
                self.tot_len as nat,
                2,
            ),
            self.spec_bytes().subrange(ID_OFFSET as int, ID_OFFSET + 2) == be_bytes(
                self.id as nat,
                2,
            ),
            self.spec_bytes().subrange(FRAG_OFF_OFFSET as int, FRAG_OFF_OFFSET + 2) == be_bytes(
                self.frag_off as nat,
                2,
            ),
            self.spec_bytes()[TTL_OFFSET as int] == self.ttl,
            self.spec_bytes()[PROTOCOL_OFFSET as int] == self.protocol,
            self.spec_bytes().subrange(CHECK_OFFSET as int, CHECK_OFFSET + 2) == be_bytes(
                self.check as nat,
                2,
            ),
            self.spec_bytes().subrange(SADDR_OFFSET as int, SADDR_OFFSET + 4) == be_bytes(
                self.saddr as nat,
                4,
            ),
            self.spec_bytes().subrange(DADDR_OFFSET as int, DADDR_OFFSET + 4) == be_bytes(
                self.daddr as nat,
                4,
            ),
    {
        lemma_bytes_len(self.tot_len as nat, 2);
        lemma_bytes_len(self.id as nat, 2);
        lemma_bytes_len(self.frag_off as nat, 2);
        lemma_bytes_len(self.check as nat, 2);
        lemma_bytes_len(self.saddr as nat, 4);
        lemma_bytes_len(self.daddr as nat, 4);
    }

    /// Headers with the same bytes are the same header.
    pub proof fn lemma_injective(self, other: IpHdr4)
        requires
            self.spec_bytes() == other.spec_bytes(),
        ensures
            self == other,
    {
        self.lemma_layout();
        other.lemma_layout();
        lemma_span_values();
        lemma_bytes_injective(ByteOrder::Big, self.tot_len as nat, other.tot_len as nat, 2);
        lemma_bytes_injective(ByteOrder::Big, self.id as nat, other.id as nat, 2);
        lemma_bytes_injective(ByteOrder::Big, self.frag_off as nat, other.frag_off as nat, 2);
        lemma_bytes_injective(ByteOrder::Big, self.check as nat, other.check as nat, 2);
        lemma_bytes_injective(ByteOrder::Big, self.saddr as nat, other.saddr as nat, 4);
        lemma_bytes_injective(ByteOrder::Big, self.daddr as nat, other.daddr as nat, 4);
    }

    /// The header of a tunnel that carries IPv6 from `saddr` to `daddr`.
    pub fn tunnel(saddr: u32, daddr: u32) -> (header: IpHdr4)
        ensures
            header == Self::spec_tunnel(saddr, daddr),
    {
        let mut vihl = VerIhl::default();
        vihl.set_version(IP_VERSION);
        vihl.set_ihl(HEADER_WORDS);
        IpHdr4 {
            vihl,
            tos: 0,
            tot_len: 0,
            id: 0,
            frag_off: 0,
            ttl: TUNNEL_TTL,
            protocol: ipv6_protocol(),
            check: 0,
            saddr,
            daddr,
        }
    }

    /// The header with every field zero.
    pub fn zeroed() -> (header: IpHdr4)
        ensures
            header == Self::spec_zeroed(),
    {
        IpHdr4 {
            vihl: VerIhl::default(),
            tos: 0,
            tot_len: 0,
            id: 0,
            frag_off: 0,
            ttl: 0,
            protocol: 0,
            check: 0,
            saddr: 0,
            daddr: 0,
        }
    }

    /// Appends the header's bytes to `out`.
    pub fn encode(&self, out: &mut Vec<u8>)
        ensures
            final(out)@ == old(out)@ + self.spec_bytes(),
    {
        out.push(self.vihl.0);
        out.push(self.tos);
        push_be(out, self.tot_len as u128, 2);
        push_be(out, self.id as u128, 2);
        push_be(out, self.frag_off as u128, 2);
        out.push(self.ttl);
        out.push(self.protocol);
        push_be(out, self.check as u128, 2);
        push_be(out, self.saddr as u128, 4);
        push_be(out, self.daddr as u128, 4);
    }
}

/// The inner header of a 4in6 tunnel: its two endpoints and nothing else, each
/// in network order.
#[derive(Clone, Copy, Debug, PartialEq, Eq)]
pub struct IpHdr6 {
    pub saddr: u128,
    pub daddr: u128,
}

impl IpHdr6 {
    /// The thirty-two bytes of the two addresses.
    pub open spec fn spec_bytes(self) -> Seq<u8> {
        be_bytes(self.saddr as nat, 16) + be_bytes(self.daddr as nat, 16)
    }

    /// The header has as many bytes as its size says.
    pub proof fn lemma_size(self)
        ensures
            self.spec_bytes().len() == IPHDR6_SIZE,
    {
        lemma_bytes_len(self.saddr as nat, 16);
        lemma_bytes_len(self.daddr as nat, 16);
    }

    /// Where the two addresses stand among the header's bytes.
    pub proof fn lemma_layout(self)
        ensures
            self.spec_bytes().subrange(0, 16) == be_bytes(self.saddr as nat, 16),
            self.spec_bytes().subrange(16, 32) == be_bytes(self.daddr as nat, 16),
    {
        lemma_bytes_len(self.saddr as nat, 16);
        lemma_bytes_len(self.daddr as nat, 16);
    }

    /// Headers with the same bytes are the same header.
    pub proof fn lemma_injective(self, other: IpHdr6)
        requires
            self.spec_bytes() == other.spec_bytes(),
        ensures
            self == other,
    {
        self.lemma_layout();
        other.lemma_layout();
        lemma_span_values();
        lemma_bytes_injective(ByteOrder::Big, self.saddr as nat, other.saddr as nat, 16);
        lemma_bytes_injective(ByteOrder::Big, self.daddr as nat, other.daddr as nat, 16);
    }

    /// Appends the header's bytes to `out`.
    pub fn encode(&self, out: &mut Vec<u8>)
        ensures
            final(out)@ == old(out)@ + self.spec_bytes(),
    {
        push_be(out, self.saddr, 16);
        push_be(out, self.daddr, 16);
    }
}

/// The part of a control block that depends on the kind of tunnel.
#[derive(Clone, Copy, Debug, PartialEq, Eq)]
pub enum InnerHeader {
    /// Outer IPv4: a 6in4 tunnel.
    V4(IpHdr4),
    /// Outer IPv6: a 4in6 tunnel.
    V6(IpHdr6),
}

impl InnerHeader {
    /// The bytes of the header.
    pub open spec fn spec_bytes(self) -> Seq<u8> {
        match self {
            InnerHeader::V4(header) => header.spec_bytes(),
            InnerHeader::V6(header) => header.spec_bytes(),
        }
    }

    /// The number of bytes of the header.
    pub open spec fn spec_size(self) -> nat {
        match self {
            InnerHeader::V4(_) => IPHDR4_SIZE as nat,
            InnerHeader::V6(_) => IPHDR6_SIZE as nat,
        }
    }

    /// The header has as many bytes as its size says.
    pub proof fn lemma_size(self)
        ensures
            self.spec_bytes().len() == self.spec_size(),
    {
        match self {
            InnerHeader::V4(header) => header.lemma_size(),
            InnerHeader::V6(header) => header.lemma_size(),
        }
    }

    /// Headers with the same bytes are the same header, of the same kind.
    pub proof fn lemma_injective(self, other: InnerHeader)
        requires
            self.spec_bytes() == other.spec_bytes(),
        ensures
            self == other,
    {
        self.lemma_size();
        other.lemma_size();
        match (self, other) {
            (InnerHeader::V4(a), InnerHeader::V4(b)) => a.lemma_injective(b),
            (InnerHeader::V6(a), InnerHeader::V6(b)) => a.lemma_injective(b),
            _ => {},
        }
    }

    /// Appends the header's bytes to `out`.
    pub fn encode(&self, out: &mut Vec<u8>)
        ensures
            final(out)@ == old(out)@ + self.spec_bytes(),
    {
        match self {
            InnerHeader::V4(header) => header.encode(out),
            InnerHeader::V6(header) => header.encode(out),
        }
    }
}

} // verus!
