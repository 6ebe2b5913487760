//! The control block of a tunnel: what the kernel's tunnel driver reads when
//! it is asked to make or remove one.
//!
//! A block is a header of thirty-two bytes and an inner header after it:
//!
//! | bytes  | field                                             |
//! |--------|---------------------------------------------------|
//! | 0..16  | the tunnel's name, zero-terminated and zero-padded |
//! | 16..20 | the index of the master, in the host's byte order |
//! | 20..32 | flags and keys, which are always zero             |
//! | 32..   | the inner header: IPv4, or a pair of IPv6 addresses |

use crate::error::Error;
use crate::header::{
    InnerHeader, IpHdr4, IpHdr6, CHECK_OFFSET, DADDR_OFFSET, PROTOCOL_OFFSET, SADDR_OFFSET,
    TOS_OFFSET, TOT_LEN_OFFSET, TTL_OFFSET, VIHL_OFFSET,
};
use crate::name::{
    encode_name, lemma_name_field_injective, name_field, name_fits, name_unbroken, NAME_SIZE,
};
use crate::wire::{
    be_bytes, lemma_bytes_injective, lemma_bytes_len, lemma_span_values, lemma_zero_bytes,
    ordered_bytes, push_ordered, push_zeros, zeros, ByteOrder,
};
use vstd::prelude::*;
use vstd::utf8::{encode_utf8, encode_utf8_decode_utf8};

verus! {

/// Where the name field starts.
pub const NAME_OFFSET: usize = 0;

/// Where the index of the master starts.
pub const LINK_OFFSET: usize = 16;

/// The bytes that the index of the master takes.
pub const LINK_SIZE: usize = 4;

/// Where the flags and keys start.
pub const FLAGS_OFFSET: usize = 20;

/// The bytes that the flags and keys take together.
pub const FLAGS_SIZE: usize = 12;

/// Where the inner header starts.
pub const IPH_OFFSET: usize = 32;

/// The bytes of a control block with an IPv4 inner header.
pub const PARM4_SIZE: usize = 52;

/// The bytes of a control block with an IPv6 inner header.
pub const PARM6_SIZE: usize = 64;

/// What a control block says: which tunnel, on which master, between which
/// endpoints. Flags and keys are not offered: a block holds zero for them.
#[derive(Debug, PartialEq, Eq)]
pub struct TunnelDescriptor {
    /// The name of the tunnel.
    pub name: String,
    /// The index of the interface that carries the tunnel; zero where none is
    /// named.
    pub link: u32,
    /// The inner header.
    pub iph: InnerHeader,
}

impl TunnelDescriptor {
    /// The bytes of the name.
    pub open spec fn name_bytes(self) -> Seq<u8> {
        encode_utf8(self.name@)
    }

    /// Whether the name fits its field, so that the block can be written.
    pub open spec fn fits(self) -> bool {
        name_fits(self.name_bytes())
    }

    /// The bytes of the block on a host of the given byte order: name field,
    /// index of the master, twelve zero bytes, inner header.
    pub open spec fn spec_encode(self, order: ByteOrder) -> Seq<u8>
        recommends
            self.fits(),
    {
        name_field(self.name_bytes()) + ordered_bytes(order, self.link as nat, LINK_SIZE as nat)
            + zeros(FLAGS_SIZE as nat) + self.iph.spec_bytes()
    }

    /// The number of bytes of the block.
    pub open spec fn spec_size(self) -> nat {
        IPH_OFFSET as nat + self.iph.spec_size()
    }

    /// A block that fits has the size of its kind: 52 bytes with an IPv4 inner
    /// header, 64 with an IPv6 one.
    pub proof fn lemma_size(self, order: ByteOrder)
        requires
            self.fits(),
        ensures
            self.spec_encode(order).len() == self.spec_size(),
            self.iph is V4 ==> self.spec_size() == PARM4_SIZE,
            self.iph is V6 ==> self.spec_size() == PARM6_SIZE,
    {
        lemma_bytes_len(self.link as nat, LINK_SIZE as nat);
        self.iph.lemma_size();
    }

    /// Where each field stands in a block that fits: the name field in the
    /// first sixteen bytes, the index of the master in the next four, zeros up
    /// to the thirty-second, and the inner header from there to the end.
    pub proof fn lemma_layout(self, order: ByteOrder)
        requires
            self.fits(),
        ensures
            self.spec_encode(order).subrange(NAME_OFFSET as int, NAME_OFFSET + NAME_SIZE)
                == name_field(self.name_bytes()),
            self.spec_encode(order).subrange(LINK_OFFSET as int, LINK_OFFSET + LINK_SIZE)
                == ordered_bytes(order, self.link as nat, LINK_SIZE as nat),
            self.spec_encode(order).subrange(FLAGS_OFFSET as int, FLAGS_OFFSET + FLAGS_SIZE)
                == zeros(FLAGS_SIZE as nat),
            self.spec_encode(order).subrange(IPH_OFFSET as int, self.spec_size() as int)
                == self.iph.spec_bytes(),
    {
        lemma_bytes_len(self.link as nat, LINK_SIZE as nat);
        self.iph.lemma_size();
    }

    /// The block of a 6in4 tunnel holds version 4 and header length 5 in one
    /// byte, hop limit 64, protocol 41, the two endpoints in network order,
    /// and zero in every header field that the kernel fills in when it sends a
    /// packet.
    pub proof fn lemma_sit_layout(self, order: ByteOrder, laddr: u32, raddr: u32)
        requires
            self.fits(),
            self.iph == InnerHeader::V4(IpHdr4::spec_tunnel(laddr, raddr)),
        ensures
            self.spec_encode(order).len() == PARM4_SIZE,
            self.spec_encode(order)[IPH_OFFSET + VIHL_OFFSET] == 0x45,
            self.spec_encode(order)[IPH_OFFSET + TOS_OFFSET] == 0,
            self.spec_encode(order).subrange(
                IPH_OFFSET + TOT_LEN_OFFSET,
                IPH_OFFSET + TTL_OFFSET,
            ) == zeros(6),
            self.spec_encode(order)[IPH_OFFSET + TTL_OFFSET] == 64,
            self.spec_encode(order)[IPH_OFFSET + PROTOCOL_OFFSET] == 41,
            self.spec_encode(order).subrange(
                IPH_OFFSET + CHECK_OFFSET,
                IPH_OFFSET + SADDR_OFFSET,
            ) == zeros(2),
            self.spec_encode(order).subrange(
                IPH_OFFSET + SADDR_OFFSET,
                IPH_OFFSET + DADDR_OFFSET,
            ) == be_bytes(laddr as nat, 4),
            self.spec_encode(order).subrange(IPH_OFFSET + DADDR_OFFSET, PARM4_SIZE as int)
                == be_bytes(raddr as nat, 4),
    {
        let header = IpHdr4::spec_tunnel(laddr, raddr);
        self.lemma_layout(order);
        header.lemma_size();
        header.lemma_layout();
        lemma_zero_bytes(2);
    }

    /// The block of a 4in6 tunnel holds the two endpoints in network order and
    /// nothing else after its first thirty-two bytes.
    pub proof fn lemma_ipip6_layout(self, order: ByteOrder, laddr: u128, raddr: u128)
        requires
            self.fits(),
            self.iph == InnerHeader::V6(IpHdr6 { saddr: laddr, daddr: raddr }),
        ensures
            self.spec_encode(order).len() == PARM6_SIZE,
            self.spec_encode(order).subrange(IPH_OFFSET as int, IPH_OFFSET + 16) == be_bytes(
                laddr as nat,
                16,
            ),
            self.spec_encode(order).subrange(IPH_OFFSET + 16, PARM6_SIZE as int) == be_bytes(
                raddr as nat,
                16,
            ),
    {
        let header = IpHdr6 { saddr: laddr, daddr: raddr };
        self.lemma_size(order);
        self.lemma_layout(order);
        header.lemma_size();
        header.lemma_layout();
        // The addresses stand in the inner header, and the inner header in the block.
        assert(self.spec_encode(order).subrange(IPH_OFFSET as int, IPH_OFFSET + 16)
            =~= header.spec_bytes().subrange(0, 16));
        assert(self.spec_encode(order).subrange(IPH_OFFSET + 16, PARM6_SIZE as int)
            =~= header.spec_bytes().subrange(16, 32));
    }

    /// A block says all that its descriptor says: descriptors that are written
    /// alike name the same tunnel on the same master between the same
    /// endpoints. This holds of names without a zero byte; a zero inside a name
    /// would end it early.
    pub proof fn lemma_injective(self, other: TunnelDescriptor, order: ByteOrder)
        requires
            self.fits(),
            other.fits(),
            name_unbroken(self.name_bytes()),
            name_unbroken(other.name_bytes()),
            self.spec_encode(order) == other.spec_encode(order),
        ensures
            self.name@ == other.name@,
            self.link == other.link,
            self.iph == other.iph,
    {
        self.lemma_size(order);
        other.lemma_size(order);
        self.lemma_layout(order);
        other.lemma_layout(order);
        lemma_name_field_injective(self.name_bytes(), other.name_bytes());
        encode_utf8_decode_utf8(self.name@);
        encode_utf8_decode_utf8(other.name@);
        lemma_span_values();
        lemma_bytes_injective(order, self.link as nat, other.link as nat, LINK_SIZE as nat);
        self.iph.lemma_injective(other.iph);
    }

    /// A block for a 6in4 tunnel and a block for a 4in6 tunnel are never the
    /// same bytes, whatever they name and wherever they point: the first has 52
    /// bytes and the second 64.
    pub proof fn lemma_kinds_differ(
        sit: TunnelDescriptor,
        ipip6: TunnelDescriptor,
        sit_order: ByteOrder,
        ipip6_order: ByteOrder,
    )
        requires
            sit.fits(),
            ipip6.fits(),
            sit.iph is V4,
            ipip6.iph is V6,
        ensures
            sit.spec_encode(sit_order).len() == PARM4_SIZE,
            ipip6.spec_encode(ipip6_order).len() == PARM6_SIZE,
            sit.spec_encode(sit_order) != ipip6.spec_encode(ipip6_order),
    {
        sit.lemma_size(sit_order);
        ipip6.lemma_size(ipip6_order);
    }

    /// The block that asks for a 6in4 tunnel `name` on the master of index
    /// `link`, from `laddr` to `raddr`.
    pub fn sit(name: String, link: u32, laddr: u32, raddr: u32) -> (block: Self)
        ensures
            block == (TunnelDescriptor {
                name,
                link,
                iph: InnerHeader::V4(IpHdr4::spec_tunnel(laddr, raddr)),
            }),
    {
        TunnelDescriptor { name, link, iph: InnerHeader::V4(IpHdr4::tunnel(laddr, raddr)) }
    }

    /// The block that asks for a 4in6 tunnel `name` on the master of index
    /// `link`, from `laddr` to `raddr`.
    pub fn ipip6(name: String, link: u32, laddr: u128, raddr: u128) -> (block: Self)
        ensures
            block == (TunnelDescriptor {
                name,
                link,
                iph: InnerHeader::V6(IpHdr6 { saddr: laddr, daddr: raddr }),
            }),
    {
        TunnelDescriptor { name, link, iph: InnerHeader::V6(IpHdr6 { saddr: laddr, daddr: raddr }) }
    }

    /// The block that names a tunnel and says nothing else: what a deletion
    /// sends. It has the IPv4 shape whatever the kind of the tunnel.
    pub fn delete_only(name: String) -> (block: Self)
        ensures
            block == (TunnelDescriptor {
                name,
                link: 0,
                iph: InnerHeader::V4(IpHdr4::spec_zeroed()),
            }),
    {
        TunnelDescriptor { name, link: 0, iph: InnerHeader::V4(IpHdr4::zeroed()) }
    }

    /// The bytes of the block that only names a tunnel: the name field, and
    /// zero in every byte after it.
    pub open spec fn spec_delete_bytes(name: Seq<u8>) -> Seq<u8>
        recommends
            name_fits(name),
    {
        name_field(name) + zeros((PARM4_SIZE - NAME_SIZE) as nat)
    }

    /// A block with no master and a zero header is the name field followed by
    /// zeros, on a host of either byte order.
    pub proof fn lemma_delete_only(self, order: ByteOrder)
        requires
            self.link == 0,
            self.iph == InnerHeader::V4(IpHdr4::spec_zeroed()),
        ensures
            self.spec_encode(order) == Self::spec_delete_bytes(self.name_bytes()),
    {
        lemma_zero_bytes(4);
        lemma_zero_bytes(2);
    }

    /// Writes the block for a host of the given byte order. The name must leave
    /// room for its terminator: a name of sixteen bytes or more is refused.
    pub fn encode(&self, order: ByteOrder) -> (result: Result<Vec<u8>, Error>)
        ensures
            result is Ok <==> self.fits(),
            result matches Ok(buffer) ==> buffer@ == self.spec_encode(order),
            result matches Err(error) ==> error == Error::NameTooLong,
    {
        let mut buffer = encode_name(self.name.as_str())?;
        push_ordered(&mut buffer, order, self.link as u128, LINK_SIZE);
        push_zeros(&mut buffer, FLAGS_SIZE);
        self.iph.encode(&mut buffer);
        Ok(buffer)
    }
}

} // verus!
