//! Polymorphic IPv4/IPv6 packet view and mutable packet builder.
//!
//! Only the source address, the destination address and the next-level
//! protocol field are read or written; every other header field is left to
//! the caller. The two families share one interface: the field offsets
//! differ per variant, the meaning does not.

use vstd::prelude::*;

use crate::bytes::{copy_range, overwrite, push_range, push_zeros, write_at};

verus! {

/// A network-layer address; the family tag decides how many octets it holds.
pub enum IpAddress {
    V4(Vec<u8>),
    V6(Vec<u8>),
}

impl IpAddress {
    /// The address octets, 4 for v4 and 16 for v6 when well formed.
    pub open spec fn octets(&self) -> Seq<u8> {
        match self {
            IpAddress::V4(o) => o@,
            IpAddress::V6(o) => o@,
        }
    }

    pub open spec fn spec_is_v6(&self) -> bool {
        self is V6
    }

    /// A v4 address carries 4 octets, a v6 address 16.
    pub open spec fn wf(&self) -> bool {
        self.octets().len() == if self.spec_is_v6() {
            16int
        } else {
            4int
        }
    }

    pub fn v4(a: u8, b: u8, c: u8, d: u8) -> (r: IpAddress)
        ensures
            r.wf(),
            !r.spec_is_v6(),
            r.octets() == seq![a, b, c, d],
    {
        let mut o: Vec<u8> = Vec::new();
        o.push(a);
        o.push(b);
        o.push(c);
        o.push(d);
        proof {
            assert(o@ =~= seq![a, b, c, d]);
        }
        IpAddress::V4(o)
    }

    pub fn v6(octets: Vec<u8>) -> (r: IpAddress)
        requires
            octets@.len() == 16,
        ensures
            r.wf(),
            r.spec_is_v6(),
            r.octets() == octets@,
    {
        IpAddress::V6(octets)
    }

    /// Borrows the octets behind the family tag.
    pub fn octets_ref(&self) -> (r: &Vec<u8>)
        ensures
            r@ == self.octets(),
    {
        match self {
            IpAddress::V4(o) => o,
            IpAddress::V6(o) => o,
        }
    }

    pub fn is_v6(&self) -> (r: bool)
        ensures
            r == self.spec_is_v6(),
    {
        match self {
            IpAddress::V4(_) => false,
            IpAddress::V6(_) => true,
        }
    }
}

/// True when the address family agrees with the packet family a caller is
/// about to mutate; the tunnel treats a mismatch as a caller bug and stops.
pub fn family_matches(ip: &IpAddress, is_v6: bool) -> (r: bool)
    ensures
        r == (ip.spec_is_v6() == is_v6),
{
    ip.is_v6() == is_v6
}

/// Minimum header size of the family: 20 bytes for v4, the fixed 40 for v6.
pub open spec fn spec_header_min(is_v6: bool) -> int {
    if is_v6 {
        40int
    } else {
        20int
    }
}

pub fn header_min(is_v6: bool) -> (r: usize)
    ensures
        r == spec_header_min(is_v6),
{
    if is_v6 {
        40
    } else {
        20
    }
}

/// The v4 header length the packet declares: four bytes per word of the
/// low nibble of the first byte, never less than the 20-byte minimum.
pub open spec fn v4_header_len(data: Seq<u8>) -> int {
    let declared = 4 * ((data[0] & 0x0f) as int);
    if declared >= 20 {
        declared
    } else {
        20
    }
}

/// A buffer parses as v4 when it is at least minimum-header sized, declares
/// version 4, and is long enough for the header it declares.
pub open spec fn parses_as_v4(data: Seq<u8>) -> bool {
    &&& data.len() >= 20
    &&& data[0] >> 4 == 4
    &&& (data[0] & 0x0f) >= 5
    &&& data.len() >= 4 * ((data[0] & 0x0f) as int)
}

/// A buffer parses as v6 when it holds the fixed header and declares
/// version 6.
pub open spec fn parses_as_v6(data: Seq<u8>) -> bool {
    &&& data.len() >= 40
    &&& data[0] >> 4 == 6
}

/// Offset of the source address field.
pub open spec fn source_offset(is_v6: bool) -> int {
    if is_v6 {
        8int
    } else {
        12int
    }
}

/// Offset of the destination address field.
pub open spec fn dest_offset(is_v6: bool) -> int {
    if is_v6 {
        24int
    } else {
        16int
    }
}

/// Octets per address of the family.
pub open spec fn addr_len(is_v6: bool) -> int {
    if is_v6 {
        16int
    } else {
        4int
    }
}

pub open spec fn source_octets(data: Seq<u8>, is_v6: bool) -> Seq<u8> {
    data.subrange(source_offset(is_v6), source_offset(is_v6) + addr_len(is_v6))
}

pub open spec fn dest_octets(data: Seq<u8>, is_v6: bool) -> Seq<u8> {
    data.subrange(dest_offset(is_v6), dest_offset(is_v6) + addr_len(is_v6))
}

/// The transport protocol number: the v4 protocol byte or the v6 next
/// header byte, one semantic field at two wire offsets.
pub open spec fn next_protocol(data: Seq<u8>, is_v6: bool) -> u8 {
    if is_v6 {
        data[6]
    } else {
        data[9]
    }
}

/// The header-stripped payload.
pub open spec fn packet_payload(data: Seq<u8>, is_v6: bool) -> Seq<u8> {
    if is_v6 {
        data.subrange(40, data.len() as int)
    } else {
        data.subrange(v4_header_len(data), data.len() as int)
    }
}

/// The buffer a fresh builder starts from: a zeroed minimum header followed
/// by the payload.
pub open spec fn built_packet(payload: Seq<u8>, is_v6: bool) -> Seq<u8> {
    Seq::new(spec_header_min(is_v6) as nat, |i: int| 0u8) + payload
}

/// Read-only polymorphic view over a raw network-layer packet.
pub enum IpPacket {
    V4 { data: Vec<u8> },
    V6 { data: Vec<u8> },
}

impl IpPacket {
    pub open spec fn spec_data(&self) -> Seq<u8> {
        match self {
            IpPacket::V4 { data } => data@,
            IpPacket::V6 { data } => data@,
        }
    }

    pub open spec fn spec_is_v6(&self) -> bool {
        self is V6
    }

    /// The buffer covers the family's minimum header and the header it
    /// declares.
    pub open spec fn wf(&self) -> bool {
        &&& self.spec_data().len() >= spec_header_min(self.spec_is_v6())
        &&& !self.spec_is_v6() ==> v4_header_len(self.spec_data()) <= self.spec_data().len()
    }

    /// Parses a raw buffer, trying v4 first, then v6; an unrecognized or
    /// undersized buffer yields nothing and the caller decides the drop.
    pub fn new(data: Vec<u8>) -> (r: Option<IpPacket>)
        ensures
            r is Some <==> parses_as_v4(data@) || parses_as_v6(data@),
            r matches Some(p) ==> p.wf() && p.spec_data() == data@ && p.spec_is_v6()
                == parses_as_v6(data@),
    {
        if data.len() < 20 {
            return None;
        }
        let b0 = data[0];
        proof {
            assert((b0 & 0x0f) <= 15) by (bit_vector);
        }
        if (b0 >> 4) == 4 {
            let ihl = (b0 & 0x0f) as usize;
            if ihl >= 5 && data.len() >= 4 * ihl {
                return Some(IpPacket::V4 { data });
            }
            return None;
        }
        if (b0 >> 4) == 6 && data.len() >= 40 {
            return Some(IpPacket::V6 { data });
        }
        None
    }

    /// The whole raw buffer.
    pub fn packet(&self) -> (r: &[u8])
        ensures
            r@ == self.spec_data(),
    {
        match self {
            IpPacket::V4 { data } => data.as_slice(),
            IpPacket::V6 { data } => data.as_slice(),
        }
    }

    /// A copy of the bytes after the header.
    pub fn payload(&self) -> (r: Vec<u8>)
        requires
            self.wf(),
        ensures
            r@ == packet_payload(self.spec_data(), self.spec_is_v6()),
    {
        match self {
            IpPacket::V4 { data } => {
                let b0 = data[0];
                proof {
                    assert((b0 & 0x0f) <= 15) by (bit_vector);
                }
                let declared = 4 * ((b0 & 0x0f) as usize);
                let start = if declared >= 20 {
                    declared
                } else {
                    20
                };
                copy_range(data, start, data.len())
            },
            IpPacket::V6 { data } => copy_range(data, 40, data.len()),
        }
    }

    /// The source address, in the family of the packet.
    pub fn get_source(&self) -> (r: IpAddress)
        requires
            self.wf(),
        ensures
            r.wf(),
            r.spec_is_v6() == self.spec_is_v6(),
            r.octets() == source_octets(self.spec_data(), self.spec_is_v6()),
    {
        match self {
            IpPacket::V4 { data } => {
                let r = IpAddress::v4(data[12], data[13], data[14], data[15]);
                proof {
                    assert(r.octets() =~= source_octets(data@, false));
                }
                r
            },
            IpPacket::V6 { data } => IpAddress::v6(copy_range(data, 8, 24)),
        }
    }

    /// The destination address, in the family of the packet.
    pub fn get_destination(&self) -> (r: IpAddress)
        requires
            self.wf(),
        ensures
            r.wf(),
            r.spec_is_v6() == self.spec_is_v6(),
            r.octets() == dest_octets(self.spec_data(), self.spec_is_v6()),
    {
        match self {
            IpPacket::V4 { data } => {
                let r = IpAddress::v4(data[16], data[17], data[18], data[19]);
                proof {
                    assert(r.octets() =~= dest_octets(data@, false));
                }
                r
            },
            IpPacket::V6 { data } => IpAddress::v6(copy_range(data, 24, 40)),
        }
    }

    /// The transport protocol number the header carries.
    pub fn get_next_level_protocol(&self) -> (r: u8)
        requires
            self.wf(),
        ensures
            r == next_protocol(self.spec_data(), self.spec_is_v6()),
    {
        match self {
            IpPacket::V4 { data } => data[9],
            IpPacket::V6 { data } => data[6],
        }
    }
}

/// Owned, mutable packet under construction: a zeroed minimum header plus a
/// payload, whose length never changes once built.
pub enum MutableIpPacket {
    V4 { data: Vec<u8> },
    V6 { data: Vec<u8> },
}

impl MutableIpPacket {
    pub open spec fn spec_data(&self) -> Seq<u8> {
        match self {
            MutableIpPacket::V4 { data } => data@,
            MutableIpPacket::V6 { data } => data@,
        }
    }

    pub open spec fn spec_is_v6(&self) -> bool {
        self is V6
    }

    pub open spec fn wf(&self) -> bool {
        &&& self.spec_data().len() >= spec_header_min(self.spec_is_v6())
        &&& !self.spec_is_v6() ==> v4_header_len(self.spec_data()) <= self.spec_data().len()
    }

    /// Allocates a zero-filled buffer of exactly the family's minimum header
    /// size plus the payload's length and writes the payload after the
    /// header. Allocation failure aborts; a builder always comes back.
    pub fn new(data: &Vec<u8>, is_v6: bool) -> (r: Option<MutableIpPacket>)
        requires
            data@.len() + 40 <= usize::MAX,
        ensures
            r matches Some(p) ==> p.wf() && p.spec_is_v6() == is_v6 && p.spec_data()
                == built_packet(data@, is_v6),
            r is Some,
    {
        let hdr = header_min(is_v6);
        let mut buf: Vec<u8> = Vec::new();
        push_zeros(&mut buf, hdr);
        push_range(&mut buf, data, 0, data.len());
        proof {
            assert(data@.subrange(0, data@.len() as int) =~= data@);
            assert(buf@ =~= built_packet(data@, is_v6));
            assert((0u8 & 0x0f) == 0) by (bit_vector);
            assert(buf@[0] == 0u8);
        }
        if is_v6 {
            Some(MutableIpPacket::V6 { data: buf })
        } else {
            Some(MutableIpPacket::V4 { data: buf })
        }
    }

    /// Writes the source address field; the address family must match the
    /// builder's family — a mismatch is a caller bug, not an input.
    pub fn set_source(&mut self, ip: IpAddress)
        requires
            old(self).wf(),
            ip.wf(),
            ip.spec_is_v6() == old(self).spec_is_v6(),
        ensures
            final(self).wf(),
            final(self).spec_is_v6() == old(self).spec_is_v6(),
            final(self).spec_data() == overwrite(
                old(self).spec_data(),
                source_offset(old(self).spec_is_v6()),
                ip.octets(),
            ),
    {
        match self {
            MutableIpPacket::V4 { data } => {
                write_at(data, 12, ip.octets_ref());
                proof {
                    assert(data@[0] == old(self).spec_data()[0]);
                }
            },
            MutableIpPacket::V6 { data } => {
                write_at(data, 8, ip.octets_ref());
            },
        }
    }

    /// Writes the destination address field; same family rule as
    /// `set_source`.
    pub fn set_destination(&mut self, ip: IpAddress)
        requires
            old(self).wf(),
            ip.wf(),
            ip.spec_is_v6() == old(self).spec_is_v6(),
        ensures
            final(self).wf(),
            final(self).spec_is_v6() == old(self).spec_is_v6(),
            final(self).spec_data() == overwrite(
                old(self).spec_data(),
                dest_offset(old(self).spec_is_v6()),
                ip.octets(),
            ),
    {
        match self {
            MutableIpPacket::V4 { data } => {
                write_at(data, 16, ip.octets_ref());
                proof {
                    assert(data@[0] == old(self).spec_data()[0]);
                }
            },
            MutableIpPacket::V6 { data } => {
                write_at(data, 24, ip.octets_ref());
            },
        }
    }

    /// Overwrites the payload region; the payload must be exactly the length
    /// the builder was created with, since the buffer never resizes.
    pub fn set_payload(&mut self, payload: &Vec<u8>)
        requires
            old(self).wf(),
            spec_header_min(old(self).spec_is_v6()) + payload@.len() == old(
                self,
            ).spec_data().len(),
        ensures
            final(self).wf(),
            final(self).spec_is_v6() == old(self).spec_is_v6(),
            final(self).spec_data() == overwrite(
                old(self).spec_data(),
                spec_header_min(old(self).spec_is_v6()),
                payload@,
            ),
    {
        match self {
            MutableIpPacket::V4 { data } => {
                write_at(data, 20, payload);
                proof {
                    assert(data@[0] == old(self).spec_data()[0]);
                }
            },
            MutableIpPacket::V6 { data } => {
                write_at(data, 40, payload);
            },
        }
    }

    /// Consumes the builder and yields the immutable view over the same
    /// bytes.
    pub fn into_immutable(self) -> (r: IpPacket)
        requires
            self.wf(),
        ensures
            r.wf(),
            r.spec_is_v6() == self.spec_is_v6(),
            r.spec_data() == self.spec_data(),
    {
        match self {
            MutableIpPacket::V4 { data } => IpPacket::V4 { data },
            MutableIpPacket::V6 { data } => IpPacket::V6 { data },
        }
    }
}

/// A fresh builder's buffer is exactly minimum header plus payload long, and
/// stripping the header of the finished packet gives the payload back
/// unchanged.
pub proof fn lemma_built_packet_payload(payload: Seq<u8>, is_v6: bool)
    ensures
        built_packet(payload, is_v6).len() == spec_header_min(is_v6) + payload.len(),
        packet_payload(built_packet(payload, is_v6), is_v6) == payload,
{
    let d = built_packet(payload, is_v6);
    if !is_v6 {
        assert(d[0] == 0u8);
        assert((0u8 & 0x0f) == 0) by (bit_vector);
    }
    assert(packet_payload(d, is_v6) =~= payload);
}

/// Writing a source and then a destination address into any buffer that
/// covers the header leaves exactly those octets in the two fields, at the
/// same length; reading them back through a view returns them unchanged.
pub proof fn lemma_address_roundtrip(data: Seq<u8>, src: Seq<u8>, dst: Seq<u8>, is_v6: bool)
    requires
        data.len() >= spec_header_min(is_v6),
        src.len() == addr_len(is_v6),
        dst.len() == addr_len(is_v6),
    ensures
        ({
            let d2 = overwrite(
                overwrite(data, source_offset(is_v6), src),
                dest_offset(is_v6),
                dst,
            );
            &&& d2.len() == data.len()
            &&& source_octets(d2, is_v6) == src
            &&& dest_octets(d2, is_v6) == dst
        }),
{
    let d1 = overwrite(data, source_offset(is_v6), src);
    let d2 = overwrite(d1, dest_offset(is_v6), dst);
    assert(source_octets(d2, is_v6) =~= src);
    assert(dest_octets(d2, is_v6) =~= dst);
}

} // verus!
