//! Layout of the Ethernet, IPv4 and TCP headers that the classifier reads, as functions on
//! the bytes of a packet, and the bounds check that guards every header read.
use vstd::prelude::*;

use network_types::eth::{EthHdr, EtherType};
use network_types::ip::{IpProto, Ipv4Hdr};
use network_types::tcp::TcpHdr;

verus! {

// ---------------------------------------------------------------------------------------------
// Values that come from `network_types` and `aya_ebpf`.
// ---------------------------------------------------------------------------------------------

/// Calls `network_types::eth::EthHdr::LEN`, the size of the packed Ethernet header struct
/// (two 6-byte MAC addresses and a 2-byte EtherType): 14 bytes.
#[verifier::external_body]
pub(crate) fn eth_hdr_len() -> (n: usize)
    ensures
        n == eth_len(),
{
    EthHdr::LEN
}

/// Calls `network_types::ip::Ipv4Hdr::LEN`, the size of the `repr(C)` IPv4 header struct
/// without options: 20 bytes.
#[verifier::external_body]
pub(crate) fn ipv4_hdr_len() -> (n: usize)
    ensures
        n == ipv4_len(),
{
    Ipv4Hdr::LEN
}

/// Calls `network_types::tcp::TcpHdr::LEN`, the size of the `repr(C)` TCP header struct
/// without options: 20 bytes.
#[verifier::external_body]
pub(crate) fn tcp_hdr_len() -> (n: usize)
    ensures
        n == tcp_len(),
{
    TcpHdr::LEN
}

/// The two bytes that `network_types::eth::EtherType::Ipv4` occupies in the frame:
/// the discriminant is `0x0800_u16.to_be()`, so in memory it reads 0x08 then 0x00 on every
/// target.
#[verifier::external_body]
pub(crate) fn ether_type_ipv4_bytes() -> (b: (u8, u8))
    ensures
        b.0 == 0x08,
        b.1 == 0x00,
{
    let bytes = (EtherType::Ipv4 as u16).to_ne_bytes();
    (bytes[0], bytes[1])
}

/// The discriminant of `network_types::ip::IpProto::Tcp`, the protocol number of TCP: 6.
#[verifier::external_body]
pub(crate) fn ip_proto_tcp() -> (p: u8)
    ensures
        p == tcp_proto(),
{
    IpProto::Tcp as u8
}

/// Reads `aya_ebpf::bindings::TC_ACT_PIPE`, the traffic-control action that hands the packet
/// on to the next action unchanged: 3.
#[verifier::external_body]
pub(crate) fn tc_act_pipe() -> (a: i32)
    ensures
        a == pipe_action(),
{
    aya_ebpf::bindings::TC_ACT_PIPE
}

// ---------------------------------------------------------------------------------------------
// The header layout, in the model.
// ---------------------------------------------------------------------------------------------

/// Size of the Ethernet header.
pub open spec fn eth_len() -> int {
    14
}

/// Size of the IPv4 header without options.
pub open spec fn ipv4_len() -> int {
    20
}

/// Size of the TCP header without options.
pub open spec fn tcp_len() -> int {
    20
}

/// IP protocol number of TCP.
pub open spec fn tcp_proto() -> u8 {
    6
}

/// The traffic-control action "pass the packet on".
pub open spec fn pipe_action() -> i32 {
    3
}

/// Big-endian 16-bit value at `i`.
pub open spec fn be16(p: Seq<u8>, i: int) -> u16 {
    (p[i] * 0x100 + p[i + 1]) as u16
}

/// Big-endian 32-bit value at `i`.
pub open spec fn be32(p: Seq<u8>, i: int) -> u32 {
    (p[i] * 0x1000000 + p[i + 1] * 0x10000 + p[i + 2] * 0x100 + p[i + 3]) as u32
}

/// Bit `bit` of `b`, as 0 or 1.
pub open spec fn bit_of(b: u8, bit: u8) -> u16 {
    ((b >> bit) & 1u8) as u16
}

/// Each TCP flag as `bit_of` reads it is 0 or 1, and 1 exactly when its mask is set in the
/// flags byte.
pub proof fn lemma_flag_bits(b: u8)
    ensures
        bit_of(b, 0) <= 1 && (bit_of(b, 0) == 1 <==> b & 0x01u8 == 0x01u8),
        bit_of(b, 1) <= 1 && (bit_of(b, 1) == 1 <==> b & 0x02u8 == 0x02u8),
        bit_of(b, 2) <= 1 && (bit_of(b, 2) == 1 <==> b & 0x04u8 == 0x04u8),
        bit_of(b, 4) <= 1 && (bit_of(b, 4) == 1 <==> b & 0x10u8 == 0x10u8),
{
    assert(((b >> 0u8) & 1u8) <= 1u8 && (((b >> 0u8) & 1u8) == 1u8 <==> b & 0x01u8 == 0x01u8))
        by (bit_vector);
    assert(((b >> 1u8) & 1u8) <= 1u8 && (((b >> 1u8) & 1u8) == 1u8 <==> b & 0x02u8 == 0x02u8))
        by (bit_vector);
    assert(((b >> 2u8) & 1u8) <= 1u8 && (((b >> 2u8) & 1u8) == 1u8 <==> b & 0x04u8 == 0x04u8))
        by (bit_vector);
    assert(((b >> 4u8) & 1u8) <= 1u8 && (((b >> 4u8) & 1u8) == 1u8 <==> b & 0x10u8 == 0x10u8))
        by (bit_vector);
}

/// The header length nibble as the masked byte reads it is the byte modulo 16.
pub proof fn lemma_low_nibble(b: u8)
    ensures
        b & 0x0fu8 == b % 16,
{
    assert(b & 0x0fu8 == b % 16) by (bit_vector);
}

/// The EtherType field of the Ethernet header announces IPv4.
pub open spec fn is_ipv4_frame(p: Seq<u8>) -> bool {
    p[12] == 0x08 && p[13] == 0x00
}

/// What the classifier keeps of an IPv4 header.
#[derive(PartialEq, Eq, Structural, Clone, Copy, Debug)]
pub struct Ipv4Summary {
    /// The protocol of the payload.
    pub proto: u8,
    /// The header length field (IHL), in 32-bit words.
    pub ihl: u8,
    /// The source address, as the number whose big-endian bytes are the address.
    pub src_addr: u32,
    /// The destination address, as the number whose big-endian bytes are the address.
    pub dst_addr: u32,
}

/// What the classifier keeps of a TCP header.
#[derive(PartialEq, Eq, Structural, Clone, Copy, Debug)]
pub struct TcpSummary {
    pub src_port: u16,
    pub dst_port: u16,
    pub syn: u16,
    pub ack: u16,
    pub fin: u16,
    pub rst: u16,
}

/// The IPv4 header that follows the Ethernet header of `p`.
pub open spec fn ipv4_summary(p: Seq<u8>) -> Ipv4Summary {
    Ipv4Summary {
        proto: p[eth_len() + 9],
        ihl: p[eth_len()] & 0x0fu8,
        src_addr: be32(p, eth_len() + 12),
        dst_addr: be32(p, eth_len() + 16),
    }
}

/// The TCP header at offset `off` of `p`.
pub open spec fn tcp_summary(p: Seq<u8>, off: int) -> TcpSummary {
    TcpSummary {
        src_port: be16(p, off),
        dst_port: be16(p, off + 2),
        fin: bit_of(p[off + 13], 0),
        syn: bit_of(p[off + 13], 1),
        rst: bit_of(p[off + 13], 2),
        ack: bit_of(p[off + 13], 4),
    }
}

impl Ipv4Summary {
    /// The header length field lies in 5..=15 words (20 to 60 bytes).
    pub open spec fn has_valid_ihl(self) -> bool {
        5 <= self.ihl <= 15
    }

    /// Offset of the header that follows this IPv4 header.
    pub open spec fn payload_offset(self) -> int {
        eth_len() + self.ihl * 4
    }

    /// Offset just past the TCP header (without options) that follows this IPv4 header.
    pub open spec fn tcp_end(self) -> int {
        self.payload_offset() + tcp_len()
    }
}

// ---------------------------------------------------------------------------------------------
// Reading the headers.
// ---------------------------------------------------------------------------------------------

/// Bounds check for a header of `size` bytes at `offset` in the packet data that runs from
/// address `data` to `data_end`: the header's start address, or `None` where it would run past
/// the end.
pub fn ptr_at(data: usize, data_end: usize, offset: usize, size: usize) -> (res: Option<usize>)
    requires
        data + offset + size <= usize::MAX,
    ensures
        res == if data + offset + size > data_end {
            None::<usize>
        } else {
            Some((data + offset) as usize)
        },
{
    let start = data + offset;
    if start + size > data_end {
        return None;
    }
    Some(start)
}

/// Whether `packet` holds `size` bytes at `offset`.
pub(crate) fn holds(packet: &[u8], offset: usize, size: usize) -> (res: bool)
    requires
        offset + size <= usize::MAX,
    ensures
        res == (offset + size <= packet@.len()),
{
    ptr_at(0, packet.len(), offset, size).is_some()
}

/// Big-endian 16-bit value at `i`.
pub(crate) fn read_be16(packet: &[u8], i: usize) -> (v: u16)
    requires
        i + 2 <= packet@.len(),
    ensures
        v == be16(packet@, i as int),
{
    (packet[i] as u16) * 0x100 + (packet[i + 1] as u16)
}

/// Big-endian 32-bit value at `i`.
pub(crate) fn read_be32(packet: &[u8], i: usize) -> (v: u32)
    requires
        i + 4 <= packet@.len(),
    ensures
        v == be32(packet@, i as int),
{
    (packet[i] as u32) * 0x1000000 + (packet[i + 1] as u32) * 0x10000 + (packet[i + 2] as u32)
        * 0x100 + (packet[i + 3] as u32)
}

/// Whether the Ethernet header of `packet` announces IPv4.
pub(crate) fn read_is_ipv4_frame(packet: &[u8]) -> (res: bool)
    requires
        eth_len() <= packet@.len(),
    ensures
        res == is_ipv4_frame(packet@),
{
    let (b0, b1) = ether_type_ipv4_bytes();
    packet[12] == b0 && packet[13] == b1
}

/// The IPv4 header that follows the Ethernet header of `packet`.
pub fn read_ipv4_summary(packet: &[u8]) -> (ip: Ipv4Summary)
    requires
        eth_len() + ipv4_len() <= packet@.len(),
    ensures
        ip == ipv4_summary(packet@),
{
    let base = eth_hdr_len();
    Ipv4Summary {
        proto: packet[base + 9],
        ihl: packet[base] & 0x0f,
        src_addr: read_be32(packet, base + 12),
        dst_addr: read_be32(packet, base + 16),
    }
}

/// The TCP header at offset `off` of `packet`.
pub fn read_tcp_summary(packet: &[u8], off: usize) -> (tcp: TcpSummary)
    requires
        off + tcp_len() <= packet@.len(),
    ensures
        tcp == tcp_summary(packet@, off as int),
        tcp.src_port == packet@[off as int] * 256 + packet@[off + 1],
        tcp.dst_port == packet@[off + 2] * 256 + packet@[off + 3],
        tcp.fin <= 1 && (tcp.fin == 1 <==> packet@[off + 13] & 0x01u8 == 0x01u8),
        tcp.syn <= 1 && (tcp.syn == 1 <==> packet@[off + 13] & 0x02u8 == 0x02u8),
        tcp.rst <= 1 && (tcp.rst == 1 <==> packet@[off + 13] & 0x04u8 == 0x04u8),
        tcp.ack <= 1 && (tcp.ack == 1 <==> packet@[off + 13] & 0x10u8 == 0x10u8),
{
    proof {
        lemma_flag_bits(packet@[off + 13]);
    }
    let len = packet.len();
    assert(off + 13 < len);
    let flags = packet[off + 13];
    TcpSummary {
        src_port: read_be16(packet, off),
        dst_port: read_be16(packet, off + 2),
        fin: ((flags >> 0u8) & 1u8) as u16,
        syn: ((flags >> 1u8) & 1u8) as u16,
        rst: ((flags >> 2u8) & 1u8) as u16,
        ack: ((flags >> 4u8) & 1u8) as u16,
    }
}

} // verus!
