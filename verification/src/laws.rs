//! Properties of the classifier as a whole.
use vstd::prelude::*;

use crate::classify::{
    spec_action, spec_classify, spec_is_ockam_proto, spec_resume_egress, Direction, Step,
    Verdict,
};
use crate::headers::{
    eth_len, ipv4_len, ipv4_summary, is_ipv4_frame, lemma_flag_bits, lemma_low_nibble,
    pipe_action, tcp_proto, tcp_summary, Ipv4Summary, TcpSummary,
};

verus! {

/// The classifier never drops or alters a packet: whatever it concluded, its answer is
/// `TC_ACT_PIPE`, as `Ok` or as `Err`.
pub proof fn law_always_pipe(v: Verdict)
    ensures
        spec_action(v) == Ok::<i32, i32>(pipe_action()) || spec_action(v) == Err::<i32, i32>(
            pipe_action(),
        ),
{
}

/// On ingress the classifier never asks for a pull and never answers with an error.
pub proof fn law_ingress_never_fails(p: Seq<u8>)
    ensures
        spec_classify(p, Direction::Ingress) is Done,
        spec_action(spec_classify(p, Direction::Ingress)->Done_0) is Ok,
{
}

/// A frame that does not announce IPv4 is passed on without being looked at further, in
/// both directions.
pub proof fn law_only_ipv4_examined(p: Seq<u8>, direction: Direction)
    requires
        p.len() >= eth_len(),
        !is_ipv4_frame(p),
    ensures
        spec_classify(p, direction) == Step::Done(Verdict::NotIpv4),
{
}

/// TCP is never taken for an Ockam protocol, so the ingress path (TCP packets) and the egress
/// path (Ockam packets) never see each other's packets: an egress TCP packet and an ingress
/// Ockam packet are ignored.
pub proof fn law_paths_disjoint(p: Seq<u8>)
    requires
        p.len() >= eth_len() + ipv4_len(),
        is_ipv4_frame(p),
    ensures
        !spec_is_ockam_proto(tcp_proto()),
        ipv4_summary(p).proto == tcp_proto() ==> spec_classify(p, Direction::Egress)
            == Step::Done(Verdict::Ignored),
        spec_is_ockam_proto(ipv4_summary(p).proto) ==> spec_classify(p, Direction::Ingress)
            == Step::Done(Verdict::Ignored),
{
}

/// A pull is asked for only where the TCP header is not yet in the packet's linear part, and
/// it asks for exactly the bytes up to the end of the TCP header: once the pull has made that
/// many bytes linear, resuming reads the TCP header.
pub proof fn law_pull_suffices(p: Seq<u8>, n: u32, ip: Ipv4Summary, after: Seq<u8>)
    requires
        spec_classify(p, Direction::Egress) == Step::Pull(n, ip),
        after.len() >= n,
    ensures
        ip == ipv4_summary(p),
        n == ip.tcp_end(),
        p.len() < n,
        spec_resume_egress(after, ip, Ok(())) == Verdict::OckamPacket(
            ip,
            tcp_summary(after, ip.payload_offset()),
        ),
{
}

/// A failed pull is answered with an error, and the error code of the pull is kept.
pub proof fn law_failed_pull_is_error(p: Seq<u8>, ip: Ipv4Summary, e: i64)
    ensures
        spec_resume_egress(p, ip, Err(e)) == Verdict::PullFailed(e),
        spec_action(spec_resume_egress(p, ip, Err(e))) == Err::<i32, i32>(pipe_action()),
{
}

/// The classifier reads only the headers: once a packet holds every header that its verdict
/// depends on, appending payload does not change the verdict.
pub proof fn law_payload_irrelevant(p: Seq<u8>, payload: Seq<u8>, direction: Direction)
    requires
        spec_classify(p, direction) matches Step::Done(v) && (v is NotIpv4
            || v is InvalidIpv4HeaderLength || v is TcpPacket || v is OckamPacket || v is Ignored),
    ensures
        spec_classify(p + payload, direction) == spec_classify(p, direction),
{
    let q = p + payload;
    assert(forall|i: int| 0 <= i < p.len() ==> q[i] == p[i]);
    if p.len() >= eth_len() + ipv4_len() {
        assert(ipv4_summary(q) == ipv4_summary(p));
        let ip = ipv4_summary(p);
        if p.len() >= ip.tcp_end() && ip.has_valid_ihl() {
            assert(tcp_summary(q, ip.payload_offset()) == tcp_summary(p, ip.payload_offset()));
        }
    }
}


// ---------------------------------------------------------------------------------------------
// The same behaviour, stated directly on the bytes of the packet.
// ---------------------------------------------------------------------------------------------

/// The frame's EtherType bytes are 0x08 0x00 (IPv4) and the packet holds the IPv4 header.
pub open spec fn ipv4_frame_bytes(p: Seq<u8>) -> bool {
    p.len() >= 34 && p[12] == 0x08 && p[13] == 0x00
}

/// `ip` and `t` hold what the packet's bytes say: the IPv4 header at byte 14 and the TCP
/// header right behind it, at byte 14 + 4 * IHL.
pub open spec fn holds_header_bytes(p: Seq<u8>, ip: Ipv4Summary, t: TcpSummary) -> bool {
    let o = 14 + 4 * (p[14] % 16);
    &&& ip.proto == p[23]
    &&& ip.ihl == p[14] % 16
    &&& ip.src_addr == p[26] * 0x1000000 + p[27] * 0x10000 + p[28] * 0x100 + p[29]
    &&& ip.dst_addr == p[30] * 0x1000000 + p[31] * 0x10000 + p[32] * 0x100 + p[33]
    &&& p.len() >= o + 20
    &&& t.src_port == p[o] * 256 + p[o + 1]
    &&& t.dst_port == p[o + 2] * 256 + p[o + 3]
    &&& t.fin <= 1 && (t.fin == 1 <==> p[o + 13] & 0x01u8 == 0x01u8)
    &&& t.syn <= 1 && (t.syn == 1 <==> p[o + 13] & 0x02u8 == 0x02u8)
    &&& t.rst <= 1 && (t.rst == 1 <==> p[o + 13] & 0x04u8 == 0x04u8)
    &&& t.ack <= 1 && (t.ack == 1 <==> p[o + 13] & 0x10u8 == 0x10u8)
}

/// A protocol number may be an Ockam protocol exactly when it lies in 146..=252: TCP (6),
/// UDP (17), ICMP (1) and every other number below 146 or above 252 are not.
pub proof fn law_ockam_protocol_range(proto: u8)
    ensures
        spec_is_ockam_proto(proto) <==> (146 <= proto && proto <= 252),
        proto < 146 ==> !spec_is_ockam_proto(proto),
        proto > 252 ==> !spec_is_ockam_proto(proto),
{
}

/// The answer is `Err(TC_ACT_PIPE)` exactly for a failed pull and for a TCP header that stayed
/// out of reach after the pull; every other verdict, whatever the packet's fields and flags,
/// is answered `Ok(TC_ACT_PIPE)`.
pub proof fn law_action_of_each_verdict(v: Verdict)
    ensures
        (v is PullFailed || v is TcpHeaderUnavailable) ==> spec_action(v) == Err::<i32, i32>(3),
        !(v is PullFailed || v is TcpHeaderUnavailable) ==> spec_action(v) == Ok::<i32, i32>(3),
{
}

/// Each TCP field read from a header at `off` is what the bytes at `off` hold: the ports are
/// big-endian, and each flag is 0 or 1, 1 exactly when its bit is set in byte `off + 13`
/// (FIN 0x01, SYN 0x02, RST 0x04, ACK 0x10), whatever the other bits.
pub proof fn law_tcp_fields(p: Seq<u8>, off: int)
    requires
        0 <= off,
        off + 20 <= p.len(),
    ensures
        tcp_summary(p, off).src_port == p[off] * 256 + p[off + 1],
        tcp_summary(p, off).dst_port == p[off + 2] * 256 + p[off + 3],
        tcp_summary(p, off).fin <= 1,
        tcp_summary(p, off).fin == 1 <==> p[off + 13] & 0x01u8 == 0x01u8,
        tcp_summary(p, off).syn <= 1,
        tcp_summary(p, off).syn == 1 <==> p[off + 13] & 0x02u8 == 0x02u8,
        tcp_summary(p, off).rst <= 1,
        tcp_summary(p, off).rst == 1 <==> p[off + 13] & 0x04u8 == 0x04u8,
        tcp_summary(p, off).ack <= 1,
        tcp_summary(p, off).ack == 1 <==> p[off + 13] & 0x10u8 == 0x10u8,
{
    lemma_flag_bits(p[off + 13]);
}

/// The checks that come before any protocol is looked at: a packet under 14 bytes is not
/// Ethernet, a frame whose EtherType bytes are not 0x08 0x00 is not IPv4, and an IPv4 frame
/// under 34 bytes has no complete IPv4 header; in both directions.
pub proof fn law_early_exits(p: Seq<u8>, direction: Direction)
    ensures
        p.len() < 14 ==> spec_classify(p, direction) == Step::Done(Verdict::NotEthernet),
        p.len() >= 14 && !(p[12] == 0x08 && p[13] == 0x00) ==> spec_classify(p, direction)
            == Step::Done(Verdict::NotIpv4),
        p.len() >= 14 && p.len() < 34 && p[12] == 0x08 && p[13] == 0x00 ==> spec_classify(
            p,
            direction,
        ) == Step::Done(Verdict::InvalidIpv4Header),
{
}

/// On ingress only TCP is examined: an IPv4 packet whose protocol byte is not 6 is ignored,
/// and a TCP verdict or a header-length complaint comes only from an IPv4 packet with
/// protocol 6. Ingress never yields an egress verdict or a pull.
pub proof fn law_ingress_examines_only_tcp(p: Seq<u8>)
    ensures
        ipv4_frame_bytes(p) && p[23] != 6 ==> spec_classify(p, Direction::Ingress) == Step::Done(
            Verdict::Ignored,
        ),
        spec_classify(p, Direction::Ingress) matches Step::Done(v) && (v is TcpPacket
            || v is InvalidTcpHeader || v is InvalidIpv4HeaderLength) ==> ipv4_frame_bytes(p)
            && p[23] == 6,
        spec_classify(p, Direction::Ingress) matches Step::Done(v) && !(v is OckamPacket
            || v is TcpHeaderUnavailable || v is PullFailed),
        ipv4_frame_bytes(p) && p[23] == 6 && !(5 <= p[14] % 16 && p[14] % 16 <= 15)
            ==> spec_classify(p, Direction::Ingress) == Step::Done(
            Verdict::InvalidIpv4HeaderLength,
        ),
        ipv4_frame_bytes(p) && p[23] == 6 && 5 <= p[14] % 16 <= 15 && p.len() < 14 + 4 * (p[14]
            % 16) + 20 ==> spec_classify(p, Direction::Ingress) == Step::Done(
            Verdict::InvalidTcpHeader,
        ),
        spec_classify(p, Direction::Ingress) matches Step::Done(Verdict::TcpPacket(ip, t))
            ==> holds_header_bytes(p, ip, t) && 5 <= ip.ihl <= 15,
        ipv4_frame_bytes(p) && p[23] == 6 && 5 <= p[14] % 16 <= 15 && p.len() >= 14 + 4 * (p[14]
            % 16) + 20 ==> spec_classify(p, Direction::Ingress) is Done && spec_classify(
            p,
            Direction::Ingress,
        )->Done_0 is TcpPacket,
{
    if p.len() >= 34 {
        lemma_low_nibble(p[14]);
        let o = 14 + 4 * (p[14] % 16);
        if p.len() >= o + 20 {
            lemma_flag_bits(p[o + 13]);
        }
    }
}

/// On egress only the Ockam protocols 146..=252 are examined: an IPv4 packet whose protocol
/// byte lies outside that range is ignored, and an Ockam verdict, a pull, a header-length
/// complaint or a missing TCP header comes only from an IPv4 packet with such a protocol.
/// Egress never yields an ingress verdict or a failed pull.
pub proof fn law_egress_examines_only_ockam_protocols(p: Seq<u8>)
    ensures
        ipv4_frame_bytes(p) && !(146 <= p[23] && p[23] <= 252) ==> spec_classify(
            p,
            Direction::Egress,
        ) == Step::Done(Verdict::Ignored),
        spec_classify(p, Direction::Egress) is Pull ==> ipv4_frame_bytes(p) && 146 <= p[23]
            <= 252,
        spec_classify(p, Direction::Egress) matches Step::Done(v) && (v is OckamPacket
            || v is InvalidIpv4HeaderLength || v is TcpHeaderUnavailable) ==> ipv4_frame_bytes(p)
            && 146 <= p[23] <= 252,
        !(spec_classify(p, Direction::Egress) matches Step::Done(v) && (v is TcpPacket
            || v is InvalidTcpHeader || v is PullFailed)),
        ipv4_frame_bytes(p) && 146 <= p[23] <= 252 && !(5 <= p[14] % 16 && p[14] % 16 <= 15)
            ==> spec_classify(p, Direction::Egress) == Step::Done(
            Verdict::InvalidIpv4HeaderLength,
        ),
        spec_classify(p, Direction::Egress) matches Step::Done(Verdict::OckamPacket(ip, t))
            ==> holds_header_bytes(p, ip, t) && 5 <= ip.ihl <= 15,
        ipv4_frame_bytes(p) && 146 <= p[23] <= 252 && 5 <= p[14] % 16 <= 15 && p.len() >= 14 + 4
            * (p[14] % 16) + 20 ==> spec_classify(p, Direction::Egress) is Done && spec_classify(
            p,
            Direction::Egress,
        )->Done_0 is OckamPacket,
        spec_classify(p, Direction::Egress) matches Step::Pull(n, ip) ==> {
            &&& n == 14 + 4 * (p[14] % 16) + 20
            &&& p.len() < n
            &&& ip.proto == p[23]
            &&& ip.ihl == p[14] % 16
            &&& 5 <= ip.ihl <= 15
            &&& ip.src_addr == p[26] * 0x1000000 + p[27] * 0x10000 + p[28] * 0x100 + p[29]
            &&& ip.dst_addr == p[30] * 0x1000000 + p[31] * 0x10000 + p[32] * 0x100 + p[33]
        },
{
    if p.len() >= 34 {
        lemma_low_nibble(p[14]);
        let o = 14 + 4 * (p[14] % 16);
        if p.len() >= o + 20 {
            lemma_flag_bits(p[o + 13]);
        }
    }
}

/// After a pull: a failed pull gives its error back; otherwise the packet as it is now must
/// hold the IPv4 header and then the TCP header at 14 + 4 * IHL of the header read before the
/// pull, and that TCP header is read from the packet's current bytes.
pub proof fn law_resume_after_pull(p: Seq<u8>, ip: Ipv4Summary, pulled: Result<(), i64>)
    ensures
        pulled matches Err(e) ==> spec_resume_egress(p, ip, pulled) == Verdict::PullFailed(e),
        pulled is Ok && p.len() < 34 ==> spec_resume_egress(p, ip, pulled)
            == Verdict::InvalidIpv4Header,
        pulled is Ok && p.len() >= 34 && p.len() < 14 + 4 * ip.ihl + 20 ==> spec_resume_egress(
            p,
            ip,
            pulled,
        ) == Verdict::TcpHeaderUnavailable,
        pulled is Ok && p.len() >= 34 && p.len() >= 14 + 4 * ip.ihl + 20 ==> {
            let o = 14 + 4 * ip.ihl;
            &&& spec_resume_egress(p, ip, pulled) matches Verdict::OckamPacket(ip2, t)
            &&& spec_resume_egress(p, ip, pulled)->OckamPacket_0 == ip
            &&& spec_resume_egress(p, ip, pulled)->OckamPacket_1.src_port == p[o] * 256 + p[o + 1]
            &&& spec_resume_egress(p, ip, pulled)->OckamPacket_1.dst_port == p[o + 2] * 256 + p[o
                + 3]
            &&& spec_resume_egress(p, ip, pulled)->OckamPacket_1.rst == 1 <==> p[o + 13] & 0x04u8
                == 0x04u8
            &&& spec_resume_egress(p, ip, pulled)->OckamPacket_1.ack == 1 <==> p[o + 13] & 0x10u8
                == 0x10u8
        },
{
    let o = 14 + 4 * ip.ihl;
    if p.len() >= o + 20 {
        lemma_flag_bits(p[o + 13]);
    }
}

} // verus!
