//! The classifier: what it decides for a packet seen on ingress or egress, and the answer it
//! gives the kernel.
//!
//! On egress the TCP header of an Ockam packet may lie outside the linear part of the packet;
//! the classifier then asks the caller to pull that many bytes into linear memory and resumes
//! with the packet as it is after the pull.
use vstd::prelude::*;

use crate::headers::{
    eth_hdr_len, eth_len, ip_proto_tcp, ipv4_hdr_len, ipv4_len, ipv4_summary, is_ipv4_frame,
    pipe_action, read_ipv4_summary, read_is_ipv4_frame, read_tcp_summary, tc_act_pipe,
    tcp_hdr_len, tcp_len, tcp_proto, tcp_summary, holds, Ipv4Summary, TcpSummary,
};

verus! {

/// Protocol number in the IPv4 header.
pub type Proto = u8;

/// TCP port.
pub type Port = u16;

/// The side of the network device the classifier is attached to.
#[derive(PartialEq, Eq, Structural, Clone, Copy, Debug)]
pub enum Direction {
    Ingress,
    Egress,
}

/// What the classifier concluded about a packet.
#[derive(PartialEq, Eq, Structural, Clone, Copy, Debug)]
pub enum Verdict {
    /// The packet is too short to hold an Ethernet header.
    NotEthernet,
    /// The Ethernet frame does not carry IPv4.
    NotIpv4,
    /// The frame announces IPv4 but is too short to hold the IPv4 header.
    InvalidIpv4Header,
    /// The IPv4 header length field lies outside 5..=15 words.
    InvalidIpv4HeaderLength,
    /// An ingress TCP packet too short to hold its TCP header.
    InvalidTcpHeader,
    /// An ingress TCP packet, read and passed on.
    TcpPacket(Ipv4Summary, TcpSummary),
    /// An egress packet of an Ockam protocol, read and passed on.
    OckamPacket(Ipv4Summary, TcpSummary),
    /// Pulling the headers into linear memory failed with this error.
    PullFailed(i64),
    /// After the pull the TCP header is still not in linear memory.
    TcpHeaderUnavailable,
    /// A packet of no interest in this direction.
    Ignored,
}

/// The next thing the classifier needs.
#[derive(PartialEq, Eq, Structural, Clone, Copy, Debug)]
pub enum Step {
    /// The classifier is done.
    Done(Verdict),
    /// The given number of leading bytes of the packet must be pulled into linear memory;
    /// then the classifier resumes with the IPv4 header that it read before the pull.
    Pull(u32, Ipv4Summary),
}

/// Protocol numbers 146 to 252 are free for custom protocols on top of IPv4; each Ockam node
/// with eBPF portals picks one of them at random. A number in this range does not prove that
/// a packet is an Ockam packet, but one outside it proves that it is not.
pub open spec fn spec_is_ockam_proto(proto: u8) -> bool {
    146 <= proto <= 252
}

/// Whether `proto` may be the protocol of an Ockam portal.
pub fn is_ockam_proto(proto: Proto) -> (res: bool)
    ensures
        res == spec_is_ockam_proto(proto),
        res == (146 <= proto && proto <= 252),
{
    proto >= 146 && proto <= 252
}

/// The return value of the classifier for a verdict. Every packet is passed on with
/// `TC_ACT_PIPE`; it comes as `Err` where the TCP header of an egress packet stayed out of
/// reach after the pull.
pub open spec fn spec_action(v: Verdict) -> Result<i32, i32> {
    match v {
        Verdict::PullFailed(_) => Err(pipe_action()),
        Verdict::TcpHeaderUnavailable => Err(pipe_action()),
        _ => Ok(pipe_action()),
    }
}

impl Verdict {
    /// The answer to the kernel for this verdict.
    pub fn action(&self) -> (res: Result<i32, i32>)
        ensures
            res == spec_action(*self),
            (*self is PullFailed || *self is TcpHeaderUnavailable) ==> res == Err::<i32, i32>(3),
            !(*self is PullFailed || *self is TcpHeaderUnavailable) ==> res == Ok::<i32, i32>(3),
    {
        let pipe = tc_act_pipe();
        match self {
            Verdict::PullFailed(_) => Err(pipe),
            Verdict::TcpHeaderUnavailable => Err(pipe),
            _ => Ok(pipe),
        }
    }
}

/// How the egress path ends once the packet's linear part is as it will be: the IPv4 header
/// is read again and the TCP header is read behind it.
pub open spec fn spec_finish_egress(p: Seq<u8>, ip: Ipv4Summary) -> Verdict {
    if p.len() < eth_len() + ipv4_len() {
        Verdict::InvalidIpv4Header
    } else if p.len() < ip.tcp_end() {
        Verdict::TcpHeaderUnavailable
    } else {
        Verdict::OckamPacket(ip, tcp_summary(p, ip.payload_offset()))
    }
}

/// The decision for a packet `p` seen in `direction`.
pub open spec fn spec_classify(p: Seq<u8>, direction: Direction) -> Step {
    if p.len() < eth_len() {
        Step::Done(Verdict::NotEthernet)
    } else if !is_ipv4_frame(p) {
        Step::Done(Verdict::NotIpv4)
    } else if p.len() < eth_len() + ipv4_len() {
        Step::Done(Verdict::InvalidIpv4Header)
    } else {
        let ip = ipv4_summary(p);
        if direction == Direction::Ingress && ip.proto == tcp_proto() {
            if !ip.has_valid_ihl() {
                Step::Done(Verdict::InvalidIpv4HeaderLength)
            } else if p.len() < ip.tcp_end() {
                Step::Done(Verdict::InvalidTcpHeader)
            } else {
                Step::Done(Verdict::TcpPacket(ip, tcp_summary(p, ip.payload_offset())))
            }
        } else if direction == Direction::Egress && spec_is_ockam_proto(ip.proto) {
            if !ip.has_valid_ihl() {
                Step::Done(Verdict::InvalidIpv4HeaderLength)
            } else if p.len() < ip.tcp_end() {
                Step::Pull(ip.tcp_end() as u32, ip)
            } else {
                Step::Done(spec_finish_egress(p, ip))
            }
        } else {
            Step::Done(Verdict::Ignored)
        }
    }
}

/// The decision after the pull that `spec_classify` asked for, with `pulled` the pull's outcome
/// and `p` the packet as it is afterwards.
pub open spec fn spec_resume_egress(p: Seq<u8>, ip: Ipv4Summary, pulled: Result<(), i64>) -> Verdict {
    match pulled {
        Err(e) => Verdict::PullFailed(e),
        Ok(_) => spec_finish_egress(p, ip),
    }
}

/// The egress path once the packet's linear part is as it will be.
fn finish_egress(packet: &[u8], ip: Ipv4Summary) -> (v: Verdict)
    ensures
        v == spec_finish_egress(packet@, ip),
{
    let eth = eth_hdr_len();
    if !holds(packet, eth, ipv4_hdr_len()) {
        return Verdict::InvalidIpv4Header;
    }
    let tcp_off = eth + (ip.ihl as usize) * 4;
    if !holds(packet, tcp_off, tcp_hdr_len()) {
        return Verdict::TcpHeaderUnavailable;
    }
    Verdict::OckamPacket(ip, read_tcp_summary(packet, tcp_off))
}

/// Classifies the packet `packet` seen in `direction`: the verdict, or the request to pull
/// the packet's headers into linear memory first.
pub fn classify(packet: &[u8], direction: Direction) -> (step: Step)
    ensures
        step == spec_classify(packet@, direction),
{
    let eth = eth_hdr_len();
    if !holds(packet, 0, eth) {
        return Step::Done(Verdict::NotEthernet);
    }
    if !read_is_ipv4_frame(packet) {
        return Step::Done(Verdict::NotIpv4);
    }
    if !holds(packet, eth, ipv4_hdr_len()) {
        return Step::Done(Verdict::InvalidIpv4Header);
    }
    let ip = read_ipv4_summary(packet);
    let ihl_valid = ip.ihl >= 5 && ip.ihl <= 15;
    let tcp_off = eth + (ip.ihl as usize) * 4;
    if direction == Direction::Ingress && ip.proto == ip_proto_tcp() {
        if !ihl_valid {
            return Step::Done(Verdict::InvalidIpv4HeaderLength);
        }
        if !holds(packet, tcp_off, tcp_hdr_len()) {
            return Step::Done(Verdict::InvalidTcpHeader);
        }
        return Step::Done(Verdict::TcpPacket(ip, read_tcp_summary(packet, tcp_off)));
    }
    if direction == Direction::Egress && is_ockam_proto(ip.proto) {
        if !ihl_valid {
            return Step::Done(Verdict::InvalidIpv4HeaderLength);
        }
        let tcp_end = tcp_off + tcp_hdr_len();
        if !holds(packet, tcp_off, tcp_hdr_len()) {
            return Step::Pull(tcp_end as u32, ip);
        }
        return Step::Done(finish_egress(packet, ip));
    }
    Step::Done(Verdict::Ignored)
}

/// Resumes the egress path after the pull that `classify` asked for: `pulled` is the pull's
/// outcome, `packet` the packet as it is afterwards and `ip` the IPv4 header that `classify`
/// read before the pull.
pub fn resume_egress(packet: &[u8], ip: Ipv4Summary, pulled: Result<(), i64>) -> (v: Verdict)
    ensures
        v == spec_resume_egress(packet@, ip, pulled),
{
    match pulled {
        Err(e) => Verdict::PullFailed(e),
        Ok(()) => finish_egress(packet, ip),
    }
}

} // verus!
