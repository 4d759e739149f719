use ockam_ebpf::classify::{classify, is_ockam_proto, resume_egress, Direction, Step, Verdict};
use ockam_ebpf::headers::{ptr_at, read_ipv4_summary, read_tcp_summary, Ipv4Summary, TcpSummary};
use ockam_ebpf::ports::PortQueueElement;

/// An Ethernet + IPv4 + TCP packet: IPv4 header of `ihl` words with protocol `proto`,
/// 10.0.0.1:4000 -> 192.168.1.2:443, flags byte `flags`, followed by `payload` bytes.
fn packet(ether_type: [u8; 2], ihl: u8, proto: u8, flags: u8, payload: usize) -> Vec<u8> {
    let mut p = vec![0u8; 12];
    p.extend_from_slice(&ether_type);
    let mut ip = vec![0u8; 20];
    ip[0] = 0x40 | ihl;
    ip[9] = proto;
    ip[12..16].copy_from_slice(&[10, 0, 0, 1]);
    ip[16..20].copy_from_slice(&[192, 168, 1, 2]);
    p.extend_from_slice(&ip);
    let options = (ihl as usize * 4).saturating_sub(20);
    p.extend(std::iter::repeat(0xEEu8).take(options));
    let mut tcp = vec![0u8; 20];
    tcp[0..2].copy_from_slice(&4000u16.to_be_bytes());
    tcp[2..4].copy_from_slice(&443u16.to_be_bytes());
    tcp[12] = 0x50;
    tcp[13] = flags;
    p.extend_from_slice(&tcp);
    p.extend(std::iter::repeat(0xABu8).take(payload));
    p
}

const IPV4: [u8; 2] = [0x08, 0x00];
const ARP: [u8; 2] = [0x08, 0x06];

fn expected_ip(proto: u8, ihl: u8) -> Ipv4Summary {
    Ipv4Summary { proto, ihl, src_addr: 0x0A000001, dst_addr: 0xC0A80102 }
}

fn expected_tcp(syn: u16, ack: u16, fin: u16, rst: u16) -> TcpSummary {
    TcpSummary { src_port: 4000, dst_port: 443, syn, ack, fin, rst }
}

#[test]
fn ockam_proto_range() {
    assert!(!is_ockam_proto(0));
    assert!(!is_ockam_proto(6));
    assert!(!is_ockam_proto(145));
    assert!(is_ockam_proto(146));
    assert!(is_ockam_proto(200));
    assert!(is_ockam_proto(252));
    assert!(!is_ockam_proto(253));
    assert!(!is_ockam_proto(255));
}

#[test]
fn port_queue_element_new_is_zero() {
    let e = PortQueueElement::new();
    assert_eq!(e.port, 0);
    assert_eq!(e.proto, 0);
    let d = PortQueueElement::default();
    assert_eq!(d.port, 0);
    assert_eq!(d.proto, 0);
}

#[test]
fn ptr_at_bounds() {
    assert_eq!(ptr_at(1000, 1014, 0, 14), Some(1000));
    assert_eq!(ptr_at(1000, 1013, 0, 14), None);
    assert_eq!(ptr_at(1000, 1054, 34, 20), Some(1034));
    assert_eq!(ptr_at(1000, 1053, 34, 20), None);
    assert_eq!(ptr_at(0, 0, 0, 0), Some(0));
}

#[test]
fn header_readers() {
    let p = packet(IPV4, 5, 6, 0x12, 0);
    assert_eq!(read_ipv4_summary(&p), expected_ip(6, 5));
    assert_eq!(read_tcp_summary(&p, 34), expected_tcp(1, 1, 0, 0));
    let q = packet(IPV4, 5, 6, 0x05, 0);
    assert_eq!(read_tcp_summary(&q, 34), expected_tcp(0, 0, 1, 1));
}

#[test]
fn short_packet_is_not_ethernet() {
    let p = vec![0u8; 13];
    assert_eq!(classify(&p, Direction::Ingress), Step::Done(Verdict::NotEthernet));
    assert_eq!(classify(&[], Direction::Egress), Step::Done(Verdict::NotEthernet));
}

#[test]
fn non_ipv4_frames_are_passed_on() {
    let p = packet(ARP, 5, 6, 0x02, 0);
    assert_eq!(classify(&p, Direction::Ingress), Step::Done(Verdict::NotIpv4));
    assert_eq!(classify(&p, Direction::Egress), Step::Done(Verdict::NotIpv4));
    let v6 = packet([0x86, 0xDD], 5, 200, 0x02, 0);
    assert_eq!(classify(&v6, Direction::Egress), Step::Done(Verdict::NotIpv4));
}

#[test]
fn truncated_ipv4_header() {
    let p = packet(IPV4, 5, 6, 0x02, 0);
    assert_eq!(classify(&p[..33], Direction::Ingress), Step::Done(Verdict::InvalidIpv4Header));
    assert_eq!(classify(&p[..14], Direction::Egress), Step::Done(Verdict::InvalidIpv4Header));
}

#[test]
fn ingress_tcp_packet_is_read() {
    let p = packet(IPV4, 5, 6, 0x02, 100);
    assert_eq!(
        classify(&p, Direction::Ingress),
        Step::Done(Verdict::TcpPacket(expected_ip(6, 5), expected_tcp(1, 0, 0, 0)))
    );
}

#[test]
fn ingress_tcp_packet_with_ip_options() {
    let p = packet(IPV4, 7, 6, 0x11, 0);
    assert_eq!(p.len(), 14 + 28 + 20);
    assert_eq!(
        classify(&p, Direction::Ingress),
        Step::Done(Verdict::TcpPacket(expected_ip(6, 7), expected_tcp(0, 1, 1, 0)))
    );
}

#[test]
fn ingress_invalid_header_length() {
    let p = packet(IPV4, 4, 6, 0x02, 0);
    assert_eq!(classify(&p, Direction::Ingress), Step::Done(Verdict::InvalidIpv4HeaderLength));
    let q = packet(IPV4, 0, 6, 0x02, 0);
    assert_eq!(classify(&q, Direction::Ingress), Step::Done(Verdict::InvalidIpv4HeaderLength));
}

#[test]
fn ingress_truncated_tcp_header() {
    let p = packet(IPV4, 5, 6, 0x02, 0);
    assert_eq!(classify(&p[..53], Direction::Ingress), Step::Done(Verdict::InvalidTcpHeader));
}

#[test]
fn ingress_non_tcp_is_ignored() {
    let udp = packet(IPV4, 5, 17, 0, 0);
    assert_eq!(classify(&udp, Direction::Ingress), Step::Done(Verdict::Ignored));
    let ockam = packet(IPV4, 5, 200, 0, 0);
    assert_eq!(classify(&ockam, Direction::Ingress), Step::Done(Verdict::Ignored));
}

#[test]
fn egress_ockam_packet_is_read() {
    let p = packet(IPV4, 5, 200, 0x04, 10);
    assert_eq!(
        classify(&p, Direction::Egress),
        Step::Done(Verdict::OckamPacket(expected_ip(200, 5), expected_tcp(0, 0, 0, 1)))
    );
}

#[test]
fn egress_tcp_is_ignored() {
    let p = packet(IPV4, 5, 6, 0x02, 0);
    assert_eq!(classify(&p, Direction::Egress), Step::Done(Verdict::Ignored));
    let q = packet(IPV4, 5, 253, 0x02, 0);
    assert_eq!(classify(&q, Direction::Egress), Step::Done(Verdict::Ignored));
}

#[test]
fn egress_invalid_header_length() {
    let p = packet(IPV4, 3, 146, 0, 0);
    assert_eq!(classify(&p, Direction::Egress), Step::Done(Verdict::InvalidIpv4HeaderLength));
}

#[test]
fn egress_pull_and_resume() {
    let full = packet(IPV4, 5, 252, 0x12, 0);
    let step = classify(&full[..40], Direction::Egress);
    assert_eq!(step, Step::Pull(54, expected_ip(252, 5)));
    let ip = match step {
        Step::Pull(_, ip) => ip,
        Step::Done(_) => unreachable!(),
    };
    assert_eq!(
        resume_egress(&full, ip, Ok(())),
        Verdict::OckamPacket(expected_ip(252, 5), expected_tcp(1, 1, 0, 0))
    );
    assert_eq!(resume_egress(&full[..40], ip, Ok(())), Verdict::TcpHeaderUnavailable);
    assert_eq!(resume_egress(&full[..20], ip, Ok(())), Verdict::InvalidIpv4Header);
    assert_eq!(resume_egress(&full, ip, Err(-14)), Verdict::PullFailed(-14));
}

#[test]
fn egress_pull_length_covers_ip_options() {
    let full = packet(IPV4, 15, 150, 0, 0);
    assert_eq!(classify(&full[..70], Direction::Egress), Step::Pull(14 + 60 + 20, expected_ip(150, 15)));
}

#[test]
fn actions_are_always_pipe() {
    assert_eq!(Verdict::NotEthernet.action(), Ok(3));
    assert_eq!(Verdict::NotIpv4.action(), Ok(3));
    assert_eq!(Verdict::InvalidIpv4Header.action(), Ok(3));
    assert_eq!(Verdict::InvalidIpv4HeaderLength.action(), Ok(3));
    assert_eq!(Verdict::InvalidTcpHeader.action(), Ok(3));
    assert_eq!(Verdict::Ignored.action(), Ok(3));
    assert_eq!(Verdict::TcpPacket(expected_ip(6, 5), expected_tcp(0, 0, 0, 0)).action(), Ok(3));
    assert_eq!(Verdict::OckamPacket(expected_ip(200, 5), expected_tcp(0, 0, 0, 0)).action(), Ok(3));
    assert_eq!(Verdict::PullFailed(-1).action(), Err(3));
    assert_eq!(Verdict::TcpHeaderUnavailable.action(), Err(3));
}

#[test]
fn payload_does_not_change_the_verdict() {
    let p = packet(IPV4, 5, 6, 0x02, 0);
    let mut longer = p.clone();
    longer.extend_from_slice(&[1, 2, 3, 4, 5]);
    for d in [Direction::Ingress, Direction::Egress] {
        assert_eq!(classify(&longer, d), classify(&p, d));
    }
    let arp = packet(ARP, 5, 6, 0, 0);
    let mut arp_longer = arp.clone();
    arp_longer.push(9);
    assert_eq!(classify(&arp_longer, Direction::Egress), classify(&arp, Direction::Egress));
}

#[test]
fn ingress_never_answers_with_error() {
    let samples = [
        packet(IPV4, 5, 6, 0x02, 0),
        packet(IPV4, 4, 6, 0x02, 0),
        packet(ARP, 5, 6, 0, 0),
        packet(IPV4, 5, 200, 0, 0),
    ];
    for s in samples.iter() {
        for cut in 0..=s.len() {
            match classify(&s[..cut], Direction::Ingress) {
                Step::Done(v) => assert_eq!(v.action(), Ok(3)),
                Step::Pull(..) => panic!("pull on ingress"),
            }
        }
    }
}
