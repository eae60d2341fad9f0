//! What the captured bytes of a packet tell of its protocols, addresses and
//! ports, and which packets meet a filter on them. Ethernet frames carrying
//! ARP, IPv4 or IPv6 (and TCP, UDP or ICMP over IP) are understood; other
//! packets have no protocol, address or port.

use vstd::prelude::*;
use vstd::string::*;

use crate::utils::text::{decimal, format_decimal};

verus! {

/// A captured packet: the interface it was captured on, the link type of
/// that interface (-1 when no interface describes it) and its bytes.
#[derive(Debug)]
pub struct CapturedPacket {
    pub interface_id: u32,
    pub link_type: i32,
    pub data: Vec<u8>,
}

/// The interface, link type and bytes of a packet.
pub type PacketView = (u32, i32, Seq<u8>);

/// The interfaces, link types and bytes of a list of packets.
pub open spec fn captured_views(packets: Seq<CapturedPacket>) -> Seq<PacketView> {
    packets.map_values(|p: CapturedPacket| (p.interface_id, p.link_type, p.data@))
}

/// Link type of Ethernet.
pub const LINKTYPE_ETHERNET: i32 = 1;

/// The network layer of a packet.
#[derive(Debug, Clone, Copy, PartialEq, Eq, Structural)]
pub enum Network {
    Other,
    Arp,
    Ipv4,
    Ipv6,
}

/// The big-endian 16-bit number at `i`.
pub open spec fn be16(b: Seq<u8>, i: int) -> int {
    b[i] * 256 + b[i + 1]
}

/// The network layer of an Ethernet frame whose headers are captured: ARP,
/// IPv4 (20-byte header captured) or IPv6 (40-byte header captured).
pub open spec fn network_of(link: i32, b: Seq<u8>) -> Network {
    if link == LINKTYPE_ETHERNET && b.len() >= 14 {
        let ether_type = be16(b, 12);
        if ether_type == 0x0806 {
            Network::Arp
        } else if ether_type == 0x0800 && b.len() >= 34 {
            Network::Ipv4
        } else if ether_type == 0x86DD && b.len() >= 54 {
            Network::Ipv6
        } else {
            Network::Other
        }
    } else {
        Network::Other
    }
}

/// The IP protocol number of an IP packet (-1 for any other packet).
pub open spec fn ip_protocol(net: Network, b: Seq<u8>) -> int {
    match net {
        Network::Ipv4 => b[23] as int,
        Network::Ipv6 => b[20] as int,
        _ => -1,
    }
}

/// Where the transport header of an IP packet starts.
pub open spec fn transport_start(net: Network, b: Seq<u8>) -> int {
    match net {
        Network::Ipv4 => 14 + (b[14] % 16) * 4,
        _ => 54,
    }
}

/// The source and destination ports of a TCP or UDP packet whose ports are
/// captured.
pub open spec fn ports_of(link: i32, b: Seq<u8>) -> Option<(int, int)> {
    let net = network_of(link, b);
    let proto = ip_protocol(net, b);
    let t = transport_start(net, b);
    if (net is Ipv4 || net is Ipv6) && (proto == 6 || proto == 17) && t + 4 <= b.len() {
        Some((be16(b, t), be16(b, t + 2)))
    } else {
        None
    }
}

/// Whether a packet is of the protocol named `name`: TCP, UDP, ICMP, ARP,
/// IPv4 or IPv6.
pub open spec fn has_protocol(link: i32, b: Seq<u8>, name: Seq<char>) -> bool {
    let net = network_of(link, b);
    let proto = ip_protocol(net, b);
    let ip = net is Ipv4 || net is Ipv6;
    ||| name == "ARP"@ && net is Arp
    ||| name == "IPv4"@ && net is Ipv4
    ||| name == "IPv6"@ && net is Ipv6
    ||| name == "TCP"@ && ip && proto == 6
    ||| name == "UDP"@ && ip && proto == 17
    ||| name == "ICMP"@ && ((net is Ipv4 && proto == 1) || (net is Ipv6 && proto == 58))
}

/// The dotted-decimal text of the IPv4 address at `i`.
pub open spec fn ipv4_text(b: Seq<u8>, i: int) -> Seq<char> {
    decimal(b[i] as nat) + "."@ + decimal(b[i + 1] as nat) + "."@ + decimal(b[i + 2] as nat) + "."@
        + decimal(b[i + 3] as nat)
}

/// The lowercase hexadecimal digit of `d` (for `d < 16`).
pub open spec fn hex_char(d: nat) -> char {
    if d < 10 {
        ((d + 48) as u8) as char
    } else {
        ((d + 87) as u8) as char
    }
}

/// The lowercase hexadecimal representation of `n`, without leading zeros.
pub open spec fn hex(n: nat) -> Seq<char>
    decreases n,
{
    if n < 16 {
        seq![hex_char(n)]
    } else {
        hex(n / 16).push(hex_char(n % 16))
    }
}

/// The first `k + 1` groups of the IPv6 address at `i`, each in hexadecimal
/// without leading zeros, joined by colons.
pub open spec fn ipv6_groups(b: Seq<u8>, i: int, k: nat) -> Seq<char>
    decreases k,
{
    if k == 0 {
        hex(be16(b, i) as nat)
    } else {
        ipv6_groups(b, i, (k - 1) as nat) + ":"@ + hex(be16(b, i + 2 * k) as nat)
    }
}

/// The text of the IPv6 address at `i`: its eight groups in hexadecimal
/// without leading zeros, joined by colons (no run of zero groups is
/// shortened).
pub open spec fn ipv6_text(b: Seq<u8>, i: int) -> Seq<char> {
    ipv6_groups(b, i, 7)
}

/// The text of a packet's source address, for IP packets.
pub open spec fn source_address(link: i32, b: Seq<u8>) -> Option<Seq<char>> {
    match network_of(link, b) {
        Network::Ipv4 => Some(ipv4_text(b, 26)),
        Network::Ipv6 => Some(ipv6_text(b, 22)),
        _ => None,
    }
}

/// The text of a packet's destination address, for IP packets.
pub open spec fn dest_address(link: i32, b: Seq<u8>) -> Option<Seq<char>> {
    match network_of(link, b) {
        Network::Ipv4 => Some(ipv4_text(b, 30)),
        Network::Ipv6 => Some(ipv6_text(b, 38)),
        _ => None,
    }
}

/// What a packet must meet to pass the filter; an absent criterion admits
/// every packet.
#[derive(Debug)]
pub struct PacketCriteria {
    pub protocol: Option<String>,
    pub source_ip: Option<String>,
    pub dest_ip: Option<String>,
    pub port: Option<u16>,
}

/// The texts and port of a filter's criteria.
pub struct CriteriaView {
    pub protocol: Option<Seq<char>>,
    pub source_ip: Option<Seq<char>>,
    pub dest_ip: Option<Seq<char>>,
    pub port: Option<u16>,
}

impl View for PacketCriteria {
    type V = CriteriaView;

    open spec fn view(&self) -> CriteriaView {
        CriteriaView {
            protocol: crate::utils::text::opt_text(self.protocol),
            source_ip: crate::utils::text::opt_text(self.source_ip),
            dest_ip: crate::utils::text::opt_text(self.dest_ip),
            port: self.port,
        }
    }
}

/// Whether a packet meets every given criterion: its protocol, its source
/// and destination address, and its port (source or destination).
pub open spec fn meets(c: CriteriaView, p: PacketView) -> bool {
    &&& c.protocol matches Some(name) ==> has_protocol(p.1, p.2, name)
    &&& c.source_ip matches Some(a) ==> source_address(p.1, p.2) == Some(a)
    &&& c.dest_ip matches Some(a) ==> dest_address(p.1, p.2) == Some(a)
    &&& c.port matches Some(n) ==> (ports_of(p.1, p.2) matches Some(ps) && (ps.0 == n || ps.1 == n))
}

/// A packet that met a filter: its position among the capture's packets
/// (from 1), its interface and its captured length.
#[derive(Debug, Clone, Copy, PartialEq, Eq, Structural)]
pub struct MatchedPacket {
    pub number: u64,
    pub interface_id: u32,
    pub captured_length: u64,
}

/// The packets among `packets` that meet the criteria, in order.
pub open spec fn matching(packets: Seq<PacketView>, c: CriteriaView) -> Seq<MatchedPacket>
    decreases packets.len(),
{
    if packets.len() == 0 {
        Seq::empty()
    } else {
        let earlier = matching(packets.drop_last(), c);
        let p = packets.last();
        if meets(c, p) {
            earlier.push(MatchedPacket {
                number: packets.len() as u64,
                interface_id: p.0,
                captured_length: p.2.len() as u64,
            })
        } else {
            earlier
        }
    }
}

/// The first `max` of `s`, or all of them when no maximum is given.
pub open spec fn at_most<T>(s: Seq<T>, max: Option<usize>) -> Seq<T> {
    match max {
        Some(m) => if m < s.len() { s.take(m as int) } else { s },
        None => s,
    }
}

fn read_be16(b: &Vec<u8>, i: usize) -> (n: u16)
    requires
        i + 2 <= b@.len(),
    ensures
        n == be16(b@, i as int),
{
    // the vector's length fits in usize, so no index below overflows
    let len = b.len();
    assert(i + 1 < len);
    b[i] as u16 * 256 + b[i + 1] as u16
}

fn network(link: i32, b: &Vec<u8>) -> (net: Network)
    ensures
        net == network_of(link, b@),
{
    if link == LINKTYPE_ETHERNET && b.len() >= 14 {
        let ether_type = read_be16(b, 12);
        if ether_type == 0x0806 {
            Network::Arp
        } else if ether_type == 0x0800 && b.len() >= 34 {
            Network::Ipv4
        } else if ether_type == 0x86DD && b.len() >= 54 {
            Network::Ipv6
        } else {
            Network::Other
        }
    } else {
        Network::Other
    }
}

fn same(a: &String, b: &str) -> (r: bool)
    ensures
        r == (a@ == b@),
{
    *a == String::from_str(b)
}

fn packet_protocol_is(link: i32, b: &Vec<u8>, name: &String) -> (r: bool)
    ensures
        r == has_protocol(link, b@, name@),
{
    proof {
        reveal_strlit("ARP");
        reveal_strlit("IPv4");
        reveal_strlit("IPv6");
        reveal_strlit("TCP");
        reveal_strlit("UDP");
        reveal_strlit("ICMP");
    }
    let net = network(link, b);
    let proto: i32 = match net {
        Network::Ipv4 => b[23] as i32,
        Network::Ipv6 => b[20] as i32,
        _ => -1,
    };
    let ip = net == Network::Ipv4 || net == Network::Ipv6;
    (same(name, "ARP") && net == Network::Arp)
        || (same(name, "IPv4") && net == Network::Ipv4)
        || (same(name, "IPv6") && net == Network::Ipv6)
        || (same(name, "TCP") && ip && proto == 6)
        || (same(name, "UDP") && ip && proto == 17)
        || (same(name, "ICMP") && ((net == Network::Ipv4 && proto == 1) || (net == Network::Ipv6 && proto == 58)))
}

fn packet_ports(link: i32, b: &Vec<u8>) -> (r: Option<(u16, u16)>)
    ensures
        match ports_of(link, b@) {
            Some(ps) => r matches Some(q) && q.0 == ps.0 && q.1 == ps.1,
            None => r is None,
        },
{
    let net = network(link, b);
    let (proto, t): (u8, usize) = match net {
        Network::Ipv4 => (b[23], 14 + (b[14] % 16) as usize * 4),
        Network::Ipv6 => (b[20], 54),
        _ => (0, 0),
    };
    if (net == Network::Ipv4 || net == Network::Ipv6) && (proto == 6 || proto == 17) && t + 4 <= b.len() {
        Some((read_be16(b, t), read_be16(b, t + 2)))
    } else {
        None
    }
}

fn dot_text(s: &mut String, n: u8)
    ensures
        final(s)@ == old(s)@ + "."@ + decimal(n as nat),
{
    proof { reveal_strlit("."); }
    s.append(".");
    let d = format_decimal(n as u64);
    s.append(d.as_str());
}

fn format_ipv4(b: &Vec<u8>, i: usize) -> (s: String)
    requires
        i + 4 <= b@.len(),
    ensures
        s@ == ipv4_text(b@, i as int),
{
    // the vector's length fits in usize, so no index below overflows
    let len = b.len();
    assert(i + 3 < len);
    let mut s = format_decimal(b[i] as u64);
    dot_text(&mut s, b[i + 1]);
    dot_text(&mut s, b[i + 2]);
    dot_text(&mut s, b[i + 3]);
    s
}

fn hex_digit_str(d: u16) -> (s: &'static str)
    requires
        d < 16,
    ensures
        s@ == seq![hex_char(d as nat)],
{
    proof {
        reveal_strlit("0");
        reveal_strlit("1");
        reveal_strlit("2");
        reveal_strlit("3");
        reveal_strlit("4");
        reveal_strlit("5");
        reveal_strlit("6");
        reveal_strlit("7");
        reveal_strlit("8");
        reveal_strlit("9");
        reveal_strlit("a");
        reveal_strlit("b");
        reveal_strlit("c");
        reveal_strlit("d");
        reveal_strlit("e");
        reveal_strlit("f");
    }
    if d == 0 { "0" }
    else if d == 1 { "1" }
    else if d == 2 { "2" }
    else if d == 3 { "3" }
    else if d == 4 { "4" }
    else if d == 5 { "5" }
    else if d == 6 { "6" }
    else if d == 7 { "7" }
    else if d == 8 { "8" }
    else if d == 9 { "9" }
    else if d == 10 { "a" }
    else if d == 11 { "b" }
    else if d == 12 { "c" }
    else if d == 13 { "d" }
    else if d == 14 { "e" }
    else { "f" }
}

/// Formats `n` in lowercase hexadecimal.
fn format_hex(n: u16) -> (s: String)
    ensures
        s@ == hex(n as nat),
    decreases n,
{
    if n < 16 {
        String::from_str(hex_digit_str(n))
    } else {
        let mut s = format_hex(n / 16);
        s.append(hex_digit_str(n % 16));
        s
    }
}

fn format_ipv6(b: &Vec<u8>, i: usize) -> (s: String)
    requires
        i + 16 <= b@.len(),
    ensures
        s@ == ipv6_text(b@, i as int),
{
    proof { reveal_strlit(":"); }
    let len = b.len();
    let mut s = format_hex(read_be16(b, i));
    let mut k: usize = 1;
    while k < 8
        invariant
            1 <= k <= 8,
            i + 16 <= b@.len() == len,
            s@ == ipv6_groups(b@, i as int, (k - 1) as nat),
        decreases 8 - k,
    {
        s.append(":");
        let g = format_hex(read_be16(b, i + 2 * k));
        s.append(g.as_str());
        k = k + 1;
    }
    s
}

fn source_text(link: i32, b: &Vec<u8>) -> (r: Option<String>)
    ensures
        crate::utils::text::opt_text(r) == source_address(link, b@),
{
    match network(link, b) {
        Network::Ipv4 => Some(format_ipv4(b, 26)),
        Network::Ipv6 => Some(format_ipv6(b, 22)),
        _ => None,
    }
}

fn dest_text(link: i32, b: &Vec<u8>) -> (r: Option<String>)
    ensures
        crate::utils::text::opt_text(r) == dest_address(link, b@),
{
    match network(link, b) {
        Network::Ipv4 => Some(format_ipv4(b, 30)),
        Network::Ipv6 => Some(format_ipv6(b, 38)),
        _ => None,
    }
}

fn same_address(wanted: &String, found: Option<String>) -> (r: bool)
    ensures
        r == (crate::utils::text::opt_text(found) == Some(wanted@)),
{
    match found {
        Some(f) => f == *wanted,
        None => false,
    }
}

/// Whether the packet meets every given criterion.
pub fn packet_meets(c: &PacketCriteria, p: &CapturedPacket) -> (r: bool)
    ensures
        r == meets(c@, (p.interface_id, p.link_type, p.data@)),
{
    if let Some(name) = &c.protocol {
        if !packet_protocol_is(p.link_type, &p.data, name) {
            return false;
        }
    }
    if let Some(a) = &c.source_ip {
        if !same_address(a, source_text(p.link_type, &p.data)) {
            return false;
        }
    }
    if let Some(a) = &c.dest_ip {
        if !same_address(a, dest_text(p.link_type, &p.data)) {
            return false;
        }
    }
    if let Some(n) = c.port {
        match packet_ports(p.link_type, &p.data) {
            Some((s, d)) => s == n || d == n,
            None => false,
        }
    } else {
        true
    }
}

/// The packets that meet the criteria, in order, at most `max_results` of
/// them (all of them when no maximum is given).
pub fn select_matching(packets: &Vec<CapturedPacket>, c: &PacketCriteria, max_results: Option<usize>) -> (r: Vec<MatchedPacket>)
    ensures
        r@ == at_most(matching(captured_views(packets@), c@), max_results),
{
    let ghost all = captured_views(packets@);
    let mut r: Vec<MatchedPacket> = Vec::new();
    let mut i: usize = 0;
    while i < packets.len()
        invariant
            i <= packets@.len(),
            all == captured_views(packets@),
            r@ == at_most(matching(all.take(i as int), c@), max_results),
        decreases packets@.len() - i,
    {
        let ghost before = matching(all.take(i as int), c@);
        assert(all.take(i + 1).drop_last() =~= all.take(i as int));
        assert(all.take(i + 1).last() == all[i as int]);
        let p = &packets[i];
        if packet_meets(c, p) {
            let m = MatchedPacket {
                number: (i + 1) as u64,
                interface_id: p.interface_id,
                captured_length: p.data.len() as u64,
            };
            let room = match max_results {
                Some(max) => r.len() < max,
                None => true,
            };
            if room {
                r.push(m);
            }
            proof {
                let after = before.push(m);
                assert(matching(all.take(i + 1), c@) == after);
                if let Some(max) = max_results {
                    if max < before.len() {
                        assert(after.take(max as int) =~= before.take(max as int));
                    } else if max == before.len() {
                        assert(after.take(max as int) =~= before);
                    }
                }
            }
        }
        i = i + 1;
    }
    assert(all.take(packets@.len() as int) =~= all);
    r
}


proof fn lemma_matching_facts(packets: Seq<PacketView>, c: CriteriaView)
    requires
        packets.len() <= u64::MAX,
        forall|i: int| 0 <= i < packets.len() ==> (#[trigger] packets[i]).2.len() <= u64::MAX,
    ensures
        matching(packets, c).len() <= packets.len(),
        matching(packets, c).len() == packets.filter(|p: PacketView| meets(c, p)).len(),
        forall|j: int| 0 <= j < matching(packets, c).len() ==> {
            let m = #[trigger] matching(packets, c)[j];
            &&& 1 <= m.number <= packets.len()
            &&& meets(c, packets[m.number - 1])
            &&& m.interface_id == packets[m.number - 1].0
            &&& m.captured_length == packets[m.number - 1].2.len()
        },
        forall|j: int, k: int| 0 <= j < k < matching(packets, c).len() ==>
            (#[trigger] matching(packets, c)[j]).number < (#[trigger] matching(packets, c)[k]).number,
    decreases packets.len(),
{
    reveal_with_fuel(Seq::<_>::filter, 1);
    if packets.len() > 0 {
        let rest = packets.drop_last();
        assert forall|i: int| 0 <= i < rest.len() implies (#[trigger] rest[i]).2.len() <= u64::MAX by {
            assert(rest[i] == packets[i]);
        }
        lemma_matching_facts(rest, c);
        let earlier = matching(rest, c);
        assert forall|i: int| 0 <= i < rest.len() implies #[trigger] rest[i] == packets[i] by {}
        assert(packets[packets.len() - 1] == packets.last());
        if meets(c, packets.last()) {
            let all = matching(packets, c);
            assert forall|j: int| 0 <= j < all.len() implies {
                let m = #[trigger] all[j];
                &&& 1 <= m.number <= packets.len()
                &&& meets(c, packets[m.number - 1])
                &&& m.interface_id == packets[m.number - 1].0
                &&& m.captured_length == packets[m.number - 1].2.len()
            } by {
                if j < earlier.len() {
                    assert(all[j] == earlier[j]);
                    assert(packets[earlier[j].number - 1] == rest[earlier[j].number - 1]);
                }
            }
            assert forall|j: int, k: int| 0 <= j < k < all.len() implies
                (#[trigger] all[j]).number < (#[trigger] all[k]).number by {
                assert(all[j] == earlier[j]);
                if k < earlier.len() {
                    assert(all[k] == earlier[k]);
                }
            }
        }
    }
}

/// The packets a filter returns are packets of the capture that meet every
/// criterion, each named by its position (from 1) with its interface and
/// captured length, in file order; there are at most `max` of them, and with
/// no maximum every packet that meets the criteria is returned.
pub proof fn law_filter_returns_meeting_packets(packets: Seq<PacketView>, c: CriteriaView, max: Option<usize>)
    requires
        packets.len() <= u64::MAX,
        forall|i: int| 0 <= i < packets.len() ==> (#[trigger] packets[i]).2.len() <= u64::MAX,
    ensures
        ({
            let r = at_most(matching(packets, c), max);
            &&& forall|j: int| 0 <= j < r.len() ==> {
                let m = #[trigger] r[j];
                &&& 1 <= m.number <= packets.len()
                &&& meets(c, packets[m.number - 1])
                &&& m.interface_id == packets[m.number - 1].0
                &&& m.captured_length == packets[m.number - 1].2.len()
            }
            &&& forall|j: int, k: int| 0 <= j < k < r.len() ==> (#[trigger] r[j]).number < (#[trigger] r[k]).number
            &&& max matches Some(n) ==> r.len() <= n
            &&& max is None ==> r.len() == packets.filter(|p: PacketView| meets(c, p)).len()
        }),
{
    lemma_matching_facts(packets, c);
    let all = matching(packets, c);
    let r = at_most(all, max);
    assert forall|j: int| 0 <= j < r.len() implies #[trigger] r[j] == all[j] by {}
}

/// A filter on a protocol name looks at the header bytes of Ethernet frames:
/// a packet matched as TCP or UDP carries IPv4 (EtherType 0x0800) or IPv6
/// (0x86DD) with IP protocol number 6 or 17, and one matched as ARP carries
/// EtherType 0x0806.
pub proof fn law_protocol_names_read_header_bytes(link: i32, b: Seq<u8>)
    ensures
        has_protocol(link, b, "TCP"@) ==> link == 1 && ((be16(b, 12) == 0x0800 && b.len() >= 34 && b[23] == 6)
            || (be16(b, 12) == 0x86DD && b.len() >= 54 && b[20] == 6)),
        has_protocol(link, b, "UDP"@) ==> link == 1 && ((be16(b, 12) == 0x0800 && b.len() >= 34 && b[23] == 17)
            || (be16(b, 12) == 0x86DD && b.len() >= 54 && b[20] == 17)),
        has_protocol(link, b, "ARP"@) ==> link == 1 && b.len() >= 14 && be16(b, 12) == 0x0806,
        link == 1 && b.len() >= 34 && be16(b, 12) == 0x0800 && b[23] == 6 ==> has_protocol(link, b, "TCP"@),
        link == 1 && b.len() >= 34 && be16(b, 12) == 0x0800 && b[23] == 17 ==> has_protocol(link, b, "UDP"@),
{
    reveal_strlit("TCP");
    reveal_strlit("UDP");
    reveal_strlit("ARP");
    reveal_strlit("ICMP");
    reveal_strlit("IPv4");
    reveal_strlit("IPv6");
    assert("TCP"@[0] == 'T' && "UDP"@[0] == 'U' && "ARP"@[0] == 'A');
    assert("IPv4"@[0] == 'I' && "IPv6"@[0] == 'I' && "ICMP"@[0] == 'I');
}

} // verus!
