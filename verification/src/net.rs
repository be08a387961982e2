//! Network addresses, as the proxy logic reads them.
use vstd::prelude::*;

use crate::util::text::{decimal, hex, spec_decimal, spec_hex};

verus! {

/// An IP address: IPv4 as its 32-bit number, IPv6 as its 128-bit number (both in network
/// byte order, most significant byte first).
#[derive(Debug, Clone, Copy, PartialEq, Eq, Structural)]
pub enum IpAddress {
    V4(u32),
    V6(u128),
}

/// An IP address with a port.
#[derive(Debug, Clone, Copy, PartialEq, Eq, Structural)]
pub struct SocketAddress {
    pub ip: IpAddress,
    pub port: u16,
}

impl IpAddress {
    /// The IPv4 loopback address 127.0.0.1.
    pub fn localhost_v4() -> (res: IpAddress)
        ensures
            res == IpAddress::V4(0x7f00_0001),
    {
        IpAddress::V4(0x7f00_0001)
    }

    /// Whether this is a loopback address: 127.0.0.0/8 or ::1.
    pub open spec fn spec_is_loopback(&self) -> bool {
        match *self {
            IpAddress::V4(ip) => ip >> 24u32 == 127,
            IpAddress::V6(ip) => ip == 1,
        }
    }

    /// Whether this is a loopback address: 127.0.0.0/8 or ::1.
    pub fn is_loopback(&self) -> (res: bool)
        ensures
            res == self.spec_is_loopback(),
    {
        match *self {
            IpAddress::V4(ip) => ip >> 24u32 == 127,
            IpAddress::V6(ip) => ip == 1,
        }
    }
}

/// Octet `i` of an IPv4 address, the most significant first.
pub open spec fn ipv4_octet(ip: u32, i: int) -> u8 {
    (ip >> ((8 * (3 - i)) as u32)) as u8
}

/// Dotted decimal text of an IPv4 address.
pub open spec fn spec_ipv4_text(ip: u32) -> Seq<char> {
    spec_decimal(ipv4_octet(ip, 0) as nat) + "."@ + spec_decimal(ipv4_octet(ip, 1) as nat) + "."@
        + spec_decimal(ipv4_octet(ip, 2) as nat) + "."@ + spec_decimal(ipv4_octet(ip, 3) as nat)
}

/// 16-bit group `i` of an IPv6 address, the most significant first.
pub open spec fn ipv6_segment(ip: u128, i: int) -> u16 {
    ((ip >> ((16 * (7 - i)) as u128)) & 0xffff) as u16
}

/// The eight 16-bit groups of an IPv6 address.
pub open spec fn ipv6_segments(ip: u128) -> Seq<u16> {
    Seq::new(8, |i: int| ipv6_segment(ip, i))
}

/// Groups in lowercase hexadecimal, separated by colons.
pub open spec fn spec_hex_groups(s: Seq<u16>) -> Seq<char>
    decreases s.len(),
{
    if s.len() == 0 {
        seq![]
    } else if s.len() == 1 {
        spec_hex(s[0] as nat)
    } else {
        spec_hex_groups(s.drop_last()) + ":"@ + spec_hex(s.last() as nat)
    }
}

/// The runs of zero groups among the first `n` groups: the current run's start and length,
/// and the start and length of the longest run, the first of equal ones.
pub open spec fn zero_runs(s: Seq<u16>, n: nat) -> (int, int, int, int)
    decreases n,
{
    if n == 0 {
        (0, 0, 0, 0)
    } else {
        let (cur_start, cur_len, best_start, best_len) = zero_runs(s, (n - 1) as nat);
        if s[n - 1] == 0 {
            let start = if cur_len == 0 {
                n - 1
            } else {
                cur_start
            };
            if cur_len + 1 > best_len {
                (start, cur_len + 1, start, cur_len + 1)
            } else {
                (start, cur_len + 1, best_start, best_len)
            }
        } else {
            (0, 0, best_start, best_len)
        }
    }
}

/// Whether an IPv6 address is an IPv4-mapped one, `::ffff:a.b.c.d`.
pub open spec fn is_ipv4_mapped(ip: u128) -> bool {
    let s = ipv6_segments(ip);
    s[0] == 0 && s[1] == 0 && s[2] == 0 && s[3] == 0 && s[4] == 0 && s[5] == 0xffff
}

/// Text of an IPv6 address in the canonical style of RFC 5952: lowercase hexadecimal
/// groups without leading zeros, the longest run of two or more zero groups (the first of
/// equal ones) written as `::`; an IPv4-mapped address as `::ffff:` and dotted decimal.
pub open spec fn spec_ipv6_text(ip: u128) -> Seq<char> {
    let s = ipv6_segments(ip);
    if is_ipv4_mapped(ip) {
        "::ffff:"@ + spec_ipv4_text((ip & 0xffff_ffff) as u32)
    } else {
        let (_, _, start, len) = zero_runs(s, 8);
        if len > 1 {
            spec_hex_groups(s.subrange(0, start)) + "::"@ + spec_hex_groups(s.subrange(start + len, 8))
        } else {
            spec_hex_groups(s)
        }
    }
}

/// Text of an IP address.
pub open spec fn spec_ip_text(ip: IpAddress) -> Seq<char> {
    match ip {
        IpAddress::V4(v4) => spec_ipv4_text(v4),
        IpAddress::V6(v6) => spec_ipv6_text(v6),
    }
}

/// Dotted decimal text of an IPv4 address.
fn ipv4_text(ip: u32) -> (res: String)
    ensures
        res@ == spec_ipv4_text(ip),
{
    let mut out = decimal((ip >> 24u32) as u8 as u32);
    out.append(".");
    out.append(decimal((ip >> 16u32) as u8 as u32).as_str());
    out.append(".");
    out.append(decimal((ip >> 8u32) as u8 as u32).as_str());
    out.append(".");
    out.append(decimal(ip as u8 as u32).as_str());
    proof {
        assert(ipv4_octet(ip, 0) == (ip >> 24u32) as u8);
        assert(ipv4_octet(ip, 1) == (ip >> 16u32) as u8);
        assert(ipv4_octet(ip, 2) == (ip >> 8u32) as u8);
        assert(ipv4_octet(ip, 3) == (ip >> 0u32) as u8);
        assert((ip >> 0u32) == ip) by (bit_vector);
    }
    out
}

/// The groups `lo..hi` of `s` in hexadecimal, separated by colons.
fn hex_groups(s: &Vec<u16>, lo: usize, hi: usize) -> (res: String)
    requires
        lo <= hi <= s@.len(),
    ensures
        res@ == spec_hex_groups(s@.subrange(lo as int, hi as int)),
{
    let mut out = String::new();
    let mut i: usize = lo;
    while i < hi
        invariant
            lo <= i <= hi <= s@.len(),
            out@ == spec_hex_groups(s@.subrange(lo as int, i as int)),
        decreases hi - i,
    {
        let ghost before = s@.subrange(lo as int, i as int);
        if i > lo {
            out.append(":");
        }
        out.append(hex(s[i] as u32).as_str());
        proof {
            let after = s@.subrange(lo as int, i + 1);
            assert(after.drop_last() =~= before);
            assert(after.last() == s@[i as int]);
            if i == lo {
                assert(after.len() == 1);
            }
        }
        i = i + 1;
    }
    out
}

/// Text of an IPv6 address, in the canonical style.
fn ipv6_text(ip: u128) -> (res: String)
    ensures
        res@ == spec_ipv6_text(ip),
{
    let mut segs: Vec<u16> = Vec::new();
    let mut i: u32 = 0;
    while i < 8
        invariant
            i <= 8,
            segs@ =~= ipv6_segments(ip).subrange(0, i as int),
        decreases 8 - i,
    {
        segs.push(((ip >> ((16 * (7 - i)) as u128)) & 0xffff) as u16);
        i = i + 1;
    }
    proof {
        assert(segs@ =~= ipv6_segments(ip));
    }
    if segs[0] == 0 && segs[1] == 0 && segs[2] == 0 && segs[3] == 0 && segs[4] == 0 && segs[5] == 0xffff {
        let mut out = String::from_str("::ffff:");
        out.append(ipv4_text((ip & 0xffff_ffff) as u32).as_str());
        return out;
    }
    let mut cur_start: usize = 0;
    let mut cur_len: usize = 0;
    let mut best_start: usize = 0;
    let mut best_len: usize = 0;
    let mut j: usize = 0;
    while j < 8
        invariant
            j <= 8,
            segs@ == ipv6_segments(ip),
            (cur_start as int, cur_len as int, best_start as int, best_len as int) == zero_runs(segs@, j as nat),
            cur_start + cur_len <= j,
            best_start + best_len <= j,
        decreases 8 - j,
    {
        if segs[j] == 0 {
            if cur_len == 0 {
                cur_start = j;
            }
            cur_len = cur_len + 1;
            if cur_len > best_len {
                best_start = cur_start;
                best_len = cur_len;
            }
        } else {
            cur_start = 0;
            cur_len = 0;
        }
        j = j + 1;
    }
    if best_len > 1 {
        let mut out = hex_groups(&segs, 0, best_start);
        out.append("::");
        out.append(hex_groups(&segs, best_start + best_len, 8).as_str());
        out
    } else {
        proof {
            assert(segs@.subrange(0, 8) =~= segs@);
        }
        hex_groups(&segs, 0, 8)
    }
}

impl IpAddress {
    /// The text of this address, as its `Display` gives it.
    pub fn to_text(&self) -> (res: String)
        ensures
            res@ == spec_ip_text(*self),
    {
        match *self {
            IpAddress::V4(v4) => ipv4_text(v4),
            IpAddress::V6(v6) => ipv6_text(v6),
        }
    }
}

} // verus!
