//! The text of socket addresses: dotted decimal for IPv4, the RFC 5952 form
//! for IPv6 (lowercase hexadecimal groups, the longest run of two or more
//! zero groups written `::`, IPv4-mapped addresses as `::ffff:a.b.c.d`), then
//! the scope id and the port.

use vstd::prelude::*;
use crate::network_node::PeerAddr;
use crate::shared::{decimal, decimal_string};

verus! {

/// The character of a hexadecimal digit, in lowercase.
pub open spec fn hex_char(d: nat) -> char {
    if d < 10 {
        (48 + d) as char
    } else {
        (87 + d) as char
    }
}

/// The hexadecimal notation of `n`, in lowercase, without leading zeros.
pub open spec fn hex(n: nat) -> Seq<char>
    decreases n,
{
    if n < 16 {
        seq![hex_char(n)]
    } else {
        hex(n / 16).push(hex_char(n % 16))
    }
}

/// The byte of `ip` that stands `shift` bits from the right.
pub open spec fn octet_at(ip: u32, shift: u32) -> u8 {
    ((ip >> shift) & 0xffu32) as u8
}

/// The dotted decimal text of an IPv4 address.
pub open spec fn ipv4_text(ip: u32) -> Seq<char> {
    decimal(octet_at(ip, 24) as nat) + "."@ + decimal(octet_at(ip, 16) as nat) + "."@
        + decimal(octet_at(ip, 8) as nat) + "."@ + decimal(octet_at(ip, 0) as nat)
}

/// The 16-bit group of `ip` that stands `shift` bits from the right.
pub open spec fn group_at(ip: u128, shift: u128) -> u16 {
    ((ip >> shift) & 0xffffu128) as u16
}

/// The eight 16-bit groups of an IPv6 address, most significant first.
pub open spec fn groups(ip: u128) -> Seq<u16> {
    seq![
        group_at(ip, 112), group_at(ip, 96), group_at(ip, 80), group_at(ip, 64),
        group_at(ip, 48), group_at(ip, 32), group_at(ip, 16), group_at(ip, 0),
    ]
}

/// The address is an IPv4 address mapped into IPv6 (`::ffff:a.b.c.d`).
pub open spec fn is_v4_mapped(g: Seq<u16>) -> bool {
    g[0] == 0 && g[1] == 0 && g[2] == 0 && g[3] == 0 && g[4] == 0 && g[5] == 0xffff
}

/// The IPv4 address in the low 32 bits of `ip`.
pub open spec fn low_ipv4(ip: u128) -> u32 {
    (ip & 0xffff_ffffu128) as u32
}

/// The start and length of the first longest run of zero groups in `g`,
/// scanning from `i` with the current run (`cur_start`, `cur_len`) and the
/// longest run so far (`best_start`, `best_len`).
pub open spec fn zero_run(g: Seq<u16>, i: int, cur_start: int, cur_len: int, best_start: int, best_len: int) -> (int, int)
    decreases g.len() - i,
{
    if i < 0 || i >= g.len() {
        (best_start, best_len)
    } else if g[i] == 0 {
        let start = if cur_len == 0 { i } else { cur_start };
        if cur_len + 1 > best_len {
            zero_run(g, i + 1, start, cur_len + 1, start, cur_len + 1)
        } else {
            zero_run(g, i + 1, start, cur_len + 1, best_start, best_len)
        }
    } else {
        zero_run(g, i + 1, 0, 0, best_start, best_len)
    }
}

/// Groups in hexadecimal, separated by `:`.
pub open spec fn hex_groups(g: Seq<u16>) -> Seq<char>
    decreases g.len(),
{
    if g.len() == 0 {
        Seq::empty()
    } else if g.len() == 1 {
        hex(g[0] as nat)
    } else {
        hex_groups(g.drop_last()) + ":"@ + hex(g.last() as nat)
    }
}

/// The text of an IPv6 address.
pub open spec fn ipv6_text(ip: u128) -> Seq<char> {
    let g = groups(ip);
    if is_v4_mapped(g) {
        "::ffff:"@ + ipv4_text(low_ipv4(ip))
    } else {
        let (start, len) = zero_run(g, 0, 0, 0, 0, 0);
        if len > 1 {
            hex_groups(g.subrange(0, start)) + "::"@ + hex_groups(g.subrange(start + len, 8))
        } else {
            hex_groups(g)
        }
    }
}

/// The text of a socket address: `a.b.c.d:port`, or `[ipv6]:port` with
/// `%scope` after the IPv6 address when the scope id is not 0.
pub open spec fn peer_text(addr: PeerAddr) -> Seq<char> {
    match addr {
        PeerAddr::V4 { ipv4, port } => ipv4_text(ipv4) + ":"@ + decimal(port as nat),
        PeerAddr::V6 { ipv6, port, flowinfo, scope_id } => {
            let scope = if scope_id != 0 { "%"@ + decimal(scope_id as nat) } else { Seq::empty() };
            "["@ + ipv6_text(ipv6) + scope + "]:"@ + decimal(port as nat)
        },
    }
}

/// The text of one hexadecimal digit.
fn hex_digit_str(d: u16) -> (r: &'static str)
    requires
        d < 16,
    ensures
        r@ == seq![hex_char(d as nat)],
{
    proof {
        reveal_strlit("0");
        reveal_strlit("1");
        reveal_strlit("2");
        reveal_strlit("3");
        reveal_strlit("4");
        reveal_strlit("5");
        reveal_strlit("6");
        reveal_strlit("7");
        reveal_strlit("8");
        reveal_strlit("9");
        reveal_strlit("a");
        reveal_strlit("b");
        reveal_strlit("c");
        reveal_strlit("d");
        reveal_strlit("e");
        reveal_strlit("f");
    }
    match d {
        0 => "0",
        1 => "1",
        2 => "2",
        3 => "3",
        4 => "4",
        5 => "5",
        6 => "6",
        7 => "7",
        8 => "8",
        9 => "9",
        10 => "a",
        11 => "b",
        12 => "c",
        13 => "d",
        14 => "e",
        _ => "f",
    }
}

/// `n` in lowercase hexadecimal without leading zeros.
fn hex_string(n: u16) -> (r: String)
    ensures
        r@ == hex(n as nat),
    decreases n,
{
    if n < 16 {
        let mut r = String::new();
        r.append(hex_digit_str(n));
        r
    } else {
        let mut r = hex_string(n / 16);
        r.append(hex_digit_str(n % 16));
        r
    }
}

fn octet(ip: u32, shift: u32) -> (r: u8)
    requires
        shift < 32,
    ensures
        r == octet_at(ip, shift),
{
    ((ip >> shift) & 0xffu32) as u8
}

/// The dotted decimal text of an IPv4 address.
fn ipv4_string(ip: u32) -> (r: String)
    ensures
        r@ == ipv4_text(ip),
{
    let mut r = decimal_string(octet(ip, 24) as u64);
    r.append(".");
    r.append(decimal_string(octet(ip, 16) as u64).as_str());
    r.append(".");
    r.append(decimal_string(octet(ip, 8) as u64).as_str());
    r.append(".");
    r.append(decimal_string(octet(ip, 0) as u64).as_str());
    r
}

fn group(ip: u128, shift: u128) -> (r: u16)
    requires
        shift < 128,
    ensures
        r == group_at(ip, shift),
{
    ((ip >> shift) & 0xffffu128) as u16
}

fn groups_of(ip: u128) -> (r: Vec<u16>)
    ensures
        r@ == groups(ip),
{
    let mut r: Vec<u16> = Vec::new();
    r.push(group(ip, 112));
    r.push(group(ip, 96));
    r.push(group(ip, 80));
    r.push(group(ip, 64));
    r.push(group(ip, 48));
    r.push(group(ip, 32));
    r.push(group(ip, 16));
    r.push(group(ip, 0));
    assert(r@ =~= groups(ip));
    r
}

/// The first longest run of zero groups: its start and length.
fn zero_run_of(g: &Vec<u16>) -> (r: (usize, usize))
    ensures
        (r.0 as int, r.1 as int) == zero_run(g@, 0, 0, 0, 0, 0),
        r.0 + r.1 <= g.len(),
{
    let mut i: usize = 0;
    let mut cur_start: usize = 0;
    let mut cur_len: usize = 0;
    let mut best_start: usize = 0;
    let mut best_len: usize = 0;
    while i < g.len()
        invariant
            i <= g.len(),
            best_start + best_len <= i,
            cur_len <= i,
            cur_len > 0 ==> cur_start + cur_len == i,
            zero_run(g@, 0, 0, 0, 0, 0) == zero_run(g@, i as int, cur_start as int, cur_len as int,
                best_start as int, best_len as int),
        decreases g.len() - i,
    {
        if g[i] == 0 {
            if cur_len == 0 {
                cur_start = i;
            }
            cur_len = cur_len + 1;
            if cur_len > best_len {
                best_start = cur_start;
                best_len = cur_len;
            }
        } else {
            cur_start = 0;
            cur_len = 0;
        }
        i += 1;
    }
    (best_start, best_len)
}

/// The groups `g[from..to]` in hexadecimal, separated by `:`.
fn hex_groups_of(g: &Vec<u16>, from: usize, to: usize) -> (r: String)
    requires
        from <= to <= g.len(),
    ensures
        r@ == hex_groups(g@.subrange(from as int, to as int)),
{
    let mut r = String::new();
    let mut k: usize = from;
    assert(g@.subrange(from as int, from as int) =~= Seq::<u16>::empty());
    while k < to
        invariant
            from <= k <= to <= g.len(),
            r@ == hex_groups(g@.subrange(from as int, k as int)),
        decreases to - k,
    {
        let ghost before = r@;
        let ghost t = g@.subrange(from as int, k + 1);
        assert(t.drop_last() =~= g@.subrange(from as int, k as int));
        assert(t.last() == g@[k as int]);
        if k > from {
            r.append(":");
        }
        let h = hex_string(g[k]);
        r.append(h.as_str());
        if k == from {
            assert(before =~= Seq::<char>::empty());
            assert(r@ =~= h@);
        }
        k += 1;
    }
    r
}

/// The text of an IPv6 address.
fn ipv6_string(ip: u128) -> (r: String)
    ensures
        r@ == ipv6_text(ip),
{
    let g = groups_of(ip);
    if g[0] == 0 && g[1] == 0 && g[2] == 0 && g[3] == 0 && g[4] == 0 && g[5] == 0xffff {
        let mut r = String::new();
        r.append("::ffff:");
        r.append(ipv4_string((ip & 0xffff_ffffu128) as u32).as_str());
        r
    } else {
        let (start, len) = zero_run_of(&g);
        if len > 1 {
            let mut r = hex_groups_of(&g, 0, start);
            r.append("::");
            r.append(hex_groups_of(&g, start + len, 8).as_str());
            r
        } else {
            let r = hex_groups_of(&g, 0, 8);
            assert(g@.subrange(0, 8) =~= g@);
            r
        }
    }
}

impl PeerAddr {
    /// The text of the address, as socket addresses are written: dotted
    /// decimal and port for IPv4, `[ipv6%scope]:port` for IPv6.
    pub fn to_display_string(&self) -> (r: String)
        ensures
            r@ == peer_text(*self),
    {
        match self {
            PeerAddr::V4 { ipv4, port } => {
                let mut r = ipv4_string(*ipv4);
                r.append(":");
                r.append(decimal_string(*port as u64).as_str());
                r
            },
            PeerAddr::V6 { ipv6, port, flowinfo, scope_id } => {
                let mut r = String::new();
                r.append("[");
                r.append(ipv6_string(*ipv6).as_str());
                if *scope_id != 0 {
                    r.append("%");
                    r.append(decimal_string(*scope_id as u64).as_str());
                }
                r.append("]:");
                r.append(decimal_string(*port as u64).as_str());
                r
            },
        }
    }
}

} // verus!
