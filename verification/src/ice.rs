//! The UDP addresses that ICE listens on, derived from the HTTP listener's
//! address, and the textual forms of IP addresses.
use crate::text::{chars_of, decimal_chars, hex_chars, push_all, push_str, string_of};
use vstd::prelude::*;

verus! {

/// An IP address: four octets, or eight 16-bit groups.
#[derive(Clone, Copy, Debug, PartialEq, Eq)]
pub enum IpAddress {
    V4([u8; 4]),
    V6([u16; 8]),
}

/// Dotted decimal notation of four octets.
pub open spec fn ipv4_text(o: Seq<u8>) -> Seq<char> {
    crate::text::decimal(o[0] as nat) + "."@ + crate::text::decimal(o[1] as nat) + "."@
        + crate::text::decimal(o[2] as nat) + "."@ + crate::text::decimal(o[3] as nat)
}

/// Groups in lowercase hexadecimal without leading zeros, separated by `:`.
pub open spec fn groups_text(g: Seq<u16>) -> Seq<char>
    decreases g.len(),
{
    if g.len() == 0 {
        Seq::empty()
    } else if g.len() == 1 {
        crate::text::hex(g[0] as nat)
    } else {
        groups_text(g.drop_last()) + ":"@ + crate::text::hex(g.last() as nat)
    }
}

/// Groups `start .. start + len` of `g` exist and are all zero.
pub open spec fn is_zero_run(g: Seq<u16>, start: int, len: int) -> bool {
    &&& 0 <= start
    &&& 0 <= len
    &&& start + len <= g.len()
    &&& forall|i: int| start <= i < start + len ==> g[i] == 0
}

/// The longest run of zero groups, the leftmost among equally long ones.
pub open spec fn is_longest_zero_run(g: Seq<u16>, start: int, len: int) -> bool {
    &&& is_zero_run(g, start, len)
    &&& forall|s: int, l: int| is_zero_run(g, s, l) ==> l <= len
    &&& forall|s: int| 0 <= s < start ==> !is_zero_run(g, s, len)
}

/// Whether the address is an IPv4-mapped IPv6 address `::ffff:a.b.c.d`.
pub open spec fn is_ipv4_mapped(g: Seq<u16>) -> bool {
    g[0] == 0 && g[1] == 0 && g[2] == 0 && g[3] == 0 && g[4] == 0 && g[5] == 0xffff
}

/// The groups with the zero run `start .. start + len` written as `::` when it
/// is longer than one group.
pub open spec fn ipv6_text_with(g: Seq<u16>, start: int, len: int) -> Seq<char> {
    if len > 1 {
        groups_text(g.take(start)) + "::"@ + groups_text(g.skip(start + len))
    } else {
        groups_text(g)
    }
}

/// The text of an IPv6 address as `Ipv6Addr`'s `Display` writes it: an
/// IPv4-mapped address as `::ffff:` and dotted decimal; otherwise the groups
/// in hexadecimal with the leftmost longest run of two or more zero groups
/// shortened to `::`.
pub open spec fn ipv6_text(g: Seq<u16>) -> Seq<char> {
    if is_ipv4_mapped(g) {
        "::ffff:"@ + ipv4_text(seq![(g[6] / 256) as u8, (g[6] % 256) as u8, (g[7] / 256) as u8, (g[7] % 256) as u8])
    } else {
        let (start, len) = choose|start: int, len: int| is_longest_zero_run(g, start, len);
        ipv6_text_with(g, start, len)
    }
}

/// There is only one leftmost longest zero run.
pub proof fn lemma_longest_zero_run_unique(g: Seq<u16>, s1: int, l1: int, s2: int, l2: int)
    requires
        is_longest_zero_run(g, s1, l1),
        is_longest_zero_run(g, s2, l2),
    ensures
        s1 == s2,
        l1 == l2,
{
    assert(l1 <= l2);
    assert(l2 <= l1);
    if s1 < s2 {
        assert(!is_zero_run(g, s1, l2));
    }
    if s2 < s1 {
        assert(!is_zero_run(g, s2, l1));
    }
}

fn ipv4_chars(o: &[u8; 4]) -> (r: Vec<char>)
    ensures
        r@ == ipv4_text(o@),
{
    let mut r = decimal_chars(o[0] as u64);
    push_str(&mut r, ".");
    push_all(&mut r, &decimal_chars(o[1] as u64));
    push_str(&mut r, ".");
    push_all(&mut r, &decimal_chars(o[2] as u64));
    push_str(&mut r, ".");
    push_all(&mut r, &decimal_chars(o[3] as u64));
    r
}

/// The groups `from .. to` of `g` in hexadecimal, separated by `:`.
fn groups_chars(g: &[u16; 8], from: usize, to: usize) -> (r: Vec<char>)
    requires
        from <= to <= 8,
    ensures
        r@ == groups_text(g@.subrange(from as int, to as int)),
{
    let mut r: Vec<char> = Vec::new();
    let mut k: usize = from;
    assert(g@.subrange(from as int, from as int) =~= Seq::<u16>::empty());
    while k < to
        invariant
            from <= k <= to <= 8,
            g@.len() == 8,
            r@ == groups_text(g@.subrange(from as int, k as int)),
        decreases to - k,
    {
        let ghost next = g@.subrange(from as int, k + 1);
        assert(next.drop_last() =~= g@.subrange(from as int, k as int));
        assert(next.last() == g@[k as int]);
        if k > from {
            push_str(&mut r, ":");
        } else {
            assert(next.len() == 1);
        }
        push_all(&mut r, &hex_chars(g[k] as u64));
        k += 1;
    }
    r
}

/// The leftmost longest run of zero groups, found in one pass.
fn longest_zero_run(g: &[u16; 8]) -> (r: (usize, usize))
    ensures
        is_longest_zero_run(g@, r.0 as int, r.1 as int),
{
    let ghost gs = g@;
    let mut best_start: usize = 0;
    let mut best_len: usize = 0;
    let mut cur_start: usize = 0;
    let mut cur_len: usize = 0;
    let mut i: usize = 0;
    while i < 8
        invariant
            gs == g@,
            gs.len() == 8,
            i <= 8,
            is_zero_run(gs, best_start as int, best_len as int),
            best_start + best_len <= i,
            forall|s: int, l: int| is_zero_run(gs, s, l) && s + l <= i ==> l <= best_len,
            forall|s: int| 0 <= s < best_start ==> !is_zero_run(gs, s, best_len as int),
            cur_len <= i,
            cur_len <= best_len,
            cur_len > 0 ==> cur_start == i - cur_len,
            is_zero_run(gs, i - cur_len, cur_len as int),
            i - cur_len == 0 || gs[i - cur_len - 1] != 0,
        decreases 8 - i,
    {
        if g[i] == 0 {
            if cur_len == 0 {
                cur_start = i;
            }
            cur_len += 1;
            assert(is_zero_run(gs, (i + 1) - cur_len, cur_len as int));
            assert forall|s: int, l: int| is_zero_run(gs, s, l) && s + l <= i + 1 implies l <= (if cur_len > best_len { cur_len } else { best_len }) by {
                if s + l == i + 1 && l > cur_len {
                    assert(gs[i + 1 - cur_len - 1] == 0);
                }
            }
            if cur_len > best_len {
                assert forall|s: int| 0 <= s < cur_start implies !is_zero_run(gs, s, cur_len as int) by {
                    if is_zero_run(gs, s, cur_len as int) {
                        assert(s + cur_len <= i);
                    }
                }
                best_start = cur_start;
                best_len = cur_len;
            }
        } else {
            assert forall|s: int, l: int| is_zero_run(gs, s, l) && s + l <= i + 1 implies l <= best_len by {
                if s + l == i + 1 && l > 0 {
                    assert(gs[i as int] == 0);
                }
            }
            cur_len = 0;
            cur_start = 0;
        }
        i += 1;
    }
    (best_start, best_len)
}

/// The text of an IPv6 address, as `Ipv6Addr` displays it.
pub fn ipv6_chars(g: &[u16; 8]) -> (r: Vec<char>)
    ensures
        r@ == ipv6_text(g@),
{
    if g[0] == 0 && g[1] == 0 && g[2] == 0 && g[3] == 0 && g[4] == 0 && g[5] == 0xffff {
        let octets: [u8; 4] = [(g[6] / 256) as u8, (g[6] % 256) as u8, (g[7] / 256) as u8, (g[7] % 256) as u8];
        let mut r = chars_of("::ffff:");
        push_all(&mut r, &ipv4_chars(&octets));
        assert(octets@ =~= seq![(g@[6] / 256) as u8, (g@[6] % 256) as u8, (g@[7] / 256) as u8, (g@[7] % 256) as u8]);
        return r;
    }
    let (start, len) = longest_zero_run(g);
    proof {
        let (cs, cl) = choose|s: int, l: int| is_longest_zero_run(g@, s, l);
        lemma_longest_zero_run_unique(g@, cs, cl, start as int, len as int);
    }
    if len > 1 {
        let mut r = groups_chars(g, 0, start);
        push_str(&mut r, "::");
        push_all(&mut r, &groups_chars(g, start + len, 8));
        assert(g@.subrange(0, start as int) =~= g@.take(start as int));
        assert(g@.subrange((start + len) as int, 8) =~= g@.skip((start + len) as int));
        r
    } else {
        let r = groups_chars(g, 0, 8);
        assert(g@.subrange(0, 8) =~= g@);
        r
    }
}

/// The text of an address, as `IpAddr`'s `Display` writes it.
pub open spec fn ip_address_text(addr: IpAddress) -> Seq<char> {
    match addr {
        IpAddress::V4(o) => ipv4_text(o@),
        IpAddress::V6(g) => ipv6_text(g@),
    }
}

/// The text of an address.
pub fn ip_address_chars(addr: &IpAddress) -> (r: Vec<char>)
    ensures
        r@ == ip_address_text(*addr),
{
    match addr {
        IpAddress::V4(o) => ipv4_chars(o),
        IpAddress::V6(g) => ipv6_chars(g),
    }
}

/// The UDP addresses for ICE on a listener bound to `bind`: the same
/// interface with any port, and both IPv4 and IPv6 for the IPv6 wildcard.
pub open spec fn ice_addrs_text(bind: IpAddress) -> Seq<Seq<char>> {
    match bind {
        IpAddress::V4(o) => seq![ipv4_text(o@) + ":0"@],
        IpAddress::V6(g) => if g@ == seq![0u16, 0, 0, 0, 0, 0, 0, 0] {
            seq!["0.0.0.0:0"@, "[::]:0"@]
        } else {
            seq!["["@ + ipv6_text(g@) + "]:0"@]
        },
    }
}

/// The UDP addresses ICE listens on for a listener bound to `bind`.
pub fn ice_udp_addrs(bind: IpAddress) -> (addrs: Vec<String>)
    ensures
        crate::audio::string_views(addrs@) == ice_addrs_text(bind),
{
    let mut addrs: Vec<String> = Vec::new();
    match bind {
        IpAddress::V4(o) => {
            let mut t = ipv4_chars(&o);
            push_str(&mut t, ":0");
            addrs.push(string_of(&t));
        },
        IpAddress::V6(g) => {
            if g[0] == 0 && g[1] == 0 && g[2] == 0 && g[3] == 0 && g[4] == 0 && g[5] == 0 && g[6] == 0
                && g[7] == 0 {
                assert(g@ =~= seq![0u16, 0, 0, 0, 0, 0, 0, 0]);
                addrs.push(String::from_str("0.0.0.0:0"));
                addrs.push(String::from_str("[::]:0"));
            } else {
                assert(g@ != seq![0u16, 0, 0, 0, 0, 0, 0, 0]) by {
                    if g@ == seq![0u16, 0, 0, 0, 0, 0, 0, 0] {
                        assert(g@[0] == 0 && g@[1] == 0 && g@[2] == 0 && g@[3] == 0);
                        assert(g@[4] == 0 && g@[5] == 0 && g@[6] == 0 && g@[7] == 0);
                    }
                }
                let mut t = chars_of("[");
                push_all(&mut t, &ipv6_chars(&g));
                push_str(&mut t, "]:0");
                addrs.push(string_of(&t));
            }
        },
    }
    assert(crate::audio::string_views(addrs@) =~= ice_addrs_text(bind));
    addrs
}

} // verus!
