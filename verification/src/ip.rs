//! Internet addresses and their text form.
use crate::text;
use vstd::prelude::*;
use vstd::string::*;

verus! {

/// An internet address, in network byte order.
#[derive(Debug, Clone, Copy, PartialEq, Eq, Hash, PartialOrd, Ord)]
pub enum IpAddr {
    V4([u8; 4]),
    V6([u8; 16]),
}

/// The dotted form of an IPv4 address.
pub open spec fn v4_text(a: u8, b: u8, c: u8, d: u8) -> Seq<char> {
    text::dec(a as nat) + "."@ + text::dec(b as nat) + "."@ + text::dec(c as nat) + "."@
        + text::dec(d as nat)
}

/// The eight 16-bit groups of an IPv6 address.
pub open spec fn segments(octets: Seq<u8>) -> Seq<nat> {
    Seq::new(8, |i: int| (octets[2 * i] * 0x100 + octets[2 * i + 1]) as nat)
}

/// How many zero groups stand in a row from position `i` on.
pub open spec fn zero_run(s: Seq<nat>, i: int) -> nat
    decreases s.len() - i,
{
    if i < 0 || i >= s.len() || s[i] != 0 {
        0
    } else {
        1 + zero_run(s, i + 1)
    }
}

/// Of the first `n` positions, the first one with the longest row of zero
/// groups.
pub open spec fn longest_zero_run(s: Seq<nat>, n: int) -> int
    decreases n,
{
    if n <= 1 {
        0
    } else {
        let best = longest_zero_run(s, n - 1);
        if zero_run(s, n - 1) > zero_run(s, best) {
            n - 1
        } else {
            best
        }
    }
}

/// The hexadecimal numerals of `s` with colons between them.
pub open spec fn groups_text(s: Seq<nat>) -> Seq<char> {
    text::joined(s.map_values(|g: nat| text::hex(g)), ":"@)
}

/// An IPv6 address that stands for an IPv4 address.
pub open spec fn is_v4_mapped(octets: Seq<u8>) -> bool {
    &&& forall|i: int| 0 <= i < 10 ==> #[trigger] octets[i] == 0
    &&& octets[10] == 0xff
    &&& octets[11] == 0xff
}

/// The text form of an IPv6 address: the first of its longest rows of two or
/// more zero groups is written as `::`, and an address that stands for an IPv4
/// address ends in the dotted form.
pub open spec fn v6_text(octets: Seq<u8>) -> Seq<char> {
    let s = segments(octets);
    let start = longest_zero_run(s, 8);
    let len = zero_run(s, start);
    if is_v4_mapped(octets) {
        "::ffff:"@ + v4_text(octets[12], octets[13], octets[14], octets[15])
    } else if len >= 2 {
        groups_text(s.take(start)) + "::"@ + groups_text(s.skip(start + len))
    } else {
        groups_text(s)
    }
}

fn push_v4(out: &mut String, a: u8, b: u8, c: u8, d: u8)
    ensures
        final(out)@ == old(out)@ + v4_text(a, b, c, d),
{
    text::push_dec(out, a as u64);
    out.append(".");
    text::push_dec(out, b as u64);
    out.append(".");
    text::push_dec(out, c as u64);
    out.append(".");
    text::push_dec(out, d as u64);
    assert(out@ =~= old(out)@ + v4_text(a, b, c, d));
}

fn segment(octets: &[u8; 16], i: usize) -> (r: u64)
    requires
        i < 8,
    ensures
        r == segments(octets@)[i as int],
{
    octets[2 * i] as u64 * 0x100 + octets[2 * i + 1] as u64
}

fn push_groups(out: &mut String, octets: &[u8; 16], from: usize, to: usize)
    requires
        from <= to <= 8,
    ensures
        final(out)@ == old(out)@ + groups_text(
            segments(octets@).subrange(from as int, to as int),
        ),
{
    let ghost numerals: Seq<Seq<char>> = segments(octets@).subrange(
        from as int,
        to as int,
    ).map_values(|g: nat| text::hex(g));
    let mut i: usize = from;
    proof {
        assert(numerals.take(0) =~= Seq::empty());
        assert(out@ =~= old(out)@ + text::joined(numerals.take(0), ":"@));
    }
    while i < to
        invariant
            from <= i <= to <= 8,
            numerals == segments(octets@).subrange(from as int, to as int).map_values(
                |g: nat| text::hex(g),
            ),
            out@ == old(out)@ + text::joined(numerals.take(i - from), ":"@),
        decreases to - i,
    {
        let ghost done: Seq<Seq<char>> = numerals.take(i - from);
        if i > from {
            out.append(":");
        }
        text::push_numeral(out, segment(octets, i), 16);
        proof {
            let next = numerals.take(i + 1 - from);
            assert(next.drop_last() =~= done);
            assert(next.last() == text::hex(segments(octets@)[i as int]));
            assert(out@ =~= old(out)@ + text::joined(next, ":"@));
        }
        i += 1;
    }
    assert(numerals.take(i - from) =~= numerals);
}

fn count_zeros(octets: &[u8; 16], i: usize) -> (r: usize)
    requires
        i <= 8,
    ensures
        r == zero_run(segments(octets@), i as int),
        i + r <= 8,
    decreases 8 - i,
{
    if i == 8 || segment(octets, i) != 0 {
        0
    } else {
        1 + count_zeros(octets, i + 1)
    }
}

fn find_zeros(octets: &[u8; 16]) -> (r: usize)
    ensures
        r == longest_zero_run(segments(octets@), 8),
        r < 8,
{
    let mut best: usize = 0;
    let mut n: usize = 1;
    while n < 8
        invariant
            1 <= n <= 8,
            best < n,
            best == longest_zero_run(segments(octets@), n as int),
        decreases 8 - n,
    {
        if count_zeros(octets, n) > count_zeros(octets, best) {
            best = n;
        }
        n += 1;
    }
    best
}

fn maps_v4(octets: &[u8; 16]) -> (r: bool)
    ensures
        r == is_v4_mapped(octets@),
{
    let mut i: usize = 0;
    while i < 10
        invariant
            i <= 10,
            forall|k: int| 0 <= k < i ==> #[trigger] octets@[k] == 0,
        decreases 10 - i,
    {
        if octets[i] != 0 {
            return false;
        }
        i += 1;
    }
    octets[10] == 0xff && octets[11] == 0xff
}

impl IpAddr {
    /// The text form of the address.
    pub open spec fn spec_text(self) -> Seq<char> {
        match self {
            IpAddr::V4(o) => v4_text(o@[0], o@[1], o@[2], o@[3]),
            IpAddr::V6(o) => v6_text(o@),
        }
    }

    /// The text form of the address.
    pub fn to_string(&self) -> (r: String)
        ensures
            r@ == self.spec_text(),
    {
        let mut out = String::new();
        match self {
            IpAddr::V4(o) => {
                push_v4(&mut out, o[0], o[1], o[2], o[3]);
            },
            IpAddr::V6(o) => {
                if maps_v4(o) {
                    out.append("::ffff:");
                    push_v4(&mut out, o[12], o[13], o[14], o[15]);
                } else {
                    let start: usize = find_zeros(o);
                    let len: usize = count_zeros(o, start);
                    let ghost s: Seq<nat> = segments(o@);
                    if len >= 2 {
                        push_groups(&mut out, o, 0, start);
                        out.append("::");
                        push_groups(&mut out, o, start + len, 8);
                        proof {
                            assert(s.subrange(0, start as int) =~= s.take(start as int));
                            assert(s.subrange(start + len, 8) =~= s.skip(start + len));
                        }
                    } else {
                        push_groups(&mut out, o, 0, 8);
                        proof {
                            assert(s.subrange(0, 8) =~= s);
                        }
                    }
                }
            },
        }
        assert(out@ =~= self.spec_text());
        out
    }
}

} // verus!
