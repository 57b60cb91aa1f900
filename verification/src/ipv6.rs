//! Network socket addresses of the sixth version of the protocol, as values
//! and as text: eight groups of sixteen bits, a zone, and a port.

use crate::hex::{
    hex_char, hex_digit_of, hex_digits, hex_end, hex_value, is_hex, lemma_hex_digits,
    lemma_hex_end_bounds, lemma_hex_end_run, lemma_hex_value_bound, push_hex, read_hex,
};
use crate::text::{
    decimal_digits, decimal_string, decimal_value, digits_end, lemma_decimal_digits,
    lemma_digits_end_bounds, lemma_digits_end_run, read_digits,
};
use crate::transport::{
    has_char, holds, lemma_quad_at_text, octet_at, port_at, quad_at, quad_text, read_quad,
    scan_digits,
};
use vstd::prelude::*;

verus! {

/// The eight groups of an address, first group first.
#[derive(Debug, Clone, Copy, PartialEq, Eq, Structural)]
pub struct Ipv6Groups {
    pub g0: u16,
    pub g1: u16,
    pub g2: u16,
    pub g3: u16,
    pub g4: u16,
    pub g5: u16,
    pub g6: u16,
    pub g7: u16,
}

/// A network socket address of the sixth version: the groups of the host,
/// the zone (zero for none), and the port.
#[derive(Debug, Clone, Copy, PartialEq, Eq, Structural)]
pub struct SocketAddrV6 {
    pub groups: Ipv6Groups,
    pub scope_id: u32,
    pub port: u16,
}

impl Ipv6Groups {
    /// The groups as a sequence.
    pub open spec fn seq(self) -> Seq<u16> {
        seq![self.g0, self.g1, self.g2, self.g3, self.g4, self.g5, self.g6, self.g7]
    }
}

/// The group that starts at index `i`, with the index after it: one to four
/// hexadecimal digits.
pub open spec fn group_at(s: Seq<char>, i: int) -> Option<(u16, int)> {
    let e = hex_end(s, i);
    if 1 <= e - i <= 4 {
        Some((hex_value(s.subrange(i, e)) as u16, e))
    } else {
        None
    }
}

/// The groups that are read from index `pos` on, where `k` groups have been
/// read before and `limit` may be read in all: the groups, the index after
/// them, and whether they end in four octets.
///
/// Every group but the very first is preceded by a colon. Where two groups
/// or more may still be read, four octets separated by dots are read as two
/// groups, and end the reading. Reading stops without taking the colon where
/// no group follows it.
pub open spec fn groups_from(s: Seq<char>, pos: int, k: int, limit: int) -> (Seq<u16>, int, bool)
    decreases limit - k,
{
    if k >= limit {
        (Seq::empty(), pos, false)
    } else if k > 0 && !holds(s, pos, ':') {
        (Seq::empty(), pos, false)
    } else {
        let start = if k > 0 {
            pos + 1
        } else {
            pos
        };
        if k < limit - 1 && quad_at(s, start) is Some {
            let ((a, b, c, d), e) = quad_at(s, start)->0;
            (seq![(a * 256 + b) as u16, (c * 256 + d) as u16], e, true)
        } else {
            match group_at(s, start) {
                None => (Seq::empty(), pos, false),
                Some((g, e)) => {
                    let rest = groups_from(s, e, k + 1, limit);
                    (seq![g] + rest.0, rest.1, rest.2)
                },
            }
        }
    }
}

/// This many groups of zero.
pub open spec fn zero_groups(n: int) -> Seq<u16> {
    Seq::new(n as nat, |i: int| 0u16)
}

/// The eight groups that are read from index `pos` on, with the index after
/// them: either eight groups, or fewer groups around one double colon, which
/// stands for the groups of zero that are missing, at least one. Four octets
/// may stand for the last two groups, not before the double colon.
pub open spec fn ipv6_at(s: Seq<char>, pos: int) -> Option<(Seq<u16>, int)> {
    let head = groups_from(s, pos, 0, 8);
    if head.0.len() == 8 {
        Some((head.0, head.1))
    } else if head.2 {
        None
    } else if !(holds(s, head.1, ':') && holds(s, head.1 + 1, ':')) {
        None
    } else {
        let tail = groups_from(s, head.1 + 2, 0, 7 - head.0.len());
        Some((head.0 + zero_groups(8 - head.0.len() - tail.0.len()) + tail.0, tail.1))
    }
}

/// The zone that is read at index `p`, with the index after it: a percent
/// sign and a decimal number of 32 bits, or else no zone, and nothing read.
pub open spec fn scope_at(s: Seq<char>, p: int) -> (u32, int) {
    let e = digits_end(s, p + 1);
    if holds(s, p, '%') && e > p + 1 && decimal_value(s.subrange(p + 1, e)) <= u32::MAX {
        (decimal_value(s.subrange(p + 1, e)) as u32, e)
    } else {
        (0, p)
    }
}

/// What a text reads as a socket address of the sixth version: the groups in
/// square brackets, with the zone where there is one, a colon, and the port.
pub open spec fn parse_socket_v6(s: Seq<char>) -> Option<SocketAddrV6> {
    if !holds(s, 0, '[') {
        None
    } else {
        match ipv6_at(s, 1) {
            None => None,
            Some((groups, p)) => {
                let (scope_id, q) = scope_at(s, p);
                if !(holds(s, q, ']') && holds(s, q + 1, ':')) {
                    None
                } else {
                    match port_at(s, q + 2) {
                        None => None,
                        Some(port) => Some(
                            SocketAddrV6 {
                                groups: Ipv6Groups {
                                    g0: groups[0],
                                    g1: groups[1],
                                    g2: groups[2],
                                    g3: groups[3],
                                    g4: groups[4],
                                    g5: groups[5],
                                    g6: groups[6],
                                    g7: groups[7],
                                },
                                scope_id,
                                port,
                            },
                        ),
                    }
                }
            },
        }
    }
}

/// The text of groups: each in lower-case hexadecimal digits without leading
/// zeros, with colons between them.
pub open spec fn join_groups(groups: Seq<u16>) -> Seq<char>
    decreases groups.len(),
{
    if groups.len() == 0 {
        Seq::empty()
    } else if groups.len() == 1 {
        hex_digits(groups[0] as nat)
    } else {
        hex_digits(groups[0] as nat) + seq![':'] + join_groups(groups.drop_first())
    }
}

/// The number of groups of zero in a row from index `i` on.
pub open spec fn zero_run(groups: Seq<u16>, i: int) -> int
    decreases groups.len() - i,
{
    if 0 <= i < groups.len() && groups[i] == 0 {
        1 + zero_run(groups, i + 1)
    } else {
        0
    }
}

/// The longest run of groups of zero that starts at index `i` or later: its
/// start and its length. Of two runs of the same length it is the first.
/// Without a group of zero the length is zero.
pub open spec fn longest_zero_run(groups: Seq<u16>, i: int) -> (int, int)
    decreases groups.len() - i,
{
    if 0 <= i < groups.len() {
        let later = longest_zero_run(groups, i + 1);
        let here = zero_run(groups, i);
        if here > 0 && here >= later.1 {
            (i, here)
        } else {
            later
        }
    } else {
        (i, 0)
    }
}

/// Whether the groups hold an address of the fourth version: five groups of
/// zero, one of ones, and the four octets.
pub open spec fn is_mapped(groups: Seq<u16>) -> bool {
    groups[0] == 0 && groups[1] == 0 && groups[2] == 0 && groups[3] == 0 && groups[4] == 0
        && groups[5] == 0xffff
}

/// The prefix of the text of a mapped address.
pub open spec fn mapped_prefix() -> Seq<char> {
    seq![':', ':', 'f', 'f', 'f', 'f', ':']
}

/// The canonical text of eight groups. A mapped address is written with its
/// four octets. Otherwise the longest run of two or more groups of zero is
/// written as a double colon.
pub open spec fn groups_text(groups: Seq<u16>) -> Seq<char> {
    if is_mapped(groups) {
        mapped_prefix() + quad_text(
            (groups[6] / 256) as u8,
            (groups[6] % 256) as u8,
            (groups[7] / 256) as u8,
            (groups[7] % 256) as u8,
        )
    } else {
        let (start, len) = longest_zero_run(groups, 0);
        if len > 1 {
            join_groups(groups.subrange(0, start)) + seq![':', ':'] + join_groups(
                groups.subrange(start + len, 8),
            )
        } else {
            join_groups(groups)
        }
    }
}

/// The text of a zone: nothing for no zone, else a percent sign and the
/// number.
pub open spec fn scope_text(scope_id: u32) -> Seq<char> {
    if scope_id == 0 {
        Seq::empty()
    } else {
        seq!['%'] + decimal_digits(scope_id as nat)
    }
}

impl SocketAddrV6 {
    /// The canonical text: `[groups]:port`, or `[groups%zone]:port`.
    pub open spec fn text(self) -> Seq<char> {
        seq!['['] + groups_text(self.groups.seq()) + scope_text(self.scope_id) + seq![']', ':']
            + decimal_digits(self.port as nat)
    }
}

fn scan_hex(chars: &Vec<char>, from: usize) -> (end: usize)
    requires
        from <= chars.len(),
    ensures
        end == hex_end(chars@, from as int),
        from <= end <= chars.len(),
{
    let mut i = from;
    while i < chars.len() && hex_digit_of(chars[i]).is_some()
        invariant
            from <= i <= chars.len(),
            hex_end(chars@, from as int) == hex_end(chars@, i as int),
        decreases chars.len() - i,
    {
        i = i + 1;
    }
    i
}

fn read_group(chars: &Vec<char>, from: usize) -> (group: Option<(u16, usize)>)
    requires
        from <= chars.len(),
    ensures
        match group_at(chars@, from as int) {
            Some((value, end)) => group == Some((value, end as usize)) && from < end
                <= chars.len(),
            None => group is None,
        },
{
    let end = scan_hex(chars, from);
    proof {
        lemma_hex_end_bounds(chars@, from as int);
        if end - from <= 4 {
            lemma_hex_value_bound(chars@.subrange(from as int, end as int));
        }
    }
    let len = end - from;
    if len < 1 || len > 4 {
        return None;
    }
    Some((read_hex(chars, from, end), end))
}

fn read_groups(chars: &Vec<char>, pos: usize, k: usize, limit: usize) -> (read: (
    Vec<u16>,
    usize,
    bool,
))
    requires
        pos <= chars.len(),
        limit <= 8,
    ensures
        read.0@ == groups_from(chars@, pos as int, k as int, limit as int).0,
        read.1 == groups_from(chars@, pos as int, k as int, limit as int).1,
        read.2 == groups_from(chars@, pos as int, k as int, limit as int).2,
        pos <= read.1 <= chars.len(),
        k < limit ==> read.0@.len() <= limit - k,
        k >= limit ==> read.0@.len() == 0,
    decreases limit - k,
{
    if k >= limit {
        return (Vec::new(), pos, false);
    }
    if k > 0 && !has_char(chars, pos, ':') {
        return (Vec::new(), pos, false);
    }
    let start = if k > 0 {
        pos + 1
    } else {
        pos
    };
    if k + 1 < limit {
        match read_quad(chars, start) {
            Some(((a, b, c, d), end)) => {
                let mut groups: Vec<u16> = Vec::new();
                groups.push((a as u16) * 256 + (b as u16));
                groups.push((c as u16) * 256 + (d as u16));
                proof {
                    assert(groups@ =~= seq![(a * 256 + b) as u16, (c * 256 + d) as u16]);
                }
                return (groups, end, true);
            },
            None => {},
        }
    }
    match read_group(chars, start) {
        None => (Vec::new(), pos, false),
        Some((group, end)) => {
            let (mut rest, after, quad) = read_groups(chars, end, k + 1, limit);
            let ghost tail = rest@;
            rest.insert(0, group);
            proof {
                assert(rest@ =~= seq![group] + tail);
            }
            (rest, after, quad)
        },
    }
}

fn read_ipv6(chars: &Vec<char>, pos: usize) -> (read: Option<(Vec<u16>, usize)>)
    requires
        pos <= chars.len(),
    ensures
        match ipv6_at(chars@, pos as int) {
            Some((groups, end)) => read matches Some((found, after)) && found@ == groups && after
                == end && groups.len() == 8 && pos <= end <= chars.len(),
            None => read is None,
        },
{
    let (head, p1, quad) = read_groups(chars, pos, 0, 8);
    if head.len() == 8 {
        return Some((head, p1));
    }
    if quad {
        return None;
    }
    if !(has_char(chars, p1, ':') && has_char(chars, p1 + 1, ':')) {
        return None;
    }
    let (tail, p2, _) = read_groups(chars, p1 + 2, 0, 7 - head.len());
    let ghost front = head@;
    let missing = 8 - head.len() - tail.len();
    let mut groups = head;
    let mut i: usize = 0;
    while i < missing
        invariant
            i <= missing,
            groups@ == front + zero_groups(i as int),
        decreases missing - i,
    {
        groups.push(0);
        proof {
            assert(groups@ =~= front + zero_groups(i + 1));
        }
        i = i + 1;
    }
    let mut j: usize = 0;
    while j < tail.len()
        invariant
            j <= tail@.len(),
            groups@ == front + zero_groups(missing as int) + tail@.subrange(0, j as int),
        decreases tail@.len() - j,
    {
        groups.push(tail[j]);
        proof {
            assert(groups@ =~= front + zero_groups(missing as int) + tail@.subrange(0, j + 1));
        }
        j = j + 1;
    }
    proof {
        assert(tail@.subrange(0, tail@.len() as int) =~= tail@);
    }
    Some((groups, p2))
}

fn read_scope(chars: &Vec<char>, p: usize) -> (read: (u32, usize))
    requires
        p <= chars.len(),
    ensures
        read.0 == scope_at(chars@, p as int).0,
        read.1 == scope_at(chars@, p as int).1,
        p <= read.1 <= chars.len(),
{
    if !has_char(chars, p, '%') {
        return (0, p);
    }
    let end = scan_digits(chars, p + 1);
    proof {
        lemma_digits_end_bounds(chars@, p + 1);
    }
    match read_digits(chars, p + 1, end, 0xffff_ffff) {
        Some(value) => (value as u32, end),
        None => (0, p),
    }
}

/// Reads a socket address of the sixth version.
pub fn read_socket_v6(chars: &Vec<char>) -> (parsed: Option<SocketAddrV6>)
    ensures
        parsed == parse_socket_v6(chars@),
{
    if !has_char(chars, 0, '[') {
        return None;
    }
    let (groups, p) = match read_ipv6(chars, 1) {
        None => {
            return None;
        },
        Some(found) => found,
    };
    let (scope_id, q) = read_scope(chars, p);
    if !(has_char(chars, q, ']') && has_char(chars, q + 1, ':')) {
        return None;
    }
    match read_digits(chars, q + 2, chars.len(), 65535) {
        None => None,
        Some(port) => Some(
            SocketAddrV6 {
                groups: Ipv6Groups {
                    g0: groups[0],
                    g1: groups[1],
                    g2: groups[2],
                    g3: groups[3],
                    g4: groups[4],
                    g5: groups[5],
                    g6: groups[6],
                    g7: groups[7],
                },
                scope_id,
                port: port as u16,
            },
        ),
    }
}

fn groups_vec(groups: &Ipv6Groups) -> (out: Vec<u16>)
    ensures
        out@ == groups.seq(),
{
    let mut out: Vec<u16> = Vec::new();
    out.push(groups.g0);
    out.push(groups.g1);
    out.push(groups.g2);
    out.push(groups.g3);
    out.push(groups.g4);
    out.push(groups.g5);
    out.push(groups.g6);
    out.push(groups.g7);
    proof {
        assert(out@ =~= groups.seq());
    }
    out
}

fn push_groups(out: &mut String, groups: &Vec<u16>, from: usize, to: usize)
    requires
        from <= to <= groups.len(),
    ensures
        final(out)@ == old(out)@ + join_groups(groups@.subrange(from as int, to as int)),
    decreases to - from,
{
    let ghost part = groups@.subrange(from as int, to as int);
    if from == to {
        proof {
            assert(out@ =~= old(out)@ + join_groups(part));
        }
        return ;
    }
    proof {
        reveal_strlit(":");
        assert(":"@ =~= seq![':']);
        assert(part[0] == groups@[from as int]);
        assert(part.drop_first() =~= groups@.subrange(from + 1, to as int));
    }
    push_hex(out, groups[from] as u32);
    if from + 1 < to {
        out.append(":");
        push_groups(out, groups, from + 1, to);
    }
    proof {
        assert(out@ =~= old(out)@ + join_groups(part));
    }
}

fn find_longest_zero_run(groups: &Vec<u16>) -> (run: (usize, usize))
    ensures
        run.0 == longest_zero_run(groups@, 0).0,
        run.1 == longest_zero_run(groups@, 0).1,
        run.0 + run.1 <= groups@.len(),
{
    let n = groups.len();
    let mut i: usize = n;
    let mut here: usize = 0;
    let mut best: (usize, usize) = (n, 0);
    while i > 0
        invariant
            i <= n,
            n == groups@.len(),
            here == zero_run(groups@, i as int),
            here <= n - i,
            best.0 == longest_zero_run(groups@, i as int).0,
            best.1 == longest_zero_run(groups@, i as int).1,
            best.0 + best.1 <= n,
        decreases i,
    {
        i = i - 1;
        if groups[i] == 0 {
            here = here + 1;
        } else {
            here = 0;
        }
        if here > 0 && here >= best.1 {
            best = (i, here);
        }
    }
    best
}

fn push_quad(out: &mut String, a: u8, b: u8, c: u8, d: u8)
    ensures
        final(out)@ == old(out)@ + quad_text(a, b, c, d),
{
    proof {
        reveal_strlit(".");
        assert("."@ =~= seq!['.']);
    }
    let ta = decimal_string(a as u64);
    let tb = decimal_string(b as u64);
    let tc = decimal_string(c as u64);
    let td = decimal_string(d as u64);
    out.append(ta.as_str());
    out.append(".");
    out.append(tb.as_str());
    out.append(".");
    out.append(tc.as_str());
    out.append(".");
    out.append(td.as_str());
    proof {
        assert(out@ =~= old(out)@ + quad_text(a, b, c, d));
    }
}

impl SocketAddrV6 {
    pub fn to_string(&self) -> (out: String)
        ensures
            out@ == self.text(),
    {
        proof {
            reveal_strlit("[");
            reveal_strlit("::ffff:");
            reveal_strlit("::");
            reveal_strlit("%");
            reveal_strlit("]:");
            assert("["@ =~= seq!['[']);
            assert("::ffff:"@ =~= mapped_prefix());
            assert("::"@ =~= seq![':', ':']);
            assert("%"@ =~= seq!['%']);
            assert("]:"@ =~= seq![']', ':']);
        }
        let groups = groups_vec(&self.groups);
        let mut out = String::from_str("[");
        if groups[0] == 0 && groups[1] == 0 && groups[2] == 0 && groups[3] == 0 && groups[4] == 0
            && groups[5] == 0xffff {
            out.append("::ffff:");
            push_quad(
                &mut out,
                (groups[6] / 256) as u8,
                (groups[6] % 256) as u8,
                (groups[7] / 256) as u8,
                (groups[7] % 256) as u8,
            );
        } else {
            let (start, len) = find_longest_zero_run(&groups);
            if len > 1 {
                push_groups(&mut out, &groups, 0, start);
                out.append("::");
                push_groups(&mut out, &groups, start + len, 8);
            } else {
                proof {
                    assert(groups@.subrange(0, 8) =~= groups@);
                }
                push_groups(&mut out, &groups, 0, 8);
            }
        }
        proof {
            assert(out@ =~= seq!['['] + groups_text(self.groups.seq()));
        }
        if self.scope_id != 0 {
            let zone = decimal_string(self.scope_id as u64);
            out.append("%");
            out.append(zone.as_str());
        }
        proof {
            assert(out@ =~= seq!['['] + groups_text(self.groups.seq()) + scope_text(self.scope_id));
        }
        let port = decimal_string(self.port as u64);
        out.append("]:");
        out.append(port.as_str());
        proof {
            assert(out@ =~= self.text());
        }
        out
    }
}

/// Whether the text `t` stands in `s` from index `pos` on.
pub open spec fn text_at(s: Seq<char>, pos: int, t: Seq<char>) -> bool {
    0 <= pos && pos + t.len() <= s.len() && s.subrange(pos, pos + t.len()) == t
}

/// The text that is read as the groups `groups` after `k` groups: their text,
/// after a colon where groups were read before.
pub open spec fn more_groups_text(groups: Seq<u16>, k: int) -> Seq<char> {
    if groups.len() == 0 {
        Seq::empty()
    } else if k > 0 {
        seq![':'] + join_groups(groups)
    } else {
        join_groups(groups)
    }
}

/// Whether reading groups stops at index `e` after `k` groups: after the
/// first group, there is no colon, or no hexadecimal digit after the colon.
pub open spec fn halts(s: Seq<char>, e: int, k: int) -> bool {
    k == 0 || !holds(s, e, ':') || e + 1 >= s.len() || !is_hex(s[e + 1])
}

proof fn lemma_text_at_index(s: Seq<char>, pos: int, t: Seq<char>, k: int)
    requires
        text_at(s, pos, t),
        0 <= k < t.len(),
    ensures
        s[pos + k] == t[k],
{
    assert(s.subrange(pos, pos + t.len())[k] == s[pos + k]);
}

proof fn lemma_text_at_part(s: Seq<char>, pos: int, t: Seq<char>, from: int, to: int)
    requires
        text_at(s, pos, t),
        0 <= from <= to <= t.len(),
    ensures
        text_at(s, pos + from, t.subrange(from, to)),
{
    let part = t.subrange(from, to);
    assert forall|k: int| 0 <= k < part.len() implies s.subrange(pos + from, pos + to)[k]
        == part[k] by {
        lemma_text_at_index(s, pos, t, from + k);
    }
    assert(s.subrange(pos + from, pos + from + part.len()) =~= part);
}

proof fn lemma_digits_end_within_hex_end(s: Seq<char>, i: int)
    requires
        0 <= i <= s.len(),
    ensures
        i <= digits_end(s, i) <= hex_end(s, i) <= s.len(),
    decreases s.len() - i,
{
    if i < s.len() && is_hex(s[i]) {
        lemma_digits_end_within_hex_end(s, i + 1);
    }
}

/// No four octets are read where the run of hexadecimal digits is followed
/// by something other than a dot.
proof fn lemma_no_quad(s: Seq<char>, p: int)
    requires
        0 <= p <= s.len(),
        hex_end(s, p) == s.len() || s[hex_end(s, p)] != '.',
    ensures
        quad_at(s, p) is None,
{
    lemma_digits_end_within_hex_end(s, p);
    lemma_hex_end_bounds(s, p);
    let e1 = digits_end(s, p);
    let he = hex_end(s, p);
    if e1 < he {
        assert(s.subrange(p, he)[e1 - p] == s[e1]);
        assert(is_hex(s[e1]));
    }
}

/// Where the hexadecimal digits of `g` stand at index `p` and no hexadecimal
/// digit follows them, the group at `p` is `g`.
proof fn lemma_group_at_text(s: Seq<char>, p: int, g: u16)
    requires
        text_at(s, p, hex_digits(g as nat)),
        p + hex_digits(g as nat).len() == s.len() || !is_hex(s[p + hex_digits(g as nat).len()]),
    ensures
        group_at(s, p) == Some((g, p + hex_digits(g as nat).len())),
        hex_end(s, p) == p + hex_digits(g as nat).len(),
{
    lemma_hex_digits(g as nat);
    lemma_hex_end_run(s, p, p + hex_digits(g as nat).len());
}

/// The text of groups is read as those groups.
proof fn lemma_groups_read(s: Seq<char>, pos: int, k: int, limit: int, groups: Seq<u16>)
    requires
        0 <= k,
        k + groups.len() <= limit,
        text_at(s, pos, more_groups_text(groups, k)),
        pos + more_groups_text(groups, k).len() == s.len() || (!is_hex(
            s[pos + more_groups_text(groups, k).len()],
        ) && s[pos + more_groups_text(groups, k).len()] != '.'),
        k + groups.len() < limit ==> halts(
            s,
            pos + more_groups_text(groups, k).len(),
            k + groups.len(),
        ),
    ensures
        groups_from(s, pos, k, limit) == (groups, pos + more_groups_text(groups, k).len(), false),
    decreases groups.len(),
{
    let t = more_groups_text(groups, k);
    let end = pos + t.len();
    if groups.len() == 0 {
        if k < limit {
            let start = if k > 0 {
                pos + 1
            } else {
                pos
            };
            if k == 0 || holds(s, pos, ':') {
                assert(hex_end(s, start) == start);
                assert(digits_end(s, start) == start);
                assert(octet_at(s, start) is None);
            }
        }
    } else {
        let g = groups[0];
        let rest = groups.drop_first();
        let digits = hex_digits(g as nat);
        lemma_hex_digits(g as nat);
        let start = if k > 0 {
            pos + 1
        } else {
            pos
        };
        let lead = start - pos;
        if k > 0 {
            lemma_text_at_index(s, pos, t, 0);
            assert(holds(s, pos, ':'));
        }
        let e0 = start + digits.len();
        let joined = join_groups(groups);
        assert(t.subrange(lead, lead + digits.len()) =~= digits);
        lemma_text_at_part(s, pos, t, lead, lead + digits.len());
        if rest.len() > 0 {
            lemma_text_at_index(s, pos, t, lead + digits.len());
            assert(s[e0] == ':');
            assert(t.subrange(lead + digits.len(), t.len() as int) =~= more_groups_text(
                rest,
                k + 1,
            ));
        } else {
            assert(e0 == end);
            assert(more_groups_text(rest, k + 1) =~= Seq::<char>::empty());
            assert(t.subrange(lead + digits.len(), t.len() as int) =~= more_groups_text(
                rest,
                k + 1,
            ));
        }
        lemma_text_at_part(s, pos, t, lead + digits.len(), t.len() as int);
        lemma_group_at_text(s, start, g);
        lemma_no_quad(s, start);
        lemma_groups_read(s, e0, k + 1, limit, rest);
        assert(seq![g] + rest =~= groups);
    }
}

proof fn lemma_zero_run(groups: Seq<u16>, i: int)
    requires
        0 <= i <= groups.len(),
    ensures
        0 <= zero_run(groups, i),
        i + zero_run(groups, i) <= groups.len(),
        forall|j: int| i <= j < i + zero_run(groups, i) ==> #[trigger] groups[j] == 0,
    decreases groups.len() - i,
{
    if i < groups.len() && groups[i] == 0 {
        lemma_zero_run(groups, i + 1);
    }
}

/// The longest run of groups of zero is a run of groups of zero.
proof fn lemma_longest_zero_run(groups: Seq<u16>, i: int)
    requires
        0 <= i <= groups.len(),
    ensures
        0 <= longest_zero_run(groups, i).1,
        longest_zero_run(groups, i).1 > 0 ==> i <= longest_zero_run(groups, i).0,
        longest_zero_run(groups, i).0 + longest_zero_run(groups, i).1 <= groups.len(),
        forall|j: int|
            longest_zero_run(groups, i).0 <= j < longest_zero_run(groups, i).0 + longest_zero_run(
                groups,
                i,
            ).1 ==> #[trigger] groups[j] == 0,
    decreases groups.len() - i,
{
    if i < groups.len() {
        lemma_longest_zero_run(groups, i + 1);
        lemma_zero_run(groups, i);
    }
}

proof fn lemma_all_ones_text()
    ensures
        hex_digits(0xffff) == seq!['f', 'f', 'f', 'f'],
{
    assert(hex_digits(15) =~= seq!['f']);
    assert(hex_digits(255) =~= seq!['f', 'f']) by {
        assert(hex_digits(255) == hex_digits(15).push(hex_char(15)));
    }
    assert(hex_digits(4095) =~= seq!['f', 'f', 'f']) by {
        assert(hex_digits(4095) == hex_digits(255).push(hex_char(15)));
    }
    assert(hex_digits(65535) =~= seq!['f', 'f', 'f', 'f']) by {
        assert(hex_digits(65535) == hex_digits(4095).push(hex_char(15)));
    }
}

/// The text of a mapped address is read as its groups.
proof fn lemma_mapped_text_read(s: Seq<char>, pos: int, groups: Seq<u16>)
    requires
        groups.len() == 8,
        is_mapped(groups),
        text_at(s, pos, groups_text(groups)),
        pos + groups_text(groups).len() < s.len(),
        s[pos + groups_text(groups).len()] == ']' || s[pos + groups_text(groups).len()] == '%',
    ensures
        ipv6_at(s, pos) == Some((groups, pos + groups_text(groups).len())),
{
    let t = groups_text(groups);
    let end = pos + t.len();
    let a = (groups[6] / 256) as u8;
    let b = (groups[6] % 256) as u8;
    let c = (groups[7] / 256) as u8;
    let d = (groups[7] % 256) as u8;
    let quad = quad_text(a, b, c, d);
    lemma_all_ones_text();
    assert(t.len() == 7 + quad.len());
    lemma_text_at_index(s, pos, t, 0);
    lemma_text_at_index(s, pos, t, 1);
    lemma_text_at_index(s, pos, t, 2);
    lemma_text_at_index(s, pos, t, 6);
    assert(s[pos] == ':' && s[pos + 1] == ':' && s[pos + 2] == 'f' && s[pos + 6] == ':');
    // Nothing is read before the double colon.
    assert(hex_end(s, pos) == pos);
    assert(digits_end(s, pos) == pos);
    assert(octet_at(s, pos) is None);
    assert(quad_at(s, pos) is None);
    assert(group_at(s, pos) is None);
    let head = groups_from(s, pos, 0, 8);
    assert(head == (Seq::<u16>::empty(), pos, false));
    // After it come the group of ones and the four octets.
    assert(t.subrange(2, 6) =~= hex_digits(0xffff));
    lemma_text_at_part(s, pos, t, 2, 6);
    lemma_group_at_text(s, pos + 2, 0xffff);
    lemma_no_quad(s, pos + 2);
    assert(t.subrange(7, t.len() as int) =~= quad);
    lemma_text_at_part(s, pos, t, 7, t.len() as int);
    lemma_quad_at_text(s, pos + 7, a, b, c, d);
    let last_two = seq![(a * 256 + b) as u16, (c * 256 + d) as u16];
    let rest = groups_from(s, pos + 6, 1, 7);
    assert(rest == (last_two, end, true));
    let tail = groups_from(s, pos + 2, 0, 7);
    assert(tail == (seq![0xffffu16] + rest.0, rest.1, rest.2));
    assert(tail.0.len() == 3);
    assert(head.0 + zero_groups(8 - head.0.len() - tail.0.len()) + tail.0 =~= groups);
}

/// The text of groups with a double colon is read as the groups.
proof fn lemma_short_text_read(s: Seq<char>, pos: int, groups: Seq<u16>)
    requires
        groups.len() == 8,
        !is_mapped(groups),
        longest_zero_run(groups, 0).1 > 1,
        text_at(s, pos, groups_text(groups)),
        pos + groups_text(groups).len() < s.len(),
        s[pos + groups_text(groups).len()] == ']' || s[pos + groups_text(groups).len()] == '%',
    ensures
        ipv6_at(s, pos) == Some((groups, pos + groups_text(groups).len())),
{
    let t = groups_text(groups);
    let (start, len) = longest_zero_run(groups, 0);
    lemma_longest_zero_run(groups, 0);
    let front = groups.subrange(0, start);
    let back = groups.subrange(start + len, 8);
    let front_text = join_groups(front);
    let back_text = join_groups(back);
    assert(t == front_text + seq![':', ':'] + back_text);
    let mid = pos + front_text.len();
    lemma_text_at_index(s, pos, t, front_text.len() as int);
    lemma_text_at_index(s, pos, t, front_text.len() as int + 1);
    assert(s[mid] == ':');
    assert(s[mid + 1] == ':');
    assert(t.subrange(0, front_text.len() as int) =~= front_text);
    lemma_text_at_part(s, pos, t, 0, front_text.len() as int);
    assert(more_groups_text(front, 0) == front_text);
    lemma_groups_read(s, pos, 0, 8, front);
    let head = groups_from(s, pos, 0, 8);
    assert(head == (front, mid, false));
    assert(t.subrange(front_text.len() as int + 2, t.len() as int) =~= back_text);
    lemma_text_at_part(s, pos, t, front_text.len() as int + 2, t.len() as int);
    assert(more_groups_text(back, 0) == back_text);
    lemma_groups_read(s, mid + 2, 0, 7 - start, back);
    let tail = groups_from(s, mid + 2, 0, 7 - head.0.len());
    assert(tail == (back, pos + t.len(), false));
    assert(front + zero_groups(len) + back =~= groups);
}

/// The text of eight groups without a double colon is read as the groups.
proof fn lemma_plain_text_read(s: Seq<char>, pos: int, groups: Seq<u16>)
    requires
        groups.len() == 8,
        !is_mapped(groups),
        longest_zero_run(groups, 0).1 <= 1,
        text_at(s, pos, groups_text(groups)),
        pos + groups_text(groups).len() < s.len(),
        s[pos + groups_text(groups).len()] == ']' || s[pos + groups_text(groups).len()] == '%',
    ensures
        ipv6_at(s, pos) == Some((groups, pos + groups_text(groups).len())),
{
    assert(more_groups_text(groups, 0) == groups_text(groups));
    lemma_groups_read(s, pos, 0, 8, groups);
}

/// The canonical text of eight groups, followed by a closing bracket or a
/// percent sign, is read as those groups.
proof fn lemma_groups_text_read(s: Seq<char>, pos: int, groups: Seq<u16>)
    requires
        groups.len() == 8,
        text_at(s, pos, groups_text(groups)),
        pos + groups_text(groups).len() < s.len(),
        s[pos + groups_text(groups).len()] == ']' || s[pos + groups_text(groups).len()] == '%',
    ensures
        ipv6_at(s, pos) == Some((groups, pos + groups_text(groups).len())),
{
    if is_mapped(groups) {
        lemma_mapped_text_read(s, pos, groups);
    } else if longest_zero_run(groups, 0).1 > 1 {
        lemma_short_text_read(s, pos, groups);
    } else {
        lemma_plain_text_read(s, pos, groups);
    }
}

/// Reading the canonical text of a socket address of the sixth version gives
/// the address back.
pub proof fn lemma_socket_v6_text_roundtrip(addr: SocketAddrV6)
    ensures
        parse_socket_v6(addr.text()) == Some(addr),
{
    let groups = addr.groups.seq();
    let gt = groups_text(groups);
    let zone = scope_text(addr.scope_id);
    let port = decimal_digits(addr.port as nat);
    let s = addr.text();
    lemma_decimal_digits(addr.port as nat);
    lemma_decimal_digits(addr.scope_id as nat);
    let end: int = 1 + gt.len() as int;
    let q: int = end + zone.len();
    assert(s.len() == q + 2 + port.len());
    assert(s[0] == '[');
    assert(s.subrange(1, end) =~= gt);
    assert(s[q] == ']');
    assert(s[q + 1] == ':');
    if addr.scope_id != 0 {
        assert(s[end] == '%');
        let digits = decimal_digits(addr.scope_id as nat);
        assert(s.subrange(end + 1, q) =~= digits);
        lemma_digits_end_run(s, end + 1, q);
    }
    lemma_groups_text_read(s, 1, groups);
    assert(scope_at(s, end) == (addr.scope_id, q));
    assert(s.subrange(q + 2, s.len() as int) =~= port);
}

} // verus!
