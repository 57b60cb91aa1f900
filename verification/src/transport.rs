//! Addresses of the two transports, as values and as text, and the choice of
//! a transport by the kind of address.

use crate::config::TransportType;
use crate::error::{Error, NetworkError};
use crate::ipv6::{
    lemma_socket_v6_text_roundtrip, parse_socket_v6, read_socket_v6, SocketAddrV6,
};
use crate::text::{
    all_digits, chars_of, decimal_digits, decimal_string, decimal_value, digits_end, is_digit,
    join2, join3, join4, lemma_decimal_digits, lemma_decimal_digits_len,
    lemma_digits_end_bounds, lemma_digits_end_run, parse_unsigned, read_digits, read_unsigned,
};
use vstd::prelude::*;

verus! {

/// The context identifier that binds a hypervisor-local listener to any
/// context.
pub const VMADDR_CID_ANY: u32 = 0xffff_ffff;

/// A network socket address of the fourth version of the protocol: the four
/// octets of the host and the port.
#[derive(Debug, Clone, Copy, PartialEq, Eq, Structural)]
pub struct SocketAddrV4 {
    pub a: u8,
    pub b: u8,
    pub c: u8,
    pub d: u8,
    pub port: u16,
}

/// A network socket address: a host and a port.
#[derive(Debug, Clone, Copy, PartialEq, Eq, Structural)]
pub enum SocketAddress {
    V4(SocketAddrV4),
    V6(SocketAddrV6),
}

/// The address of a peer or of a listener, for one of the two transports.
#[derive(Debug, Clone, Copy, PartialEq, Eq, Structural)]
pub enum TransportConfig {
    /// A network socket address.
    Tcp(SocketAddress),
    /// A hypervisor-local socket: context identifier and port.
    Vsock { cid: u32, port: u32 },
}

/// Errors of the transport layer, each with its text.
#[derive(Debug, Clone)]
pub enum TransportError {
    InvalidAddress(String),
    Tcp(String),
    Vsock(String),
    NotSupported(String),
    ConnectionFailed(String),
    BindFailed(String),
}

/// The rule that a text breaks when it is no address.
pub enum AddressFault {
    /// After `vsock://` there is not exactly one colon.
    VsockShape,
    /// The context identifier is no unsigned 32-bit number.
    VsockCid,
    /// The port after the context identifier is no unsigned 32-bit number.
    VsockPort,
    /// The text is no network socket address.
    Socket,
}

/// The prefix that marks a hypervisor-local address.
pub open spec fn vsock_scheme() -> Seq<char> {
    seq!['v', 's', 'o', 'c', 'k', ':', '/', '/']
}

/// Whether `s` begins with `prefix`.
pub open spec fn has_prefix(s: Seq<char>, prefix: Seq<char>) -> bool {
    prefix.len() <= s.len() && s.subrange(0, prefix.len() as int) == prefix
}

/// The first index at or after `from` at which `s` holds `c`, or the length
/// of `s` where there is none.
pub open spec fn find_char(s: Seq<char>, c: char, from: int) -> int
    decreases s.len() - from,
{
    if 0 <= from < s.len() && s[from] != c {
        find_char(s, c, from + 1)
    } else if from < s.len() {
        from
    } else {
        s.len() as int
    }
}

/// Whether `s` holds the character `c` at index `i`.
pub open spec fn holds(s: Seq<char>, i: int, c: char) -> bool {
    0 <= i < s.len() && s[i] == c
}

/// The octet that starts at index `i`, with the index after it: one to three
/// digits, no leading zero before another digit, worth at most 255.
pub open spec fn octet_at(s: Seq<char>, i: int) -> Option<(u8, int)> {
    let e = digits_end(s, i);
    let run = s.subrange(i, e);
    if 1 <= e - i <= 3 && (e - i == 1 || s[i] != '0') && decimal_value(run) <= 255 {
        Some((decimal_value(run) as u8, e))
    } else {
        None
    }
}

/// The four octets that start at index `i`, separated by dots, with the
/// index after them.
pub open spec fn quad_at(s: Seq<char>, i: int) -> Option<((u8, u8, u8, u8), int)> {
    match octet_at(s, i) {
        None => None,
        Some((a, i1)) => if !holds(s, i1, '.') {
            None
        } else {
            match octet_at(s, i1 + 1) {
                None => None,
                Some((b, i2)) => if !holds(s, i2, '.') {
                    None
                } else {
                    match octet_at(s, i2 + 1) {
                        None => None,
                        Some((c, i3)) => if !holds(s, i3, '.') {
                            None
                        } else {
                            match octet_at(s, i3 + 1) {
                                None => None,
                                Some((d, i4)) => Some(((a, b, c, d), i4)),
                            }
                        },
                    }
                },
            }
        },
    }
}

/// The text of four octets: `a.b.c.d`.
pub open spec fn quad_text(a: u8, b: u8, c: u8, d: u8) -> Seq<char> {
    decimal_digits(a as nat) + seq!['.'] + decimal_digits(b as nat) + seq!['.'] + decimal_digits(
        c as nat,
    ) + seq!['.'] + decimal_digits(d as nat)
}

/// The port that starts at index `i` and runs to the end of the text: one
/// digit or more, worth at most 65535.
pub open spec fn port_at(s: Seq<char>, i: int) -> Option<u16> {
    let run = s.subrange(i, s.len() as int);
    if 0 <= i < s.len() && all_digits(run) && decimal_value(run) <= 65535 {
        Some(decimal_value(run) as u16)
    } else {
        None
    }
}

/// What a text reads as a socket address of the fourth version: four octets
/// separated by dots, a colon, and the port.
pub open spec fn parse_socket_v4(s: Seq<char>) -> Option<SocketAddrV4> {
    match quad_at(s, 0) {
        None => None,
        Some(((a, b, c, d), i4)) => if !holds(s, i4, ':') {
            None
        } else {
            match port_at(s, i4 + 1) {
                None => None,
                Some(port) => Some(SocketAddrV4 { a, b, c, d, port }),
            }
        },
    }
}

/// What a text reads as a network socket address: an address of the fourth
/// version, or else one of the sixth.
pub open spec fn parse_socket(s: Seq<char>) -> Option<SocketAddress> {
    match parse_socket_v4(s) {
        Some(addr) => Some(SocketAddress::V4(addr)),
        None => match parse_socket_v6(s) {
            Some(addr) => Some(SocketAddress::V6(addr)),
            None => None,
        },
    }
}

/// What the text after `vsock://` reads as: a context identifier, one colon,
/// and a port, both unsigned 32-bit numbers.
pub open spec fn parse_vsock(rest: Seq<char>) -> Result<(u32, u32), AddressFault> {
    let colon = find_char(rest, ':', 0);
    if !(colon < rest.len() && find_char(rest, ':', colon + 1) == rest.len()) {
        Err(AddressFault::VsockShape)
    } else {
        match parse_unsigned(rest.subrange(0, colon), 0xffff_ffff) {
            None => Err(AddressFault::VsockCid),
            Some(cid) => match parse_unsigned(
                rest.subrange(colon + 1, rest.len() as int),
                0xffff_ffff,
            ) {
                None => Err(AddressFault::VsockPort),
                Some(port) => Ok((cid as u32, port as u32)),
            },
        }
    }
}

/// What a text reads as an address. A text that begins with `vsock://` is a
/// hypervisor-local address or nothing; any other text is a network socket
/// address or nothing.
pub open spec fn parse_address(s: Seq<char>) -> Result<TransportConfig, AddressFault> {
    if has_prefix(s, vsock_scheme()) {
        match parse_vsock(s.subrange(8, s.len() as int)) {
            Ok((cid, port)) => Ok(TransportConfig::Vsock { cid, port }),
            Err(fault) => Err(fault),
        }
    } else {
        match parse_socket(s) {
            Some(addr) => Ok(TransportConfig::Tcp(addr)),
            None => Err(AddressFault::Socket),
        }
    }
}

/// The text of the error that reports why `s` is no address.
pub open spec fn fault_text(s: Seq<char>, fault: AddressFault) -> Seq<char> {
    let rest = s.subrange(8, s.len() as int);
    let colon = find_char(rest, ':', 0);
    match fault {
        AddressFault::VsockShape => "VSOCK address must be in format 'vsock://cid:port', got: "@
            + s,
        AddressFault::VsockCid => "Invalid CID in VSOCK address: "@ + rest.subrange(0, colon),
        AddressFault::VsockPort => "Invalid port in VSOCK address: "@ + rest.subrange(
            colon + 1,
            rest.len() as int,
        ),
        AddressFault::Socket => "Invalid TCP address '"@ + s
            + "': invalid socket address syntax"@,
    }
}

impl SocketAddrV4 {
    /// The canonical text: `a.b.c.d:port`.
    pub open spec fn text(self) -> Seq<char> {
        quad_text(self.a, self.b, self.c, self.d) + seq![':'] + decimal_digits(self.port as nat)
    }

    pub fn to_string(&self) -> (out: String)
        ensures
            out@ == self.text(),
    {
        proof {
            reveal_strlit(".");
            reveal_strlit(":");
            assert("."@ =~= seq!['.']);
            assert(":"@ =~= seq![':']);
        }
        let a = decimal_string(self.a as u64);
        let b = decimal_string(self.b as u64);
        let c = decimal_string(self.c as u64);
        let d = decimal_string(self.d as u64);
        let port = decimal_string(self.port as u64);
        let mut out = join4(a.as_str(), ".", b.as_str(), ".");
        out.append(c.as_str());
        out.append(".");
        out.append(d.as_str());
        out.append(":");
        out.append(port.as_str());
        out
    }
}

impl SocketAddress {
    /// The canonical text: `a.b.c.d:port`, or `[groups]:port` with the zone
    /// where there is one.
    pub open spec fn text(self) -> Seq<char> {
        match self {
            SocketAddress::V4(addr) => addr.text(),
            SocketAddress::V6(addr) => addr.text(),
        }
    }

    /// The port of the address.
    pub open spec fn port_of(self) -> u16 {
        match self {
            SocketAddress::V4(addr) => addr.port,
            SocketAddress::V6(addr) => addr.port,
        }
    }

    /// Reads a network socket address.
    pub fn from_str(s: &str) -> (parsed: Option<SocketAddress>)
        ensures
            parsed == parse_socket(s@),
    {
        let chars = chars_of(s);
        read_socket(&chars)
    }

    pub fn to_string(&self) -> (out: String)
        ensures
            out@ == self.text(),
    {
        match self {
            SocketAddress::V4(addr) => addr.to_string(),
            SocketAddress::V6(addr) => addr.to_string(),
        }
    }

    pub fn port(&self) -> (port: u16)
        ensures
            port == self.port_of(),
    {
        match self {
            SocketAddress::V4(addr) => addr.port,
            SocketAddress::V6(addr) => addr.port,
        }
    }
}

impl TransportConfig {
    /// The canonical text: `a.b.c.d:port`, or `vsock://cid:port`.
    pub open spec fn text(self) -> Seq<char> {
        match self {
            TransportConfig::Tcp(addr) => addr.text(),
            TransportConfig::Vsock { cid, port } => vsock_scheme() + decimal_digits(cid as nat)
                + seq![':'] + decimal_digits(port as nat),
        }
    }

    /// Reads an address. The text is accepted exactly where `parse_address`
    /// gives an address, and is otherwise refused as an invalid address, with
    /// a message that names the rule it breaks.
    pub fn from_str(s: &str) -> (parsed: Result<TransportConfig, TransportError>)
        ensures
            match parse_address(s@) {
                Ok(config) => parsed == Ok::<TransportConfig, TransportError>(config),
                Err(fault) => parsed matches Err(TransportError::InvalidAddress(message))
                    && message@ == fault_text(s@, fault),
            },
    {
        let chars = chars_of(s);
        if starts_with_scheme(&chars) {
            let n = chars.len();
            match read_vsock(&chars, 8) {
                Ok((cid, port)) => Ok(TransportConfig::Vsock { cid, port }),
                Err(AddressFault::VsockShape) => Err(
                    TransportError::InvalidAddress(
                        join2("VSOCK address must be in format 'vsock://cid:port', got: ", s),
                    ),
                ),
                Err(AddressFault::VsockCid) => {
                    let colon = find_from(&chars, 8, ':');
                    proof {
                        lemma_find_char_shift(chars@, ':', 8, 8);
                        let rest = chars@.subrange(8, n as int);
                        assert(rest.subrange(0, colon - 8) =~= chars@.subrange(8, colon as int));
                    }
                    Err(
                        TransportError::InvalidAddress(
                            join2("Invalid CID in VSOCK address: ", s.substring_char(8, colon)),
                        ),
                    )
                },
                Err(_) => {
                    let colon = find_from(&chars, 8, ':');
                    proof {
                        lemma_find_char_shift(chars@, ':', 8, 8);
                        let rest = chars@.subrange(8, n as int);
                        assert(rest.subrange(colon - 8 + 1, rest.len() as int)
                            =~= chars@.subrange(colon + 1, n as int));
                    }
                    Err(
                        TransportError::InvalidAddress(
                            join2(
                                "Invalid port in VSOCK address: ",
                                s.substring_char(colon + 1, n),
                            ),
                        ),
                    )
                },
            }
        } else {
            match read_socket(&chars) {
                Some(addr) => Ok(TransportConfig::Tcp(addr)),
                None => Err(
                    TransportError::InvalidAddress(
                        join3("Invalid TCP address '", s, "': invalid socket address syntax"),
                    ),
                ),
            }
        }
    }

    pub fn to_string(&self) -> (out: String)
        ensures
            out@ == self.text(),
    {
        match self {
            TransportConfig::Tcp(addr) => addr.to_string(),
            TransportConfig::Vsock { cid, port } => {
                proof {
                    reveal_strlit("vsock://");
                    reveal_strlit(":");
                    assert("vsock://"@ =~= vsock_scheme());
                    assert(":"@ =~= seq![':']);
                }
                let cid_text = decimal_string(*cid as u64);
                let port_text = decimal_string(*port as u64);
                join4("vsock://", cid_text.as_str(), ":", port_text.as_str())
            },
        }
    }

    /// The port of the address, whatever its kind.
    pub fn port(&self) -> (port: u32)
        ensures
            port == match *self {
                TransportConfig::Tcp(addr) => addr.port_of() as u32,
                TransportConfig::Vsock { cid, port } => port,
            },
    {
        match self {
            TransportConfig::Tcp(addr) => addr.port() as u32,
            TransportConfig::Vsock { port, .. } => *port,
        }
    }

    pub fn is_tcp(&self) -> (yes: bool)
        ensures
            yes == (*self is Tcp),
    {
        match self {
            TransportConfig::Tcp(_) => true,
            TransportConfig::Vsock { .. } => false,
        }
    }

    pub fn is_vsock(&self) -> (yes: bool)
        ensures
            yes == (*self is Vsock),
    {
        match self {
            TransportConfig::Tcp(_) => false,
            TransportConfig::Vsock { .. } => true,
        }
    }
}

/// `find_char` on the text after the first `base` characters agrees with
/// `find_char` on the whole text.
pub proof fn lemma_find_char_shift(s: Seq<char>, c: char, base: int, from: int)
    requires
        0 <= base <= from <= s.len(),
    ensures
        find_char(s.subrange(base, s.len() as int), c, from - base) == find_char(s, c, from)
            - base,
    decreases s.len() - from,
{
    let rest = s.subrange(base, s.len() as int);
    if from < s.len() {
        assert(rest[from - base] == s[from]);
        if s[from] != c {
            lemma_find_char_shift(s, c, base, from + 1);
        }
    }
}

/// Reads what follows the first `base` characters as a context identifier,
/// one colon and a port.
fn read_vsock(chars: &Vec<char>, base: usize) -> (parsed: Result<(u32, u32), AddressFault>)
    requires
        base <= chars.len(),
    ensures
        parsed == parse_vsock(chars@.subrange(base as int, chars.len() as int)),
        parsed is Err ==> !(parsed matches Err(AddressFault::Socket)),
{
    let n = chars.len();
    let ghost rest = chars@.subrange(base as int, n as int);
    let colon = find_from(chars, base, ':');
    proof {
        lemma_find_char_shift(chars@, ':', base as int, base as int);
    }
    if colon >= n {
        return Err(AddressFault::VsockShape);
    }
    let second = find_from(chars, colon + 1, ':');
    proof {
        lemma_find_char_shift(chars@, ':', base as int, colon + 1);
    }
    if second < n {
        return Err(AddressFault::VsockShape);
    }
    proof {
        assert(rest.subrange(0, colon - base) =~= chars@.subrange(base as int, colon as int));
        assert(rest.subrange(colon - base + 1, rest.len() as int) =~= chars@.subrange(
            colon + 1,
            n as int,
        ));
    }
    match read_unsigned(chars, base, colon, 0xffff_ffff) {
        None => Err(AddressFault::VsockCid),
        Some(cid) => match read_unsigned(chars, colon + 1, n, 0xffff_ffff) {
            None => Err(AddressFault::VsockPort),
            Some(port) => Ok((cid as u32, port as u32)),
        },
    }
}

fn starts_with_scheme(chars: &Vec<char>) -> (yes: bool)
    ensures
        yes == has_prefix(chars@, vsock_scheme()),
{
    if chars.len() < 8 {
        return false;
    }
    let yes = chars[0] == 'v' && chars[1] == 's' && chars[2] == 'o' && chars[3] == 'c' && chars[4]
        == 'k' && chars[5] == ':' && chars[6] == '/' && chars[7] == '/';
    proof {
        let head = chars@.subrange(0, 8);
        if yes {
            assert(head =~= vsock_scheme());
        } else {
            assert(head[0] == chars@[0] && head[1] == chars@[1] && head[2] == chars@[2] && head[3]
                == chars@[3] && head[4] == chars@[4] && head[5] == chars@[5] && head[6]
                == chars@[6] && head[7] == chars@[7]);
        }
    }
    yes
}

fn find_from(chars: &Vec<char>, from: usize, c: char) -> (at: usize)
    requires
        from <= chars.len(),
    ensures
        at == find_char(chars@, c, from as int),
        from <= at <= chars.len(),
{
    let mut i = from;
    while i < chars.len() && chars[i] != c
        invariant
            from <= i <= chars.len(),
            find_char(chars@, c, from as int) == find_char(chars@, c, i as int),
        decreases chars.len() - i,
    {
        i = i + 1;
    }
    i
}

pub(crate) fn scan_digits(chars: &Vec<char>, from: usize) -> (end: usize)
    requires
        from <= chars.len(),
    ensures
        end == digits_end(chars@, from as int),
        from <= end <= chars.len(),
{
    let mut i = from;
    while i < chars.len() && chars[i] >= '0' && chars[i] <= '9'
        invariant
            from <= i <= chars.len(),
            digits_end(chars@, from as int) == digits_end(chars@, i as int),
        decreases chars.len() - i,
    {
        i = i + 1;
    }
    i
}

fn read_octet(chars: &Vec<char>, from: usize) -> (octet: Option<(u8, usize)>)
    requires
        from <= chars.len(),
    ensures
        match octet_at(chars@, from as int) {
            Some((value, end)) => octet == Some((value, end as usize)) && from < end
                <= chars.len(),
            None => octet is None,
        },
{
    let end = scan_digits(chars, from);
    proof {
        lemma_digits_end_bounds(chars@, from as int);
    }
    let len = end - from;
    if len < 1 || len > 3 {
        return None;
    }
    if len > 1 && chars[from] == '0' {
        return None;
    }
    match read_digits(chars, from, end, 255) {
        None => None,
        Some(value) => Some((value as u8, end)),
    }
}

pub(crate) fn has_char(chars: &Vec<char>, at: usize, c: char) -> (yes: bool)
    ensures
        yes == holds(chars@, at as int, c),
{
    at < chars.len() && chars[at] == c
}

/// Reads four octets separated by dots from index `from` on.
pub(crate) fn read_quad(chars: &Vec<char>, from: usize) -> (quad: Option<((u8, u8, u8, u8), usize)>)
    requires
        from <= chars.len(),
    ensures
        match quad_at(chars@, from as int) {
            Some((octets, end)) => quad == Some((octets, end as usize)) && from < end
                <= chars.len(),
            None => quad is None,
        },
{
    let (a, i1) = match read_octet(chars, from) {
        None => {
            return None;
        },
        Some(found) => found,
    };
    if !has_char(chars, i1, '.') {
        return None;
    }
    let (b, i2) = match read_octet(chars, i1 + 1) {
        None => {
            return None;
        },
        Some(found) => found,
    };
    if !has_char(chars, i2, '.') {
        return None;
    }
    let (c, i3) = match read_octet(chars, i2 + 1) {
        None => {
            return None;
        },
        Some(found) => found,
    };
    if !has_char(chars, i3, '.') {
        return None;
    }
    match read_octet(chars, i3 + 1) {
        None => None,
        Some((d, i4)) => Some(((a, b, c, d), i4)),
    }
}

fn read_socket_v4(chars: &Vec<char>) -> (parsed: Option<SocketAddrV4>)
    ensures
        parsed == parse_socket_v4(chars@),
{
    let ((a, b, c, d), i4) = match read_quad(chars, 0) {
        None => {
            return None;
        },
        Some(found) => found,
    };
    if !has_char(chars, i4, ':') {
        return None;
    }
    match read_digits(chars, i4 + 1, chars.len(), 65535) {
        None => None,
        Some(port) => Some(SocketAddrV4 { a, b, c, d, port: port as u16 }),
    }
}

fn read_socket(chars: &Vec<char>) -> (parsed: Option<SocketAddress>)
    ensures
        parsed == parse_socket(chars@),
{
    match read_socket_v4(chars) {
        Some(addr) => Some(SocketAddress::V4(addr)),
        None => match read_socket_v6(chars) {
            Some(addr) => Some(SocketAddress::V6(addr)),
            None => None,
        },
    }
}

/// Where the digits of `n` stand in `s` from index `i` on, and `n` is at
/// most 255, and what follows them is no digit, the octet at `i` is `n`.
pub(crate) proof fn lemma_octet_at_digits(s: Seq<char>, i: int, n: nat)
    requires
        n <= 255,
        0 <= i,
        i + decimal_digits(n).len() <= s.len(),
        s.subrange(i, i + decimal_digits(n).len()) == decimal_digits(n),
        i + decimal_digits(n).len() == s.len() || !is_digit(s[i + decimal_digits(n).len()]),
    ensures
        octet_at(s, i) == Some((n as u8, i + decimal_digits(n).len())),
{
    let digits = decimal_digits(n);
    let e = i + digits.len();
    lemma_decimal_digits(n);
    lemma_decimal_digits_len(n);
    lemma_digits_end_run(s, i, e);
    assert(s[i] == s.subrange(i, e)[0]);
}

/// Where the text of four octets stands in `s` from index `i` on, and what
/// follows it is no digit, the four octets at `i` are those.
pub proof fn lemma_quad_at_text(s: Seq<char>, i: int, a: u8, b: u8, c: u8, d: u8)
    requires
        0 <= i,
        i + quad_text(a, b, c, d).len() <= s.len(),
        s.subrange(i, i + quad_text(a, b, c, d).len()) == quad_text(a, b, c, d),
        i + quad_text(a, b, c, d).len() == s.len() || !is_digit(
            s[i + quad_text(a, b, c, d).len()],
        ),
    ensures
        quad_at(s, i) == Some(((a, b, c, d), i + quad_text(a, b, c, d).len())),
{
    let da = decimal_digits(a as nat);
    let db = decimal_digits(b as nat);
    let dc = decimal_digits(c as nat);
    let dd = decimal_digits(d as nat);
    lemma_decimal_digits(a as nat);
    lemma_decimal_digits(b as nat);
    lemma_decimal_digits(c as nat);
    lemma_decimal_digits(d as nat);
    let t = quad_text(a, b, c, d);
    let i1 = i + da.len();
    let i2 = i1 + 1 + db.len();
    let i3 = i2 + 1 + dc.len();
    let i4 = i3 + 1 + dd.len();
    assert(t.len() == i4 - i);
    assert forall|k: int| 0 <= k < t.len() implies s[i + k] == t[k] by {
        assert(s.subrange(i, i + t.len())[k] == s[i + k]);
    }
    assert(s[i1] == t[i1 - i]);
    assert(s[i2] == t[i2 - i]);
    assert(s[i3] == t[i3 - i]);
    assert(s[i1] == '.');
    assert(s[i2] == '.');
    assert(s[i3] == '.');
    assert(s.subrange(i, i1) =~= da) by {
        assert forall|k: int| 0 <= k < da.len() implies s.subrange(i, i1)[k] == da[k] by {
            assert(s[i + k] == t[k]);
        }
    }
    assert(s.subrange(i1 + 1, i2) =~= db) by {
        assert forall|k: int| 0 <= k < db.len() implies s.subrange(i1 + 1, i2)[k] == db[k] by {
            assert(s[i1 + 1 + k] == t[i1 + 1 + k - i]);
        }
    }
    assert(s.subrange(i2 + 1, i3) =~= dc) by {
        assert forall|k: int| 0 <= k < dc.len() implies s.subrange(i2 + 1, i3)[k] == dc[k] by {
            assert(s[i2 + 1 + k] == t[i2 + 1 + k - i]);
        }
    }
    assert(s.subrange(i3 + 1, i4) =~= dd) by {
        assert forall|k: int| 0 <= k < dd.len() implies s.subrange(i3 + 1, i4)[k] == dd[k] by {
            assert(s[i3 + 1 + k] == t[i3 + 1 + k - i]);
        }
    }
    lemma_octet_at_digits(s, i, a as nat);
    lemma_octet_at_digits(s, i1 + 1, b as nat);
    lemma_octet_at_digits(s, i2 + 1, c as nat);
    lemma_octet_at_digits(s, i3 + 1, d as nat);
}

/// Reading the canonical text of a network socket address gives the address
/// back.
pub proof fn lemma_socket_text_roundtrip(addr: SocketAddress)
    ensures
        parse_socket(addr.text()) == Some(addr),
        addr.text().len() > 0,
        is_digit(addr.text()[0]) || addr.text()[0] == '[',
{
    match addr {
        SocketAddress::V4(v4) => {
            lemma_socket_v4_text_roundtrip(v4);
            lemma_decimal_digits(v4.a as nat);
            assert(v4.text()[0] == decimal_digits(v4.a as nat)[0]);
        },
        SocketAddress::V6(v6) => {
            lemma_socket_v6_text_roundtrip(v6);
            let s = v6.text();
            assert(s[0] == '[');
            assert(digits_end(s, 0) == 0);
            assert(octet_at(s, 0) is None);
        },
    }
}

/// Reading the canonical text of a socket address of the fourth version
/// gives the address back.
pub proof fn lemma_socket_v4_text_roundtrip(addr: SocketAddrV4)
    ensures
        parse_socket_v4(addr.text()) == Some(addr),
{
    let q = quad_text(addr.a, addr.b, addr.c, addr.d);
    let dp = decimal_digits(addr.port as nat);
    lemma_decimal_digits(addr.port as nat);
    let s = addr.text();
    let i4 = q.len() as int;
    assert(s.len() == i4 + 1 + dp.len());
    assert(s[i4] == ':');
    assert(s.subrange(0, i4) =~= q);
    assert(s.subrange(i4 + 1, s.len() as int) =~= dp);
    lemma_quad_at_text(s, 0, addr.a, addr.b, addr.c, addr.d);
}

/// In a text that begins with digits, the first colon is not among them.
proof fn lemma_find_char_after_digits(s: Seq<char>, from: int, e: int)
    requires
        0 <= from <= e <= s.len(),
        forall|k: int| from <= k < e ==> is_digit(#[trigger] s[k]),
    ensures
        find_char(s, ':', from) == find_char(s, ':', e),
    decreases e - from,
{
    if from < e {
        assert(is_digit(s[from]));
        lemma_find_char_after_digits(s, from + 1, e);
    }
}

/// The shortest decimal text of a number reads as that number.
pub proof fn lemma_parse_unsigned_digits(n: nat, limit: nat)
    requires
        n <= limit,
    ensures
        parse_unsigned(decimal_digits(n), limit) == Some(n),
{
    lemma_decimal_digits(n);
    let s = decimal_digits(n);
    assert(is_digit(s[0]));
}

/// Reading the canonical text of a hypervisor-local address gives the
/// address back.
proof fn lemma_vsock_text_roundtrip(cid: u32, port: u32)
    ensures
        has_prefix((TransportConfig::Vsock { cid, port }).text(), vsock_scheme()),
        parse_vsock(
            (TransportConfig::Vsock { cid, port }).text().subrange(
                8,
                (TransportConfig::Vsock { cid, port }).text().len() as int,
            ),
        ) == Ok::<(u32, u32), AddressFault>((cid, port)),
{
    let s = (TransportConfig::Vsock { cid, port }).text();
    let dc = decimal_digits(cid as nat);
    let dp = decimal_digits(port as nat);
    lemma_decimal_digits(cid as nat);
    lemma_decimal_digits(port as nat);
    assert(s.subrange(0, 8) =~= vsock_scheme());
    let rest = s.subrange(8, s.len() as int);
    assert(rest =~= dc + seq![':'] + dp);
    let colon = dc.len() as int;
    assert(rest[colon] == ':');
    assert forall|k: int| 0 <= k < colon implies is_digit(#[trigger] rest[k]) by {
        assert(rest[k] == dc[k]);
    }
    lemma_find_char_after_digits(rest, 0, colon);
    assert(find_char(rest, ':', 0) == colon);
    assert forall|k: int| colon + 1 <= k < rest.len() implies is_digit(#[trigger] rest[k]) by {
        assert(rest[k] == dp[k - colon - 1]);
    }
    lemma_find_char_after_digits(rest, colon + 1, rest.len() as int);
    assert(rest.subrange(0, colon) =~= dc);
    assert(rest.subrange(colon + 1, rest.len() as int) =~= dp);
    lemma_parse_unsigned_digits(cid as nat, 0xffff_ffff);
    lemma_parse_unsigned_digits(port as nat, 0xffff_ffff);
}

/// Reading the canonical text of an address gives the address back, for
/// every address of either kind.
pub proof fn lemma_address_text_roundtrip(config: TransportConfig)
    ensures
        parse_address(config.text()) == Ok::<TransportConfig, AddressFault>(config),
{
    let s = config.text();
    match config {
        TransportConfig::Tcp(addr) => {
            lemma_socket_text_roundtrip(addr);
            if has_prefix(s, vsock_scheme()) {
                assert(s.subrange(0, 8)[0] == s[0]);
                assert(vsock_scheme()[0] == 'v');
            }
        },
        TransportConfig::Vsock { cid, port } => {
            lemma_vsock_text_roundtrip(cid, port);
        },
    }
}

/// A text that holds no colon has no port, and is no address.
pub proof fn lemma_rejects_missing_port(s: Seq<char>)
    requires
        forall|i: int| 0 <= i < s.len() ==> #[trigger] s[i] != ':',
    ensures
        parse_address(s) is Err,
{
    if has_prefix(s, vsock_scheme()) {
        assert(s.subrange(0, 8)[5] == s[5]);
        assert(vsock_scheme()[5] == ':');
    }
}

/// A text whose first run of digits is worth more than 255 is no address.
pub proof fn lemma_rejects_large_octet(s: Seq<char>)
    requires
        s.len() > 0,
        is_digit(s[0]),
        decimal_value(s.subrange(0, digits_end(s, 0))) > 255,
    ensures
        parse_address(s) is Err,
{
    if has_prefix(s, vsock_scheme()) {
        assert(s.subrange(0, 8)[0] == s[0]);
        assert(vsock_scheme()[0] == 'v');
    }
}

/// After `vsock://`, a character that is no digit, no colon and no plus sign
/// makes the text no address: the context identifier and the port are
/// numbers.
pub proof fn lemma_rejects_non_numeric_vsock(s: Seq<char>, k: int)
    requires
        has_prefix(s, vsock_scheme()),
        8 <= k < s.len(),
        !is_digit(s[k]),
        s[k] != ':',
        s[k] != '+',
    ensures
        parse_address(s) is Err,
{
    let rest = s.subrange(8, s.len() as int);
    let colon = find_char(rest, ':', 0);
    let at = k - 8;
    assert(rest[at] == s[k]);
    if colon < rest.len() && find_char(rest, ':', colon + 1) == rest.len() {
        lemma_find_char_bounds(rest, ':', 0);
        if at < colon {
            lemma_unsigned_needs_digits(rest.subrange(0, colon), at);
        } else {
            let tail = rest.subrange(colon + 1, rest.len() as int);
            assert(tail[at - colon - 1] == rest[at]);
            lemma_unsigned_needs_digits(tail, at - colon - 1);
        }
    }
}

/// `find_char` answers with an index that holds the character, or with the
/// length of the text.
pub proof fn lemma_find_char_bounds(s: Seq<char>, c: char, from: int)
    requires
        0 <= from <= s.len(),
    ensures
        from <= find_char(s, c, from) <= s.len(),
        find_char(s, c, from) < s.len() ==> s[find_char(s, c, from)] == c,
    decreases s.len() - from,
{
    if from < s.len() && s[from] != c {
        lemma_find_char_bounds(s, c, from + 1);
    }
}

/// A text that holds a character which is neither a digit nor a plus sign is
/// no unsigned number.
proof fn lemma_unsigned_needs_digits(s: Seq<char>, k: int)
    requires
        0 <= k < s.len(),
        !is_digit(s[k]),
        s[k] != '+',
    ensures
        parse_unsigned(s, 0xffff_ffff) is None,
{
    if s[0] == '+' {
        let body = s.subrange(1, s.len() as int);
        assert(body[k - 1] == s[k]);
    }
}

impl TransportError {
    /// The text of the error.
    pub open spec fn text(self) -> Seq<char> {
        match self {
            TransportError::InvalidAddress(detail) => "Invalid address format: "@ + detail@,
            TransportError::Tcp(detail) => "TCP transport error: "@ + detail@,
            TransportError::Vsock(detail) => "VSOCK transport error: "@ + detail@,
            TransportError::NotSupported(detail) => "Transport not supported: "@ + detail@,
            TransportError::ConnectionFailed(detail) => "Connection failed: "@ + detail@,
            TransportError::BindFailed(detail) => "Bind failed: "@ + detail@,
        }
    }

    pub fn to_string(&self) -> (out: String)
        ensures
            out@ == self.text(),
    {
        match self {
            TransportError::InvalidAddress(detail) => join2(
                "Invalid address format: ",
                detail.as_str(),
            ),
            TransportError::Tcp(detail) => join2("TCP transport error: ", detail.as_str()),
            TransportError::Vsock(detail) => join2("VSOCK transport error: ", detail.as_str()),
            TransportError::NotSupported(detail) => join2(
                "Transport not supported: ",
                detail.as_str(),
            ),
            TransportError::ConnectionFailed(detail) => join2(
                "Connection failed: ",
                detail.as_str(),
            ),
            TransportError::BindFailed(detail) => join2("Bind failed: ", detail.as_str()),
        }
    }
}

/// The context identifier that a listener binds to: zero stands for any
/// context.
pub open spec fn bind_cid(cid: u32) -> u32 {
    if cid == 0 {
        VMADDR_CID_ANY
    } else {
        cid
    }
}

/// The text `cid:port` of a hypervisor-local endpoint.
pub open spec fn vsock_endpoint_text(cid: u32, port: u32) -> Seq<char> {
    decimal_digits(cid as nat) + seq![':'] + decimal_digits(port as nat)
}

fn vsock_endpoint_string(cid: u32, port: u32) -> (out: String)
    ensures
        out@ == vsock_endpoint_text(cid, port),
{
    proof {
        reveal_strlit(":");
        assert(":"@ =~= seq![':']);
    }
    let cid_text = decimal_string(cid as u64);
    let port_text = decimal_string(port as u64);
    join3(cid_text.as_str(), ":", port_text.as_str())
}

/// The detail of the error that reports a failed bind: the transport, the
/// address that was asked for, and the cause.
pub open spec fn bind_failed_text(config: TransportConfig, cause: Seq<char>) -> Seq<char> {
    match config {
        TransportConfig::Tcp(addr) => "TCP bind to "@ + addr.text() + " failed: "@ + cause,
        TransportConfig::Vsock { cid, port } => "VSOCK bind to "@ + vsock_endpoint_text(
            bind_cid(cid),
            port,
        ) + " failed: "@ + cause,
    }
}

/// The detail of the error that reports a failed connect: the transport, the
/// address that was dialed, and the cause.
pub open spec fn connect_failed_text(config: TransportConfig, cause: Seq<char>) -> Seq<char> {
    match config {
        TransportConfig::Tcp(addr) => "TCP connect to "@ + addr.text() + " failed: "@ + cause,
        TransportConfig::Vsock { cid, port } => "VSOCK connect to "@ + vsock_endpoint_text(
            cid,
            port,
        ) + " failed: "@ + cause,
    }
}

/// The network socket transport.
#[derive(Debug, Clone, Copy, PartialEq, Eq, Structural)]
pub struct TcpTransport;

/// The hypervisor-local socket transport.
#[derive(Debug, Clone, Copy, PartialEq, Eq, Structural)]
pub struct VsockTransport;

impl TcpTransport {
    pub fn new() -> (out: Self)
        ensures
            out == TcpTransport,
    {
        TcpTransport
    }

    pub fn name() -> (out: &'static str)
        ensures
            out@ == "TCP"@,
    {
        "TCP"
    }

    pub fn transport_type(&self) -> (kind: TransportType)
        ensures
            kind == TransportType::Tcp,
    {
        TransportType::Tcp
    }

    /// The socket address that this transport binds or dials for `config`.
    /// An address of the other transport is not supported.
    pub fn endpoint(config: &TransportConfig) -> (target: Result<SocketAddress, TransportError>)
        ensures
            match *config {
                TransportConfig::Tcp(addr) => target == Ok::<SocketAddress, TransportError>(addr),
                TransportConfig::Vsock { .. } => target matches Err(
                    TransportError::NotSupported(detail),
                ) && detail@ == "TCP transport does not support VSOCK addresses"@,
            },
    {
        match config {
            TransportConfig::Tcp(addr) => Ok(*addr),
            TransportConfig::Vsock { .. } => Err(
                TransportError::NotSupported(
                    String::from_str("TCP transport does not support VSOCK addresses"),
                ),
            ),
        }
    }
}

impl Default for TcpTransport {
    fn default() -> (out: Self)
        ensures
            out == TcpTransport,
    {
        TcpTransport
    }
}

impl VsockTransport {
    pub fn new() -> (out: Self)
        ensures
            out == VsockTransport,
    {
        VsockTransport
    }

    pub fn name() -> (out: &'static str)
        ensures
            out@ == "VSOCK"@,
    {
        "VSOCK"
    }

    pub fn transport_type(&self) -> (kind: TransportType)
        ensures
            kind == TransportType::Vsock,
    {
        TransportType::Vsock
    }

    /// The context identifier and port that a listener binds for `config`:
    /// context zero binds to any context. An address of the other transport
    /// is not supported.
    pub fn bind_endpoint(config: &TransportConfig) -> (target: Result<(u32, u32), TransportError>)
        ensures
            match *config {
                TransportConfig::Vsock { cid, port } => target == Ok::<
                    (u32, u32),
                    TransportError,
                >((bind_cid(cid), port)),
                TransportConfig::Tcp(_) => target matches Err(TransportError::NotSupported(detail))
                    && detail@ == "VSOCK transport does not support TCP addresses"@,
            },
    {
        match config {
            TransportConfig::Vsock { cid, port } => {
                let cid = if *cid == 0 {
                    VMADDR_CID_ANY
                } else {
                    *cid
                };
                Ok((cid, *port))
            },
            TransportConfig::Tcp(_) => Err(
                TransportError::NotSupported(
                    String::from_str("VSOCK transport does not support TCP addresses"),
                ),
            ),
        }
    }

    /// The context identifier and port that are dialed for `config`. An
    /// address of the other transport is not supported.
    pub fn connect_endpoint(config: &TransportConfig) -> (target: Result<
        (u32, u32),
        TransportError,
    >)
        ensures
            match *config {
                TransportConfig::Vsock { cid, port } => target == Ok::<
                    (u32, u32),
                    TransportError,
                >((cid, port)),
                TransportConfig::Tcp(_) => target matches Err(TransportError::NotSupported(detail))
                    && detail@ == "VSOCK transport does not support TCP addresses"@,
            },
    {
        match config {
            TransportConfig::Vsock { cid, port } => Ok((*cid, *port)),
            TransportConfig::Tcp(_) => Err(
                TransportError::NotSupported(
                    String::from_str("VSOCK transport does not support TCP addresses"),
                ),
            ),
        }
    }
}

impl Default for VsockTransport {
    fn default() -> (out: Self)
        ensures
            out == VsockTransport,
    {
        VsockTransport
    }
}

/// Either transport.
#[derive(Debug, Clone, Copy, PartialEq, Eq, Structural)]
pub enum AnyTransport {
    Tcp(TcpTransport),
    Vsock(VsockTransport),
}

impl AnyTransport {
    pub fn transport_type(&self) -> (kind: TransportType)
        ensures
            kind == match *self {
                AnyTransport::Tcp(_) => TransportType::Tcp,
                AnyTransport::Vsock(_) => TransportType::Vsock,
            },
    {
        match self {
            AnyTransport::Tcp(t) => t.transport_type(),
            AnyTransport::Vsock(t) => t.transport_type(),
        }
    }
}

/// The transport for a transport type. Every type has exactly one transport.
pub fn create_transport(transport_type: TransportType) -> (made: Result<AnyTransport, Error>)
    ensures
        made matches Ok(transport) && match transport_type {
            TransportType::Tcp => transport == AnyTransport::Tcp(TcpTransport),
            TransportType::Vsock => transport == AnyTransport::Vsock(VsockTransport),
        },
{
    match transport_type {
        TransportType::Tcp => Ok(AnyTransport::Tcp(TcpTransport::new())),
        TransportType::Vsock => Ok(AnyTransport::Vsock(VsockTransport::new())),
    }
}

/// Chooses the transport by the kind of address.
pub struct TransportFactory;

impl TransportFactory {
    /// The transport that serves `config`.
    pub fn transport_for(config: &TransportConfig) -> (transport: AnyTransport)
        ensures
            transport == match *config {
                TransportConfig::Tcp(_) => AnyTransport::Tcp(TcpTransport),
                TransportConfig::Vsock { .. } => AnyTransport::Vsock(VsockTransport),
            },
    {
        match config {
            TransportConfig::Tcp(_) => AnyTransport::Tcp(TcpTransport::new()),
            TransportConfig::Vsock { .. } => AnyTransport::Vsock(VsockTransport::new()),
        }
    }

    /// The name of the transport that serves `config`.
    pub fn transport_name(config: &TransportConfig) -> (name: &'static str)
        ensures
            name@ == match *config {
                TransportConfig::Tcp(_) => "TCP"@,
                TransportConfig::Vsock { .. } => "VSOCK"@,
            },
    {
        match config {
            TransportConfig::Tcp(_) => TcpTransport::name(),
            TransportConfig::Vsock { .. } => VsockTransport::name(),
        }
    }

    /// The error of a bind that failed with `cause`.
    pub fn bind_failed(config: &TransportConfig, cause: &str) -> (error: TransportError)
        ensures
            error matches TransportError::BindFailed(detail) && detail@ == bind_failed_text(
                *config,
                cause@,
            ),
    {
        match config {
            TransportConfig::Tcp(addr) => {
                let at = addr.to_string();
                TransportError::BindFailed(join4("TCP bind to ", at.as_str(), " failed: ", cause))
            },
            TransportConfig::Vsock { cid, port } => {
                let bound = if *cid == 0 {
                    VMADDR_CID_ANY
                } else {
                    *cid
                };
                let at = vsock_endpoint_string(bound, *port);
                TransportError::BindFailed(
                    join4("VSOCK bind to ", at.as_str(), " failed: ", cause),
                )
            },
        }
    }

    /// The error of a connect that failed with `cause`.
    pub fn connect_failed(config: &TransportConfig, cause: &str) -> (error: TransportError)
        ensures
            error matches TransportError::ConnectionFailed(detail) && detail@
                == connect_failed_text(*config, cause@),
    {
        match config {
            TransportConfig::Tcp(addr) => {
                let at = addr.to_string();
                TransportError::ConnectionFailed(
                    join4("TCP connect to ", at.as_str(), " failed: ", cause),
                )
            },
            TransportConfig::Vsock { cid, port } => {
                let at = vsock_endpoint_string(*cid, *port);
                TransportError::ConnectionFailed(
                    join4("VSOCK connect to ", at.as_str(), " failed: ", cause),
                )
            },
        }
    }
}

/// Reads `cid:port`, the address of a hypervisor-local endpoint without its
/// scheme. Any other text is an invalid address, reported with the text
/// itself.
pub fn parse_vsock_address(address: &str) -> (parsed: Result<(u32, u32), Error>)
    ensures
        match parse_vsock(address@) {
            Ok(pair) => parsed == Ok::<(u32, u32), Error>(pair),
            Err(_) => parsed matches Err(Error::Network(NetworkError::InvalidAddress { address: a }))
                && a@ == address@,
        },
{
    let chars = chars_of(address);
    proof {
        assert(chars@.subrange(0, chars.len() as int) =~= chars@);
    }
    match read_vsock(&chars, 0) {
        Ok(pair) => Ok(pair),
        Err(_) => Err(
            Error::Network(NetworkError::InvalidAddress { address: String::from_str(address) }),
        ),
    }
}

/// What is done on a connection or a listener when it fails.
#[derive(Debug, Clone, Copy, PartialEq, Eq, Structural)]
pub enum IoOperation {
    Read,
    Write,
    Close,
    Accept,
}

/// The name of a transport type in messages.
pub open spec fn transport_label(kind: TransportType) -> Seq<char> {
    match kind {
        TransportType::Tcp => "TCP"@,
        TransportType::Vsock => "VSOCK"@,
    }
}

/// The detail of a failed operation: the operation, the transport, and the
/// cause.
pub open spec fn io_failure_text(kind: TransportType, operation: IoOperation, cause: Seq<char>) -> Seq<
    char,
> {
    match operation {
        IoOperation::Read => transport_label(kind) + " read error: "@ + cause,
        IoOperation::Write => transport_label(kind) + " write error: "@ + cause,
        IoOperation::Close => "Failed to close "@ + transport_label(kind) + " connection: "@
            + cause,
        IoOperation::Accept => "Failed to accept "@ + transport_label(kind) + " connection: "@
            + cause,
    }
}

/// Whether `error` reports a failed operation as it should: a failed read
/// or write as a lost connection, a failed close or accept as an error of
/// the transport, each with the detail of the failure.
pub open spec fn is_io_failure(
    error: Error,
    kind: TransportType,
    operation: IoOperation,
    cause: Seq<char>,
) -> bool {
    match operation {
        IoOperation::Read | IoOperation::Write => error matches Error::Network(
            NetworkError::ConnectionLost { reason },
        ) && reason@ == io_failure_text(kind, operation, cause),
        IoOperation::Close | IoOperation::Accept => match kind {
            TransportType::Tcp => error matches Error::Transport(
                crate::error::TransportError::Tcp { message },
            ) && message@ == io_failure_text(kind, operation, cause),
            TransportType::Vsock => error matches Error::Transport(
                crate::error::TransportError::Vsock { message },
            ) && message@ == io_failure_text(kind, operation, cause),
        },
    }
}

fn transport_label_str(kind: TransportType) -> (label: &'static str)
    ensures
        label@ == transport_label(kind),
{
    match kind {
        TransportType::Tcp => "TCP",
        TransportType::Vsock => "VSOCK",
    }
}

/// The error of an operation on a connection or a listener that failed with
/// `cause`.
pub fn io_failure(kind: TransportType, operation: IoOperation, cause: &str) -> (error: Error)
    ensures
        is_io_failure(error, kind, operation, cause@),
{
    let label = transport_label_str(kind);
    match operation {
        IoOperation::Read => Error::Network(
            NetworkError::ConnectionLost { reason: join3(label, " read error: ", cause) },
        ),
        IoOperation::Write => Error::Network(
            NetworkError::ConnectionLost { reason: join3(label, " write error: ", cause) },
        ),
        IoOperation::Close => {
            let message = join4("Failed to close ", label, " connection: ", cause);
            match kind {
                TransportType::Tcp => Error::Transport(
                    crate::error::TransportError::Tcp { message },
                ),
                TransportType::Vsock => Error::Transport(
                    crate::error::TransportError::Vsock { message },
                ),
            }
        },
        IoOperation::Accept => {
            let message = join4("Failed to accept ", label, " connection: ", cause);
            match kind {
                TransportType::Tcp => Error::Transport(
                    crate::error::TransportError::Tcp { message },
                ),
                TransportType::Vsock => Error::Transport(
                    crate::error::TransportError::Vsock { message },
                ),
            }
        },
    }
}

} // verus!
