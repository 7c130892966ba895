//! Parsing manually entered peer addresses: `host`, `host:port` or
//! `[v6]:port`.
//!
//! The escape hatch that has to work when everything else is filtered. Users
//! type these by hand, so the forms people actually write are accepted and
//! the rest rejected with a reason naming what was typed. Whether the host
//! part is an IP literal is decided by the platform's address parser, whose
//! answer is handed to [`complete_address`]; host names are deliberately never
//! resolved, because resolution is a blocking network operation.

use vstd::prelude::*;
use crate::keycode::str_eq;

verus! {

/// Why a manually entered address was rejected.
#[derive(Debug, Clone, PartialEq, Eq)]
pub enum AddressError {
    /// The field was empty.
    Empty,
    /// The port was not a number, or was zero.
    BadPort {
        /// What was typed.
        found: String,
    },
    /// The host part was not an IP address.
    BadHost {
        /// What was typed.
        found: String,
    },
}

/// The message an address error displays.
pub open spec fn address_message(e: AddressError) -> Seq<char> {
    match e {
        AddressError::Empty => "enter an address, for example 192.168.1.42"@,
        AddressError::BadPort { found } => "'"@ + found@ + "' is not a valid port number"@,
        AddressError::BadHost { found } => "'"@ + found@ + "' is not an IP address"@,
    }
}

impl AddressError {
    /// The message shown for this error, intended for a text field's label.
    pub fn to_string(&self) -> (s: String)
        ensures
            s@ == address_message(*self),
    {
        match self {
            AddressError::Empty => String::from_str("enter an address, for example 192.168.1.42"),
            AddressError::BadPort { found } => {
                let mut s = String::from_str("'");
                s.append(found.as_str());
                s.append("' is not a valid port number");
                s
            },
            AddressError::BadHost { found } => {
                let mut s = String::from_str("'");
                s.append(found.as_str());
                s.append("' is not an IP address");
                s
            },
        }
    }
}

/// A character of Unicode's `White_Space` property: what `char::is_whitespace`
/// accepts, and so what `str::trim` removes.
pub open spec fn is_white_space(c: char) -> bool {
    ('\u{9}' <= c <= '\u{D}') || c == ' ' || c == '\u{85}' || c == '\u{A0}' || c == '\u{1680}' || (
    '\u{2000}' <= c <= '\u{200A}') || c == '\u{2028}' || c == '\u{2029}' || c == '\u{202F}' || c
        == '\u{205F}' || c == '\u{3000}'
}

/// `s` without its leading white space.
pub open spec fn strip_start(s: Seq<char>) -> Seq<char>
    decreases s.len(),
{
    if s.len() > 0 && is_white_space(s[0]) {
        strip_start(s.drop_first())
    } else {
        s
    }
}

/// `s` without its trailing white space.
pub open spec fn strip_end(s: Seq<char>) -> Seq<char>
    decreases s.len(),
{
    if s.len() > 0 && is_white_space(s.last()) {
        strip_end(s.drop_last())
    } else {
        s
    }
}

/// `s` with leading and trailing white space removed, as `str::trim` leaves
/// it.
pub open spec fn trim_text(s: Seq<char>) -> Seq<char> {
    strip_end(strip_start(s))
}

/// Whether `c` is white space.
fn white_space(c: char) -> (r: bool)
    ensures
        r == is_white_space(c),
{
    ('\u{9}' <= c && c <= '\u{D}') || c == ' ' || c == '\u{85}' || c == '\u{A0}' || c
        == '\u{1680}' || ('\u{2000}' <= c && c <= '\u{200A}') || c == '\u{2028}' || c == '\u{2029}'
        || c == '\u{202F}' || c == '\u{205F}' || c == '\u{3000}'
}

/// `s` with leading and trailing white space removed.
fn trimmed(s: &str) -> (t: String)
    ensures
        t@ == trim_text(s@),
{
    let n = s.unicode_len();
    let mut lo: usize = 0;
    assert(s@.skip(0) =~= s@);
    while lo < n && white_space(s.get_char(lo))
        invariant
            n == s@.len(),
            lo <= n,
            strip_start(s@) == strip_start(s@.skip(lo as int)),
        decreases n - lo,
    {
        assert(s@.skip(lo as int).drop_first() =~= s@.skip(lo + 1));
        lo = lo + 1;
    }
    assert(strip_start(s@) == s@.skip(lo as int)) by {
        if lo == n {
            assert(s@.skip(lo as int) =~= Seq::<char>::empty());
        }
    }
    let mut hi: usize = n;
    while hi > lo && white_space(s.get_char(hi - 1))
        invariant
            n == s@.len(),
            lo <= hi <= n,
            strip_start(s@) == s@.skip(lo as int),
            trim_text(s@) == strip_end(s@.subrange(lo as int, hi as int)),
        decreases hi - lo,
    {
        assert(s@.subrange(lo as int, hi as int).drop_last() =~= s@.subrange(lo as int, hi - 1));
        hi = hi - 1;
    }
    assert(s@.skip(lo as int) =~= s@.subrange(lo as int, n as int));
    String::from_str(s.substring_char(lo, hi))
}

/// Decimal value of a string of ASCII digits.
pub open spec fn digits_value(s: Seq<char>) -> nat
    decreases s.len(),
{
    if s.len() == 0 {
        0
    } else {
        digits_value(s.drop_last()) * 10 + (s.last() as nat - '0' as nat) as nat
    }
}

/// Every character is an ASCII digit.
pub open spec fn all_digits(s: Seq<char>) -> bool {
    forall|i: int| 0 <= i < s.len() ==> '0' <= #[trigger] s[i] <= '9'
}

/// The `u16` that `str::parse` reads from `s`: an optional `+`, then one or
/// more ASCII digits whose value fits.
pub open spec fn u16_of(s: Seq<char>) -> Option<u16> {
    let d = if s.len() > 0 && s[0] == '+' {
        s.subrange(1, s.len() as int)
    } else {
        s
    };
    if d.len() > 0 && all_digits(d) && digits_value(d) <= u16::MAX {
        Some(digits_value(d) as u16)
    } else {
        None
    }
}

/// The port a typed string names: a `u16` other than 0, which asks the OS to
/// choose and cannot be a destination.
pub open spec fn port_of(s: Seq<char>) -> Option<u16> {
    match u16_of(s) {
        Some(p) => if p != 0 {
            Some(p)
        } else {
            None
        },
        None => None,
    }
}

proof fn lemma_digits_value_grows(s: Seq<char>, k: int)
    requires
        0 <= k <= s.len(),
        all_digits(s),
    ensures
        digits_value(s.take(k)) <= digits_value(s),
    decreases s.len() - k,
{
    if k < s.len() {
        let t = s.take(k + 1);
        assert(t.drop_last() =~= s.take(k));
        assert(all_digits(t));
        lemma_digits_value_grows(s, k + 1);
    } else {
        assert(s.take(k) =~= s);
    }
}

/// Parses a typed port.
pub fn parse_port(text: &str) -> (r: Result<u16, AddressError>)
    ensures
        match port_of(text@) {
            Some(p) => r == Ok::<u16, AddressError>(p),
            None => r matches Err(AddressError::BadPort { found }) && found@ == text@,
        },
{
    let n = text.unicode_len();
    let mut start: usize = 0;
    if n > 0 && text.get_char(0) == '+' {
        start = 1;
    }
    let ghost d = if text@.len() > 0 && text@[0] == '+' {
        text@.subrange(1, text@.len() as int)
    } else {
        text@
    };
    assert(d =~= text@.subrange(start as int, n as int));
    if start >= n {
        return Err(AddressError::BadPort { found: String::from_str(text) });
    }
    let mut value: u32 = 0;
    let mut i: usize = start;
    while i < n
        invariant
            start <= i <= n,
            n == text@.len(),
            d == text@.subrange(start as int, n as int),
            d == (if text@.len() > 0 && text@[0] == '+' {
                text@.subrange(1, text@.len() as int)
            } else {
                text@
            }),
            all_digits(d.take(i - start)),
            value == digits_value(d.take(i - start)),
            value <= u16::MAX,
        decreases n - i,
    {
        let c = text.get_char(i);
        let ghost t = d.take(i - start + 1);
        assert(t.drop_last() =~= d.take(i - start));
        assert(t.last() == c);
        if !('0' <= c && c <= '9') {
            assert(!all_digits(d)) by {
                assert(d[i - start] == c);
            }
            return Err(AddressError::BadPort { found: String::from_str(text) });
        }
        let digit: u32 = (c as u32) - ('0' as u32);
        let next: u32 = value * 10 + digit;
        if next > 65535 {
            proof {
                if all_digits(d) {
                    lemma_digits_value_grows(d, i - start + 1);
                }
            }
            return Err(AddressError::BadPort { found: String::from_str(text) });
        }
        value = next;
        i = i + 1;
    }
    assert(d.take(n - start) =~= d);
    if value == 0 {
        return Err(AddressError::BadPort { found: String::from_str(text) });
    }
    Ok(value as u16)
}

/// Number of times `c` occurs in `s`.
pub open spec fn occurrences(s: Seq<char>, c: char) -> nat
    decreases s.len(),
{
    if s.len() == 0 {
        0
    } else {
        occurrences(s.drop_last(), c) + if s.last() == c {
            1nat
        } else {
            0nat
        }
    }
}

/// `i` is the first position of `c` in `s`.
pub open spec fn first_at(s: Seq<char>, c: char, i: int) -> bool {
    0 <= i < s.len() && s[i] == c && forall|j: int| 0 <= j < i ==> s[j] != c
}

/// The first position of `c` in `s`, if it occurs.
pub open spec fn first_index(s: Seq<char>, c: char) -> Option<int> {
    if exists|i: int| first_at(s, c, i) {
        Some(choose|i: int| first_at(s, c, i))
    } else {
        None
    }
}

/// Finds the first `c` in `text` from position `from` on.
fn find_char(text: &str, c: char, from: usize) -> (r: Option<usize>)
    requires
        from <= text@.len(),
    ensures
        match r {
            Some(i) => from <= i < text@.len() && text@[i as int] == c && forall|j: int|
                from <= j < i ==> text@[j] != c,
            None => forall|j: int| from <= j < text@.len() ==> text@[j] != c,
        },
{
    let n = text.unicode_len();
    let mut i: usize = from;
    while i < n
        invariant
            from <= i <= n,
            n == text@.len(),
            forall|j: int| from <= j < i ==> text@[j] != c,
        decreases n - i,
    {
        if text.get_char(i) == c {
            return Some(i);
        }
        i = i + 1;
    }
    None
}

/// Counts the occurrences of `c` in `text`.
fn count_char(text: &str, c: char) -> (r: usize)
    ensures
        r == occurrences(text@, c),
{
    let n = text.unicode_len();
    let mut count: usize = 0;
    let mut i: usize = 0;
    assert(text@.take(0) =~= Seq::<char>::empty());
    while i < n
        invariant
            i <= n,
            n == text@.len(),
            count == occurrences(text@.take(i as int), c),
            count <= i,
        decreases n - i,
    {
        let ghost t = text@.take(i as int + 1);
        assert(t.drop_last() =~= text@.take(i as int));
        if text.get_char(i) == c {
            count = count + 1;
        }
        i = i + 1;
    }
    assert(text@.take(n as int) =~= text@);
    count
}

/// The pieces of a typed address, before the host is checked.
#[derive(Debug, Clone, PartialEq, Eq)]
pub enum AddressShape {
    /// `[host]` followed by `tail`, which must be empty or `:port`.
    Bracketed {
        /// The whole trimmed text.
        text: String,
        /// What is between the brackets.
        host: String,
        /// What follows the closing bracket.
        tail: String,
    },
    /// `host:port`, with exactly one colon: a bare IPv6 literal has several,
    /// so a single colon is the only unambiguous unbracketed form.
    HostPort {
        /// Before the colon.
        host: String,
        /// After the colon.
        port: String,
    },
    /// A host with no port.
    Bare {
        /// The whole trimmed text.
        host: String,
    },
}

impl AddressShape {
    /// The part that must be an IP address.
    pub fn host(&self) -> (h: &str)
        ensures
            h@ == match *self {
                AddressShape::Bracketed { host, .. } => host@,
                AddressShape::HostPort { host, .. } => host@,
                AddressShape::Bare { host } => host@,
            },
    {
        match self {
            AddressShape::Bracketed { host, .. } => host.as_str(),
            AddressShape::HostPort { host, .. } => host.as_str(),
            AddressShape::Bare { host } => host.as_str(),
        }
    }
}

/// The shape of an already trimmed address, or why it has none.
pub open spec fn shape_spec(text: Seq<char>, r: Result<AddressShape, AddressError>) -> bool {
    if text.len() == 0 {
        r matches Err(AddressError::Empty)
    } else if text[0] == '[' {
        let rest = text.subrange(1, text.len() as int);
        match first_index(rest, ']') {
            Some(k) => r matches Ok(AddressShape::Bracketed { text: t, host, tail }) && t@ == text
                && host@ == rest.subrange(0, k) && tail@ == rest.subrange(k + 1, rest.len() as int),
            None => r matches Err(AddressError::BadHost { found }) && found@ == text,
        }
    } else if occurrences(text, ':') == 1 {
        match first_index(text, ':') {
            Some(c) => r matches Ok(AddressShape::HostPort { host, port }) && host@ == text.subrange(
                0,
                c,
            ) && port@ == text.subrange(c + 1, text.len() as int),
            None => false,
        }
    } else {
        r matches Ok(AddressShape::Bare { host }) && host@ == text
    }
}

proof fn lemma_first_index_is(s: Seq<char>, c: char, i: int)
    requires
        first_at(s, c, i),
    ensures
        first_index(s, c) == Some(i),
{
    let k = choose|k: int| first_at(s, c, k);
    if k < i {
        assert(s[k] != c);
    } else if k > i {
        assert(s[i] != c);
    }
}

proof fn lemma_first_index_none(s: Seq<char>, c: char)
    requires
        forall|j: int| 0 <= j < s.len() ==> s[j] != c,
    ensures
        first_index(s, c) is None,
{
}

proof fn lemma_occurrence_exists(s: Seq<char>, c: char)
    requires
        occurrences(s, c) > 0,
    ensures
        exists|j: int| 0 <= j < s.len() && s[j] == c,
    decreases s.len(),
{
    if s.last() != c {
        lemma_occurrence_exists(s.drop_last(), c);
        let j = choose|j: int| 0 <= j < s.drop_last().len() && s.drop_last()[j] == c;
        assert(s[j] == c);
    } else {
        assert(s[s.len() - 1] == c);
    }
}

/// Splits an already trimmed address into its shape.
pub fn shape_of_trimmed(text: &str) -> (r: Result<AddressShape, AddressError>)
    ensures
        shape_spec(text@, r),
{
    let n = text.unicode_len();
    if n == 0 {
        return Err(AddressError::Empty);
    }
    if text.get_char(0) == '[' {
        let ghost rest = text@.subrange(1, n as int);
        match find_char(text, ']', 1) {
            Some(k) => {
                proof {
                    assert(first_at(rest, ']', k - 1)) by {
                        assert forall|j: int| 0 <= j < k - 1 implies rest[j] != ']' by {
                            assert(rest[j] == text@[j + 1]);
                        }
                    }
                    lemma_first_index_is(rest, ']', k - 1);
                }
                let host = text.substring_char(1, k);
                let tail = text.substring_char(k + 1, n);
                assert(host@ =~= rest.subrange(0, k - 1));
                assert(tail@ =~= rest.subrange(k as int, rest.len() as int));
                return Ok(
                    AddressShape::Bracketed {
                        text: String::from_str(text),
                        host: String::from_str(host),
                        tail: String::from_str(tail),
                    },
                );
            },
            None => {
                proof {
                    assert forall|j: int| 0 <= j < rest.len() implies rest[j] != ']' by {
                        assert(rest[j] == text@[j + 1]);
                    }
                    lemma_first_index_none(rest, ']');
                }
                return Err(AddressError::BadHost { found: String::from_str(text) });
            },
        }
    }
    if count_char(text, ':') == 1 {
        match find_char(text, ':', 0) {
            Some(c) => {
                proof {
                    lemma_first_index_is(text@, ':', c as int);
                }
                let host = text.substring_char(0, c);
                let port = text.substring_char(c + 1, n);
                return Ok(
                    AddressShape::HostPort {
                        host: String::from_str(host),
                        port: String::from_str(port),
                    },
                );
            },
            None => {
                proof {
                    lemma_occurrence_exists(text@, ':');
                }
                return Err(AddressError::Empty);
            },
        }
    }
    Ok(AddressShape::Bare { host: String::from_str(text) })
}

/// Trims surrounding white space, which users paste along with addresses,
/// and splits the rest into its shape.
pub fn address_shape(input: &str) -> (r: Result<AddressShape, AddressError>)
    ensures
        shape_spec(trim_text(input@), r),
{
    let text = trimmed(input);
    shape_of_trimmed(text.as_str())
}

/// The port an address of this shape connects to, given whether its host is
/// an IP literal, or why the address is refused.
///
/// The host is judged first, so an address wrong in both places is reported
/// by its host, as typed.
pub open spec fn completion(
    shape: AddressShape,
    host_is_ip: bool,
    default_port: u16,
    r: Result<u16, AddressError>,
) -> bool {
    match shape {
        AddressShape::Bracketed { text, host, tail } => if !host_is_ip {
            r matches Err(AddressError::BadHost { found }) && found@ == host@
        } else if tail@.len() > 0 && tail@[0] == ':' {
            match port_of(tail@.subrange(1, tail@.len() as int)) {
                Some(p) => r == Ok::<u16, AddressError>(p),
                None => r matches Err(AddressError::BadPort { found }) && found@ == tail@.subrange(
                    1,
                    tail@.len() as int,
                ),
            }
        } else if tail@.len() == 0 {
            r == Ok::<u16, AddressError>(default_port)
        } else {
            r matches Err(AddressError::BadHost { found }) && found@ == text@
        },
        AddressShape::HostPort { host, port } => if !host_is_ip {
            r matches Err(AddressError::BadHost { found }) && found@ == host@
        } else {
            match port_of(port@) {
                Some(p) => r == Ok::<u16, AddressError>(p),
                None => r matches Err(AddressError::BadPort { found }) && found@ == port@,
            }
        },
        AddressShape::Bare { host } => if !host_is_ip {
            r matches Err(AddressError::BadHost { found }) && found@ == host@
        } else {
            r == Ok::<u16, AddressError>(default_port)
        },
    }
}

/// Finishes parsing an address once its host has been checked: the port it
/// names, `default_port` when none is given, or why it is refused.
pub fn complete_address(shape: &AddressShape, host_is_ip: bool, default_port: u16) -> (r: Result<
    u16,
    AddressError,
>)
    ensures
        completion(*shape, host_is_ip, default_port, r),
        r is Ok ==> host_is_ip,
{
    match shape {
        AddressShape::Bracketed { text, host, tail } => {
            if !host_is_ip {
                return Err(AddressError::BadHost { found: host.clone() });
            }
            let n = tail.as_str().unicode_len();
            if n > 0 && tail.as_str().get_char(0) == ':' {
                parse_port(tail.as_str().substring_char(1, n))
            } else if n == 0 {
                Ok(default_port)
            } else {
                Err(AddressError::BadHost { found: text.clone() })
            }
        },
        AddressShape::HostPort { host, port } => {
            if !host_is_ip {
                return Err(AddressError::BadHost { found: host.clone() });
            }
            parse_port(port.as_str())
        },
        AddressShape::Bare { host } => {
            if !host_is_ip {
                return Err(AddressError::BadHost { found: host.clone() });
            }
            Ok(default_port)
        },
    }
}


/// A peer's socket address: an IP address, held as sixteen octets of which an
/// IPv4 address uses the first four, its family, and a port.
#[derive(Debug, Clone, Copy, PartialEq, Eq)]
pub struct PeerAddress {
    /// The address's octets, in network order.
    pub ip: [u8; 16],
    /// True for IPv6, false for IPv4.
    pub v6: bool,
    /// The port.
    pub port: u16,
}

/// The port a parsed address carries, or why it was refused.
pub open spec fn port_outcome(r: Result<PeerAddress, AddressError>) -> Result<u16, AddressError> {
    match r {
        Ok(a) => Ok(a.port),
        Err(e) => Err(e),
    }
}

/// Finishes parsing an address of this shape, given what its host reads as
/// an IP literal (`None` when it is not one): the address with the port the
/// text names, `default_port` when it names none, or why it is refused. The
/// host is never resolved as a name.
pub fn peer_address(shape: &AddressShape, host_ip: Option<([u8; 16], bool)>, default_port: u16) -> (r:
    Result<PeerAddress, AddressError>)
    ensures
        completion(*shape, host_ip is Some, default_port, port_outcome(r)),
        r matches Ok(a) ==> host_ip == Some((a.ip, a.v6)),
{
    let port = complete_address(shape, host_ip.is_some(), default_port)?;
    match host_ip {
        Some((ip, v6)) => Ok(PeerAddress { ip, v6, port }),
        None => Err(AddressError::BadHost { found: String::from_str(shape.host()) }),
    }
}

/// The address to connect to for an announcement heard from `from`: the
/// address the packet came from, with the port the announcement names, so no
/// sender can redirect connections to a host of its choosing.
pub fn connect_address(from: PeerAddress, announced_port: u16) -> (a: PeerAddress)
    ensures
        a.ip == from.ip,
        a.v6 == from.v6,
        a.port == announced_port,
{
    PeerAddress { ip: from.ip, v6: from.v6, port: announced_port }
}

} // verus!
