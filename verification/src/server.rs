//! Rules of the server around the handlers: the request counter and the
//! origins that may call.

use crate::text::{chars_of, ends_with, same_text, starts_with, trim, trimmed};
use vstd::prelude::*;

verus! {

/// Counts the requests that the server has seen.
#[derive(Debug, Clone, Copy, PartialEq, Eq, Structural)]
pub struct RequestCounterMiddleware {
    counter: i32,
}

impl RequestCounterMiddleware {
    /// The number of requests counted.
    pub closed spec fn view(&self) -> int {
        self.counter as int
    }

    /// A counter that starts at `counter`.
    pub fn new(counter: i32) -> (r: Self)
        ensures
            r@ == counter,
    {
        Self { counter }
    }

    /// The number of requests counted.
    pub fn count(&self) -> (n: i32)
        ensures
            n == self@,
    {
        self.counter
    }

    /// Counts one more request.
    pub fn record(&mut self)
        requires
            old(self)@ < i32::MAX,
        ensures
            final(self)@ == old(self)@ + 1,
    {
        self.counter = self.counter + 1;
    }
}

/// The port that the server listens on where none is configured.
pub const DEFAULT_PORT: u16 = 3001;

/// The value of a decimal digit; `None` for any other character.
pub open spec fn digit_value(c: char) -> Option<int> {
    if '0' <= c <= '9' {
        Some(c as int - '0' as int)
    } else {
        None
    }
}

/// Every character of `s` is a decimal digit.
pub open spec fn all_digits(s: Seq<char>) -> bool {
    forall|i: int| 0 <= i < s.len() ==> (#[trigger] digit_value(s[i])) is Some
}

/// The number that a sequence of decimal digits denotes.
pub open spec fn decimal_value(s: Seq<char>) -> int
    decreases s.len(),
{
    if s.len() == 0 {
        0
    } else {
        10 * decimal_value(s.drop_last()) + digit_value(s.last())->0
    }
}

/// The port that a text denotes: decimal digits, at least one, after an
/// optional plus sign, that denote a number which fits a port.
pub open spec fn port_of(text: Seq<char>) -> Option<u16> {
    let digits = if text.len() > 0 && text[0] == '+' {
        text.drop_first()
    } else {
        text
    };
    if digits.len() > 0 && all_digits(digits) && decimal_value(digits) <= u16::MAX {
        Some(decimal_value(digits) as u16)
    } else {
        None
    }
}

/// The port to listen on: the configured one if it is a port, else the default.
pub open spec fn chosen_port(configured: Option<Seq<char>>) -> u16 {
    match configured {
        Some(text) => match port_of(text) {
            Some(port) => port,
            None => DEFAULT_PORT,
        },
        None => DEFAULT_PORT,
    }
}

/// More digits never denote a smaller number.
pub proof fn lemma_decimal_grows(s: Seq<char>, k: int)
    requires
        all_digits(s),
        0 <= k <= s.len(),
    ensures
        0 <= decimal_value(s.take(k)) <= decimal_value(s),
    decreases s.len() - k,
{
    if k == s.len() {
        assert(s.take(k) =~= s);
        lemma_decimal_nonnegative(s);
    } else {
        lemma_decimal_grows(s, k + 1);
        let t = s.take(k + 1);
        assert(t.drop_last() =~= s.take(k));
        assert(t.last() == s[k]);
        assert(digit_value(s[k]) is Some);
        lemma_decimal_nonnegative(s.take(k));
    }
}

/// A sequence of digits denotes no negative number.
proof fn lemma_decimal_nonnegative(s: Seq<char>)
    requires
        all_digits(s),
    ensures
        decimal_value(s) >= 0,
    decreases s.len(),
{
    if s.len() > 0 {
        assert(digit_value(s.last()) is Some);
        assert forall|i: int| 0 <= i < s.drop_last().len() implies (#[trigger] digit_value(
            s.drop_last()[i],
        )) is Some by {
            assert(s.drop_last()[i] == s[i]);
        }
        lemma_decimal_nonnegative(s.drop_last());
    }
}

/// The configured origin opens the server to every origin.
pub open spec fn is_open_to_all(configured: Seq<char>) -> bool {
    trim(configured) == "*"@
}

/// The origin is a development server on a private network: port 3000 on
/// an address that begins like one of the private ranges.
pub open spec fn is_private_dev_origin(origin: Seq<char>) -> bool {
    ":3000"@.is_suffix_of(origin) && ("http://10."@.is_prefix_of(origin)
        || "http://192.168."@.is_prefix_of(origin) || "http://172.16."@.is_prefix_of(origin)
        || "http://172.17."@.is_prefix_of(origin) || "http://172.18."@.is_prefix_of(origin)
        || "http://172.19."@.is_prefix_of(origin) || "http://172.2"@.is_prefix_of(origin)
        || "http://172.30."@.is_prefix_of(origin) || "http://172.31."@.is_prefix_of(origin))
}

/// The origins that may call a server that is not open to all: the
/// configured one, the local development servers, and development servers
/// on a private network.
pub open spec fn is_allowed_origin(origin: Seq<char>, configured: Seq<char>) -> bool {
    origin == configured || origin == "http://localhost:3000"@ || origin
        == "http://127.0.0.1:3000"@ || is_private_dev_origin(origin)
}

/// Reads a port from a text.
pub fn parse_port(text: &str) -> (r: Option<u16>)
    ensures
        r == port_of(text@),
{
    let v = chars_of(text);
    let start: usize = if v.len() > 0 && v[0] == '+' {
        1
    } else {
        0
    };
    let ghost digits = if text@.len() > 0 && text@[0] == '+' {
        text@.drop_first()
    } else {
        text@
    };
    assert(digits =~= v@.subrange(start as int, v@.len() as int));
    if v.len() == start {
        return None;
    }
    let mut value: u32 = 0;
    let mut i: usize = start;
    assert(digits.take(0) =~= Seq::<char>::empty());
    while i < v.len()
        invariant
            start <= i <= v@.len(),
            v@ == text@,
            digits == v@.subrange(start as int, v@.len() as int),
            digits == (if text@.len() > 0 && text@[0] == '+' {
                text@.drop_first()
            } else {
                text@
            }),
            all_digits(digits.take(i - start)),
            value == decimal_value(digits.take(i - start)),
            value <= u16::MAX,
        decreases v@.len() - i,
    {
        let c = v[i];
        assert(digits[i - start] == c);
        if !('0' <= c && c <= '9') {
            assert(digit_value(digits[i - start]) is None);
            return None;
        }
        let d: u32 = c as u32 - '0' as u32;
        let ghost next = digits.take(i - start + 1);
        assert(next.drop_last() =~= digits.take(i - start));
        assert(next.last() == c);
        assert forall|j: int| 0 <= j < next.len() implies (#[trigger] digit_value(next[j])) is Some by {
            if j < i - start {
                assert(digits.take(i - start)[j] == next[j]);
            }
        }
        let grown: u32 = 10 * value + d;
        assert(grown == decimal_value(next));
        if grown > 65535 {
            proof {
                if all_digits(digits) {
                    lemma_decimal_grows(digits, i - start + 1);
                }
            }
            return None;
        }
        value = grown;
        i += 1;
    }
    assert(digits.take(digits.len() as int) =~= digits);
    Some(value as u16)
}

/// The port to listen on, given what is configured.
pub fn listen_port(configured: Option<&str>) -> (port: u16)
    ensures
        port == chosen_port(
            match configured {
                Some(text) => Some(text@),
                None => None,
            },
        ),
{
    match configured {
        Some(text) => match parse_port(text) {
            Some(port) => port,
            None => DEFAULT_PORT,
        },
        None => DEFAULT_PORT,
    }
}

/// Whether the configured origin opens the server to every origin.
pub fn open_to_all(configured: &str) -> (r: bool)
    ensures
        r == is_open_to_all(configured@),
{
    same_text(trimmed(configured), "*")
}

/// Whether `origin` may call a server whose configured origin is `configured`.
pub fn origin_allowed(origin: &str, configured: &str) -> (r: bool)
    ensures
        r == is_allowed_origin(origin@, configured@),
{
    if same_text(origin, configured) || same_text(origin, "http://localhost:3000") || same_text(
        origin,
        "http://127.0.0.1:3000",
    ) {
        return true;
    }
    ends_with(origin, ":3000") && (starts_with(origin, "http://10.") || starts_with(
        origin,
        "http://192.168.",
    ) || starts_with(origin, "http://172.16.") || starts_with(origin, "http://172.17.")
        || starts_with(origin, "http://172.18.") || starts_with(origin, "http://172.19.")
        || starts_with(origin, "http://172.2") || starts_with(origin, "http://172.30.")
        || starts_with(origin, "http://172.31."))
}

} // verus!
