//! The port of the public listener: read from a setting, with a default.

use crate::error::{startup_failure, ServiceError, ServiceFailure};
use crate::text::{chars_of, is_blank, is_blank_str};
use vstd::prelude::*;

verus! {

/// The port of the onion listener, which is bound on the loopback interface.
pub const DEFAULT_ONION_PORT: u16 = 3000;

/// The port of the public listener where the setting names none.
pub const DEFAULT_PORT: u16 = 8080;

/// Why a string is no port number.
#[derive(Debug, Clone, Copy, PartialEq, Eq, Structural)]
pub enum ParseFault {
    /// The string is empty.
    Empty,
    /// Something other than a decimal digit stands where a digit must, or no
    /// digit follows the sign.
    InvalidDigit,
    /// The number is greater than 65535.
    Overflow,
}

/// Whether `c` is a decimal digit.
pub open spec fn is_digit(c: char) -> bool {
    '0' <= c <= '9'
}

/// The value of the decimal digit `c`.
pub open spec fn digit_value(c: char) -> nat {
    (c as u32 - '0' as u32) as nat
}

/// The number that the decimal digits `digits` write.
pub open spec fn decimal_value(digits: Seq<char>) -> nat
    decreases digits.len(),
{
    if digits.len() == 0 {
        0
    } else {
        decimal_value(digits.drop_last()) * 10 + digit_value(digits.last())
    }
}

/// How many decimal digits `s` starts with.
pub open spec fn digit_prefix_len(s: Seq<char>) -> nat
    decreases s.len(),
{
    if s.len() == 0 || !is_digit(s[0]) {
        0
    } else {
        1 + digit_prefix_len(s.skip(1))
    }
}

/// What `s` says as a port number: an optional `+`, then decimal digits and
/// nothing else, which write a number of at most 65535. Read from the left,
/// a number that has grown too large is reported before a character that is
/// no digit.
pub open spec fn parse_port(s: Seq<char>) -> Result<u16, ParseFault> {
    if s.len() == 0 {
        Err(ParseFault::Empty)
    } else {
        let body = if s[0] == '+' {
            s.skip(1)
        } else {
            s
        };
        let digits = body.take(digit_prefix_len(body) as int);
        if body.len() == 0 {
            Err(ParseFault::InvalidDigit)
        } else if decimal_value(digits) > u16::MAX {
            Err(ParseFault::Overflow)
        } else if digits.len() < body.len() {
            Err(ParseFault::InvalidDigit)
        } else {
            Ok(decimal_value(digits) as u16)
        }
    }
}

proof fn lemma_digit_prefix(s: Seq<char>, k: int)
    requires
        0 <= k <= s.len(),
        forall|j: int| 0 <= j < k ==> is_digit(#[trigger] s[j]),
    ensures
        k <= digit_prefix_len(s) <= s.len(),
        k == s.len() || !is_digit(s[k]) ==> digit_prefix_len(s) == k,
    decreases s.len(),
{
    if s.len() == 0 || !is_digit(s[0]) {
    } else if k == 0 {
        lemma_digit_prefix(s.skip(1), 0);
    } else {
        let rest = s.skip(1);
        assert forall|j: int| 0 <= j < k - 1 implies is_digit(#[trigger] rest[j]) by {
            assert(rest[j] == s[j + 1]);
        }
        lemma_digit_prefix(rest, k - 1);
        if k < s.len() {
            assert(rest[k - 1] == s[k]);
        }
    }
}

proof fn lemma_decimal_value_grows(digits: Seq<char>, k: int)
    requires
        0 <= k <= digits.len(),
    ensures
        decimal_value(digits.take(k)) <= decimal_value(digits),
    decreases digits.len() - k,
{
    if k == digits.len() {
        assert(digits.take(k) =~= digits);
    } else {
        lemma_decimal_value_grows(digits, k + 1);
        assert(digits.take(k + 1).drop_last() =~= digits.take(k));
    }
}

/// The value of the decimal digit `c`.
fn digit_of(c: char) -> (d: u32)
    requires
        is_digit(c),
    ensures
        d == digit_value(c),
        d <= 9,
{
    c as u32 - '0' as u32
}

/// Reads `s` as a port number.
pub fn parse_port_str(s: &str) -> (r: Result<u16, ParseFault>)
    ensures
        r == parse_port(s@),
{
    let chars = chars_of(s);
    let n = chars.len();
    if n == 0 {
        return Err(ParseFault::Empty);
    }
    let start: usize = if chars[0] == '+' {
        1
    } else {
        0
    };
    if start == n {
        return Err(ParseFault::InvalidDigit);
    }
    let ghost body = chars@.skip(start as int);
    assert(chars@.skip(0) =~= chars@);
    let mut value: u32 = 0;
    let mut i: usize = start;
    while i < n
        invariant
            start <= i <= n,
            start < n == chars.len(),
            chars@ == s@,
            body == if s@[0] == '+' {
                s@.skip(1)
            } else {
                s@
            },
            body == chars@.skip(start as int),
            forall|j: int| 0 <= j < i - start ==> is_digit(#[trigger] body[j]),
            value == decimal_value(body.take(i - start)),
            value <= u16::MAX,
        decreases n - i,
    {
        let c = chars[i];
        assert(c == body[i - start]);
        if !(c >= '0' && c <= '9') {
            proof {
                lemma_digit_prefix(body, i - start);
            }
            return Err(ParseFault::InvalidDigit);
        }
        let next = value * 10 + digit_of(c);
        proof {
            assert(body.take(i - start + 1).drop_last() =~= body.take(i - start));
            assert(next == decimal_value(body.take(i - start + 1)));
        }
        if next > 65535 {
            proof {
                lemma_digit_prefix(body, i - start + 1);
                let digits = body.take(digit_prefix_len(body) as int);
                lemma_decimal_value_grows(digits, i - start + 1);
                assert(digits.take(i - start + 1) =~= body.take(i - start + 1));
            }
            return Err(ParseFault::Overflow);
        }
        value = next;
        i = i + 1;
    }
    proof {
        lemma_digit_prefix(body, n - start);
        assert(body.take(n - start) =~= body);
    }
    Ok(value as u16)
}

/// What reading the port setting gave.
#[derive(Debug, Clone, PartialEq, Eq)]
pub enum PortSetting {
    /// The setting is absent.
    Absent,
    /// The setting is present.
    Value(String),
    /// The setting is present but is no Unicode; `shown` describes it.
    NotUnicode { shown: String },
}

/// How a parse fault reads in a message.
pub open spec fn fault_text(fault: ParseFault) -> Seq<char> {
    match fault {
        ParseFault::Empty => "ParseIntError { kind: Empty }"@,
        ParseFault::InvalidDigit => "ParseIntError { kind: InvalidDigit }"@,
        ParseFault::Overflow => "ParseIntError { kind: PosOverflow }"@,
    }
}

/// The port that `setting` stands for: the default where the setting is
/// absent or blank, the number that it writes where it writes one, and a
/// startup failure otherwise.
pub open spec fn resolve_port(setting: PortSetting) -> Result<u16, ServiceFailure> {
    match setting {
        PortSetting::Absent => Ok(DEFAULT_PORT),
        PortSetting::Value(text) => if is_blank(text@) {
            Ok(DEFAULT_PORT)
        } else {
            match parse_port(text@) {
                Ok(port) => Ok(port),
                Err(fault) => Err(
                    ServiceFailure::Startup("Unable to parse PORT as u16: "@ + fault_text(fault)),
                ),
            }
        },
        PortSetting::NotUnicode { shown } => Err(
            ServiceFailure::Startup("PORT is not a valid unicode string: "@ + shown@),
        ),
    }
}

/// The port that `setting` itself names: `None` where the port is the
/// default or where there is none.
pub open spec fn named_port(setting: PortSetting) -> Option<u16> {
    match setting {
        PortSetting::Value(text) => if is_blank(text@) {
            None
        } else {
            match parse_port(text@) {
                Ok(port) => Some(port),
                Err(_) => None,
            }
        },
        _ => None,
    }
}

/// The port that `setting` itself names, for the driver to tell that the
/// port comes from the setting and not from the default.
pub fn port_named_by(setting: &PortSetting) -> (port: Option<u16>)
    ensures
        port == named_port(*setting),
        port matches Some(p) ==> resolve_port(*setting) == Ok::<u16, ServiceFailure>(p),
{
    match setting {
        PortSetting::Value(text) => {
            if is_blank_str(text.as_str()) {
                None
            } else {
                match parse_port_str(text.as_str()) {
                    Ok(port) => Some(port),
                    Err(_) => None,
                }
            }
        },
        _ => None,
    }
}

/// How a parse fault reads in a message.
pub fn describe_fault(fault: ParseFault) -> (text: &'static str)
    ensures
        text@ == fault_text(fault),
{
    match fault {
        ParseFault::Empty => "ParseIntError { kind: Empty }",
        ParseFault::InvalidDigit => "ParseIntError { kind: InvalidDigit }",
        ParseFault::Overflow => "ParseIntError { kind: PosOverflow }",
    }
}

/// A port, or the failure that stands in its place, as the decisions see it.
pub open spec fn port_view(r: Result<u16, ServiceError>) -> Result<u16, ServiceFailure> {
    match r {
        Ok(port) => Ok(port),
        Err(e) => Err(e@),
    }
}

/// The port of the public listener, given what reading the setting gave.
pub fn resolve_public_port(setting: &PortSetting) -> (r: Result<u16, ServiceError>)
    ensures
        port_view(r) == resolve_port(*setting),
{
    match setting {
        PortSetting::Absent => Ok(DEFAULT_PORT),
        PortSetting::Value(text) => {
            if is_blank_str(text.as_str()) {
                Ok(DEFAULT_PORT)
            } else {
                match parse_port_str(text.as_str()) {
                    Ok(port) => Ok(port),
                    Err(fault) => Err(
                        startup_failure("Unable to parse PORT as u16: ", describe_fault(fault)),
                    ),
                }
            }
        },
        PortSetting::NotUnicode { shown } => Err(
            startup_failure("PORT is not a valid unicode string: ", shown.as_str()),
        ),
    }
}

} // verus!
