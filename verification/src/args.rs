//! Command-line options and the parsers and defaults behind them.

use vstd::prelude::*;
use vstd::string::*;
use crate::helpers::{slugify, slug_of, dashes_to_underscores, is_slug_with};
use crate::strings::concat2;

verus! {

/// Options of the command line.
#[derive(Debug, PartialEq)]
pub struct Cli {
    pub quiet: bool,
    pub verbose: bool,
    pub command: Commands,
}

/// The commands of the command line.
#[derive(Debug, PartialEq)]
pub enum Commands {
    /// Run the MQTT device.
    Run {
        mqtt_broker_info: MqttBrokerInfo,
        device_name: String,
        sample_device: bool,
        publish_interval: std::time::Duration,
        device_manager_id: String,
        prefix: Option<String>,
    },
    /// Check whether the running service is connected.
    HealthCheck,
}

/// The name of the device provider: the device name, after the prefix when
/// one is given.
pub fn prefixed_device_name(prefix: &Option<String>, device_name: &String) -> (r: String)
    ensures
        r@ == (match prefix {
            Some(p) => p@ + device_name@,
            None => device_name@,
        }),
{
    match prefix {
        Some(p) => concat2(p.as_str(), device_name.as_str()),
        None => device_name.clone(),
    }
}

/// How to reach and log into the MQTT broker.
#[derive(Debug, Clone, PartialEq)]
pub struct MqttBrokerInfo {
    pub username: String,
    pub password: String,
    pub host: String,
    pub port: u16,
    pub disable_tls: bool,
}

/// Why a text is not an unsigned 64-bit integer.
#[derive(Debug, Clone, Copy, PartialEq, Eq, Structural)]
pub enum ParseIntErrorKind {
    Empty,
    InvalidDigit,
    PosOverflow,
}

/// The message that describes a parse error.
pub open spec fn parse_error_text(kind: ParseIntErrorKind) -> Seq<char> {
    match kind {
        ParseIntErrorKind::Empty => "cannot parse integer from empty string"@,
        ParseIntErrorKind::InvalidDigit => "invalid digit found in string"@,
        ParseIntErrorKind::PosOverflow => "number too large to fit in target type"@,
    }
}

/// An ASCII decimal digit.
pub open spec fn is_digit(c: char) -> bool {
    '0' <= c && c <= '9'
}

/// The value of an ASCII decimal digit.
pub open spec fn digit_value(c: char) -> int {
    (c as int) - ('0' as int)
}

/// Reads the digits `d` from the left onto the value `acc`: the first
/// non-digit is an invalid digit, and a value past `u64::MAX` an overflow.
pub open spec fn parse_digits(d: Seq<char>, acc: int) -> Result<int, ParseIntErrorKind>
    decreases d.len(),
{
    if d.len() == 0 {
        Ok(acc)
    } else if !is_digit(d[0]) {
        Err(ParseIntErrorKind::InvalidDigit)
    } else if acc * 10 + digit_value(d[0]) > u64::MAX {
        Err(ParseIntErrorKind::PosOverflow)
    } else {
        parse_digits(d.subrange(1, d.len() as int), acc * 10 + digit_value(d[0]))
    }
}

/// The unsigned 64-bit integer a text stands for: decimal digits, optionally
/// after one `+`.
pub open spec fn parse_u64_spec(s: Seq<char>) -> Result<int, ParseIntErrorKind> {
    if s.len() == 0 {
        Err(ParseIntErrorKind::Empty)
    } else if s.len() == 1 && (s[0] == '+' || s[0] == '-') {
        Err(ParseIntErrorKind::InvalidDigit)
    } else if s[0] == '+' {
        parse_digits(s.subrange(1, s.len() as int), 0)
    } else {
        parse_digits(s, 0)
    }
}

proof fn lemma_parse_digits_bounded(d: Seq<char>, acc: int)
    requires
        0 <= acc <= u64::MAX,
    ensures
        parse_digits(d, acc) matches Ok(v) ==> 0 <= v <= u64::MAX,
    decreases d.len(),
{
    if d.len() > 0 && is_digit(d[0]) && acc * 10 + digit_value(d[0]) <= u64::MAX {
        lemma_parse_digits_bounded(d.subrange(1, d.len() as int), acc * 10 + digit_value(d[0]));
    }
}

/// Parses the decimal text of an unsigned 64-bit integer, as `str::parse::<u64>` does.
pub fn parse_u64(s: &str) -> (r: Result<u64, ParseIntErrorKind>)
    ensures
        match parse_u64_spec(s@) {
            Ok(v) => r == Ok::<u64, ParseIntErrorKind>(v as u64) && 0 <= v <= u64::MAX,
            Err(k) => r == Err::<u64, ParseIntErrorKind>(k),
        },
{
    let n = s.unicode_len();
    if n == 0 {
        return Err(ParseIntErrorKind::Empty);
    }
    let first = s.get_char(0);
    if n == 1 && (first == '+' || first == '-') {
        return Err(ParseIntErrorKind::InvalidDigit);
    }
    let start: usize = if first == '+' { 1 } else { 0 };
    let ghost digits = s@.subrange(start as int, n as int);
    proof {
        if first != '+' {
            assert(digits =~= s@);
        }
        assert(s@.subrange(start as int, n as int) =~= digits);
    }
    let mut acc: u64 = 0;
    let mut i: usize = start;
    while i < n
        invariant
            n == s@.len(),
            start <= i <= n,
            digits == s@.subrange(start as int, n as int),
            parse_u64_spec(s@) == parse_digits(digits, 0),
            parse_digits(digits, 0) == parse_digits(s@.subrange(i as int, n as int), acc as int),
        decreases n - i,
    {
        let c = s.get_char(i);
        let ghost rest = s@.subrange(i as int, n as int);
        proof {
            assert(rest[0] == c);
            assert(rest.subrange(1, rest.len() as int) =~= s@.subrange(i + 1, n as int));
        }
        if !('0' <= c && c <= '9') {
            return Err(ParseIntErrorKind::InvalidDigit);
        }
        let d: u64 = (c as u32 - '0' as u32) as u64;
        assert(d as int == digit_value(c));
        let mul = acc.checked_mul(10);
        match mul {
            None => {
                return Err(ParseIntErrorKind::PosOverflow);
            },
            Some(m) => {
                match m.checked_add(d) {
                    None => {
                        return Err(ParseIntErrorKind::PosOverflow);
                    },
                    Some(v) => {
                        acc = v;
                    },
                }
            },
        }
        i += 1;
    }
    proof {
        assert(s@.subrange(n as int, n as int).len() == 0);
        lemma_parse_digits_bounded(digits, 0);
    }
    Ok(acc)
}

/// The duration of `ms` milliseconds (`Duration::from_millis`).
pub uninterp spec fn millis_duration(ms: u64) -> std::time::Duration;

/// `std::time::Duration::from_millis`: the duration of `ms` milliseconds; the
/// value is left to the name `millis_duration`.
#[verifier::external_body]
fn duration_from_millis(ms: u64) -> (d: std::time::Duration)
    ensures
        d == millis_duration(ms),
{
    std::time::Duration::from_millis(ms)
}

/// The message of a publish interval that is not a number of milliseconds.
pub open spec fn invalid_duration_text(kind: ParseIntErrorKind) -> Seq<char> {
    "Invalid duration: "@ + parse_error_text(kind)
}

fn parse_error_message(kind: ParseIntErrorKind) -> (r: String)
    ensures
        r@ == invalid_duration_text(kind),
{
    match kind {
        ParseIntErrorKind::Empty => concat2("Invalid duration: ", "cannot parse integer from empty string"),
        ParseIntErrorKind::InvalidDigit => concat2("Invalid duration: ", "invalid digit found in string"),
        ParseIntErrorKind::PosOverflow => concat2("Invalid duration: ", "number too large to fit in target type"),
    }
}

/// The number of milliseconds that a publish interval option gives.
pub fn parse_duration_millis(arg: &str) -> (r: Result<u64, String>)
    ensures
        match parse_u64_spec(arg@) {
            Ok(v) => r == Ok::<u64, String>(v as u64),
            Err(k) => r is Err && r->Err_0@ == invalid_duration_text(k),
        },
{
    match parse_u64(arg) {
        Ok(v) => Ok(v),
        Err(k) => Err(parse_error_message(k)),
    }
}

/// The publish interval that an option gives: a whole number of milliseconds.
pub fn parse_duration(arg: &str) -> (r: Result<std::time::Duration, String>)
    ensures
        match parse_u64_spec(arg@) {
            Ok(v) => r == Ok::<std::time::Duration, String>(millis_duration(v as u64)),
            Err(k) => r is Err && r->Err_0@ == invalid_duration_text(k),
        },
{
    match parse_duration_millis(arg) {
        Ok(ms) => Ok(duration_from_millis(ms)),
        Err(e) => Err(e),
    }
}

/// The device manager identifier that an option gives: its slug.
pub fn parse_slug(arg: &str) -> (r: Result<String, String>)
    ensures
        r is Ok,
        r->Ok_0@ == dashes_to_underscores(slug_of(arg@)),
        is_slug_with(r->Ok_0@, '_'),
{
    Ok(slugify(arg))
}

/// The default device manager identifier: "Device " and the host name.
pub fn device_manager_id_fn(hostname: &str) -> (r: String)
    ensures
        r@ == "Device "@ + hostname@,
{
    concat2("Device ", hostname)
}

/// The default device name: "Containers at " and the host name.
pub fn device_name_fn(hostname: &str) -> (r: String)
    ensures
        r@ == "Containers at "@ + hostname@,
{
    concat2("Containers at ", hostname)
}

} // verus!
