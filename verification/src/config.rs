//! The settings that the gateway starts with.

use vstd::prelude::*;
use vstd::string::*;

verus! {

/// The port that the gateway listens on where none is set.
pub const DEFAULT_PORT: u16 = 5000;

/// What the gateway is started with: the bucket that it reads from and the
/// port that it listens on. Made once, and only read afterwards.
#[derive(Clone, Debug, PartialEq, Eq)]
pub struct Config {
    pub bucket_name: String,
    pub listen_port: u16,
}

/// Whether `c` is a decimal digit.
pub open spec fn is_decimal_digit(c: char) -> bool {
    '0' <= c <= '9'
}

/// The number that a sequence of decimal digits writes.
pub open spec fn decimal_value(digits: Seq<char>) -> nat
    decreases digits.len(),
{
    if digits.len() == 0 {
        0
    } else {
        (decimal_value(digits.drop_last()) * 10 + (digits.last() as u32 - '0' as u32)) as nat
    }
}

/// The digits of a port setting: the text without its one leading plus sign,
/// if it has one.
pub open spec fn port_digits(text: Seq<char>) -> Seq<char> {
    if text.len() > 0 && text[0] == '+' {
        text.drop_first()
    } else {
        text
    }
}

/// The port that `text` writes: at least one decimal digit, behind at most
/// one plus sign, with a value that a port can have. Any other text writes
/// no port.
pub open spec fn parsed_port(text: Seq<char>) -> Option<u16> {
    let digits = port_digits(text);
    if digits.len() > 0 && (forall|i: int| 0 <= i < digits.len() ==> is_decimal_digit(digits[i]))
        && decimal_value(digits) <= u16::MAX {
        Some(decimal_value(digits) as u16)
    } else {
        None
    }
}

/// The port to listen on: the default where nothing is set, else the port
/// that the setting writes, if it writes one.
pub open spec fn port_setting(text: Option<Seq<char>>) -> Option<u16> {
    match text {
        Some(t) => parsed_port(t),
        None => Some(DEFAULT_PORT),
    }
}

/// The endpoint of the object store for an account.
pub open spec fn endpoint_of(account_id: Seq<char>) -> Seq<char> {
    "https://"@ + account_id + ".r2.cloudflarestorage.com"@
}

/// A longer run of digits writes no smaller a number than its beginning.
proof fn lemma_decimal_value_grows(digits: Seq<char>, k: int)
    requires
        0 <= k <= digits.len(),
        forall|i: int| 0 <= i < digits.len() ==> is_decimal_digit(digits[i]),
    ensures
        decimal_value(digits.take(k)) <= decimal_value(digits),
    decreases digits.len() - k,
{
    if k == digits.len() {
        assert(digits.take(k) =~= digits);
    } else {
        let front = digits.drop_last();
        assert(front.take(k) =~= digits.take(k));
        if k == front.len() {
            assert(front.take(k) =~= front);
        } else {
            lemma_decimal_value_grows(front, k);
        }
        assert(is_decimal_digit(digits.last()));
    }
}

/// Reads a port from `text`.
pub fn parse_port(text: &str) -> (port: Option<u16>)
    ensures
        port == parsed_port(text@),
{
    let n: usize = text.unicode_len();
    let start: usize = if n > 0 && text.get_char(0) == '+' {
        1
    } else {
        0
    };
    let ghost digits = port_digits(text@);
    assert(digits =~= text@.skip(start as int));
    if start == n {
        return None;
    }
    let mut value: u32 = 0;
    let mut i: usize = start;
    while i < n
        invariant
            n == text@.len(),
            start <= i <= n,
            digits == text@.skip(start as int),
            digits == port_digits(text@),
            forall|j: int| 0 <= j < i - start ==> is_decimal_digit(digits[j]),
            value == decimal_value(digits.take(i - start)),
            value <= u16::MAX,
        decreases n - i,
    {
        let c: char = text.get_char(i);
        assert(digits[i - start] == c);
        if c < '0' || c > '9' {
            assert(!is_decimal_digit(digits[i - start]));
            return None;
        }
        let digit: u32 = c as u32 - '0' as u32;
        let next: u32 = value * 10 + digit;
        proof {
            let longer = digits.take(i - start + 1);
            assert(longer.drop_last() =~= digits.take(i - start));
            assert(longer.last() == c);
            assert(next == decimal_value(longer));
        }
        if next > 65535 {
            proof {
                if forall|j: int| 0 <= j < digits.len() ==> is_decimal_digit(digits[j]) {
                    lemma_decimal_value_grows(digits, i - start + 1);
                }
            }
            return None;
        }
        value = next;
        i += 1;
    }
    assert(digits.take(i - start) =~= digits);
    Some(value as u16)
}

/// The port to listen on, from the setting if there is one. `None` says that
/// the setting is malformed.
pub fn listen_port(setting: Option<&str>) -> (port: Option<u16>)
    ensures
        port == port_setting(
            match setting {
                Some(text) => Some(text@),
                None => None,
            },
        ),
{
    match setting {
        Some(text) => parse_port(text),
        None => Some(DEFAULT_PORT),
    }
}

impl Config {
    /// The settings for `bucket_name` and the port setting, if there is one.
    /// `None` says that the port setting is malformed.
    pub fn from_settings(bucket_name: String, port: Option<&str>) -> (config: Option<Config>)
        ensures
            match config {
                Some(made) => made.bucket_name@ == bucket_name@ && port_setting(
                    match port {
                        Some(text) => Some(text@),
                        None => None,
                    },
                ) == Some(made.listen_port),
                None => port_setting(
                    match port {
                        Some(text) => Some(text@),
                        None => None,
                    },
                ) is None,
            },
    {
        match listen_port(port) {
            Some(listen_port) => Some(Config { bucket_name, listen_port }),
            None => None,
        }
    }
}

/// The endpoint of the object store for `account_id`.
pub fn storage_endpoint(account_id: &str) -> (endpoint: String)
    ensures
        endpoint@ == endpoint_of(account_id@),
{
    String::from_str("https://").concat(account_id).concat(".r2.cloudflarestorage.com")
}

} // verus!
