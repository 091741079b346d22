//! Process configuration: the three values the service is started with, and
//! the decimal port parser that validates the optional port setting.

use vstd::prelude::*;

verus! {

/// Whether `c` is a decimal digit.
pub open spec fn is_digit(c: char) -> bool {
    c == '0' || c == '1' || c == '2' || c == '3' || c == '4' || c == '5' || c == '6' || c == '7'
        || c == '8' || c == '9'
}

/// The value of a decimal digit; characters outside the digits count as zero.
pub open spec fn digit_value(c: char) -> nat {
    if c == '1' {
        1
    } else if c == '2' {
        2
    } else if c == '3' {
        3
    } else if c == '4' {
        4
    } else if c == '5' {
        5
    } else if c == '6' {
        6
    } else if c == '7' {
        7
    } else if c == '8' {
        8
    } else if c == '9' {
        9
    } else {
        0
    }
}

/// Whether every character of `s` is a decimal digit.
pub open spec fn all_digits(s: Seq<char>) -> bool {
    forall|i: int| 0 <= i < s.len() ==> is_digit(s[i])
}

/// The number a digit string denotes, most significant digit first.
pub open spec fn digits_value(s: Seq<char>) -> nat
    decreases s.len(),
{
    if s.len() == 0 {
        0
    } else {
        digits_value(s.drop_last()) * 10 + digit_value(s.last())
    }
}

/// The value of a digit string never falls when the string is extended: any
/// prefix denotes at most the whole string's value.
proof fn lemma_digits_value_prefix(s: Seq<char>, k: int)
    requires
        0 <= k <= s.len(),
    ensures
        digits_value(s.subrange(0, k)) <= digits_value(s),
    decreases s.len() - k,
{
    if k == s.len() {
        assert(s.subrange(0, k) =~= s);
    } else {
        let shorter = s.subrange(0, k);
        let longer = s.subrange(0, k + 1);
        assert(longer.drop_last() =~= shorter);
        assert(digits_value(shorter) * 10 >= digits_value(shorter)) by (nonlinear_arith);
        lemma_digits_value_prefix(s, k + 1);
    }
}

/// What an unsigned 16-bit integer parse of `s` yields: an optional leading
/// `+`, then one or more decimal digits denoting a value of at most 65535;
/// anything else is rejected.
pub open spec fn u16_of_decimal(s: Seq<char>) -> Option<u16> {
    let digits = if s.len() > 0 && s[0] == '+' {
        s.drop_first()
    } else {
        s
    };
    if digits.len() > 0 && all_digits(digits) && digits_value(digits) <= 65535 {
        Some(digits_value(digits) as u16)
    } else {
        None
    }
}

fn digit_of(c: char) -> (r: Option<u8>)
    ensures
        r is Some <==> is_digit(c),
        r is Some ==> r->0 == digit_value(c),
{
    if c == '0' {
        Some(0)
    } else if c == '1' {
        Some(1)
    } else if c == '2' {
        Some(2)
    } else if c == '3' {
        Some(3)
    } else if c == '4' {
        Some(4)
    } else if c == '5' {
        Some(5)
    } else if c == '6' {
        Some(6)
    } else if c == '7' {
        Some(7)
    } else if c == '8' {
        Some(8)
    } else if c == '9' {
        Some(9)
    } else {
        None
    }
}

/// Parses `s` as an unsigned 16-bit integer, exactly as `u16_of_decimal`
/// describes.
pub fn parse_u16(s: &str) -> (r: Option<u16>)
    ensures
        r == u16_of_decimal(s@),
{
    let len = s.unicode_len();
    let mut start: usize = 0;
    if len > 0 && s.get_char(0) == '+' {
        start = 1;
    }
    let ghost digits = s@.subrange(start as int, len as int);
    proof {
        if s@.len() > 0 && s@[0] == '+' {
            assert(digits =~= s@.drop_first());
        } else {
            assert(digits =~= s@);
        }
    }
    if start == len {
        return None;
    }
    let mut acc: u32 = 0;
    let mut j: usize = start;
    while j < len
        invariant
            len == s@.len(),
            start <= j <= len,
            digits == s@.subrange(start as int, len as int),
            digits == (if s@.len() > 0 && s@[0] == '+' {
                s@.drop_first()
            } else {
                s@
            }),
            all_digits(digits.subrange(0, j - start)),
            acc == digits_value(digits.subrange(0, j - start)),
            acc <= 65535,
        decreases len - j,
    {
        let c = s.get_char(j);
        let ghost pre = digits.subrange(0, j - start);
        let ghost cur = digits.subrange(0, j + 1 - start);
        proof {
            assert(cur.drop_last() =~= pre);
            assert(cur.last() == s@[j as int]);
        }
        match digit_of(c) {
            None => {
                assert(!is_digit(digits[j - start]));
                return None;
            },
            Some(d) => {
                acc = acc * 10 + d as u32;
                if acc > 65535 {
                    proof {
                        lemma_digits_value_prefix(digits, j + 1 - start);
                    }
                    return None;
                }
            },
        }
        j += 1;
    }
    proof {
        assert(digits.subrange(0, len - start) =~= digits);
    }
    Some(acc as u16)
}

/// Why the service refused to start: a required setting was absent, or the
/// port setting did not parse.
#[derive(Debug, PartialEq, Eq)]
pub enum ConfigError {
    MissingUrl,
    MissingToken,
    InvalidPort,
}

/// The three values the service runs with, validated once at startup and
/// read-only afterwards.
pub struct Config {
    pub coolify_url: String,
    pub api_token: String,
    pub port: u16,
}

/// The port a configuration runs on: 3000 when the setting is absent,
/// otherwise whatever the setting parses to.
pub open spec fn port_of_setting(port: Option<String>) -> Option<u16> {
    match port {
        Option::None => Some(3000u16),
        Option::Some(p) => u16_of_decimal(p@),
    }
}

impl Config {
    /// Validates the raw settings. The base URL and the token are required,
    /// in that order of precedence; the port must parse when present and
    /// defaults to 3000 when absent.
    pub fn from_values(url: Option<String>, token: Option<String>, port: Option<String>) -> (r:
        Result<Config, ConfigError>)
        ensures
            r is Ok <==> url is Some && token is Some && port_of_setting(port) is Some,
            r is Ok ==> r->Ok_0.coolify_url == url->0 && r->Ok_0.api_token == token->0
                && r->Ok_0.port == port_of_setting(port)->0,
            r is Err ==> r->Err_0 == (if url is None {
                ConfigError::MissingUrl
            } else if token is None {
                ConfigError::MissingToken
            } else {
                ConfigError::InvalidPort
            }),
    {
        let coolify_url = match url {
            Some(u) => u,
            None => {
                return Err(ConfigError::MissingUrl);
            },
        };
        let api_token = match token {
            Some(t) => t,
            None => {
                return Err(ConfigError::MissingToken);
            },
        };
        let port_number: u16 = match port {
            None => 3000,
            Some(p) => match parse_u16(p.as_str()) {
                Some(v) => v,
                None => {
                    return Err(ConfigError::InvalidPort);
                },
            },
        };
        Ok(Config { coolify_url, api_token, port: port_number })
    }
}

} // verus!
