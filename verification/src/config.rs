//! Process configuration: the resolution of optional environment values
//! into a complete configuration, with the documented default for every
//! value that is absent or unparsable.

use vstd::prelude::*;
use vstd::string::StrSliceExecFns;
use vstd::string::StringExecFns;
use crate::auth::str_eq;

verus! {

/// The complete process configuration.
pub struct Config {
    pub database_url: String,
    pub default_username: String,
    pub default_password: String,
    pub host: String,
    pub port: u16,
    pub prometheus_enabled: bool,
    pub rust_log: String,
}

/// A decimal digit.
pub open spec fn is_digit_char(c: char) -> bool {
    48 <= c as int <= 57
}

/// The value of a decimal digit.
pub open spec fn digit_val(c: char) -> nat {
    (c as int - 48) as nat
}

/// The value of a sequence of decimal digits.
pub open spec fn dec_value(s: Seq<char>) -> nat
    decreases s.len(),
{
    if s.len() == 0 {
        0
    } else {
        dec_value(s.drop_last()) * 10 + digit_val(s.last())
    }
}

/// Every character is a decimal digit.
pub open spec fn all_digits(s: Seq<char>) -> bool {
    forall|j: int| 0 <= j < s.len() ==> is_digit_char(s[j])
}

/// How a port number reads: an optional `+`, then at least one decimal
/// digit, valued at most 65535; anything else does not parse.
pub open spec fn parse_u16_spec(s: Seq<char>) -> Option<u16> {
    let digits = if s.len() > 0 && s.first() == '+' {
        s.skip(1)
    } else {
        s
    };
    if digits.len() > 0 && all_digits(digits) && dec_value(digits) <= 65535 {
        Option::Some(dec_value(digits) as u16)
    } else {
        Option::<u16>::None
    }
}

/// A digit sequence is worth at least any of its prefixes.
proof fn lemma_dec_value_prefix_le(s: Seq<char>, k: int)
    requires
        0 <= k <= s.len(),
    ensures
        dec_value(s.take(k)) <= dec_value(s),
    decreases s.len() - k,
{
    if k < s.len() {
        assert(s.take(k + 1).drop_last() =~= s.take(k));
        assert(dec_value(s.take(k + 1)) == dec_value(s.take(k)) * 10 + digit_val(
            s.take(k + 1).last(),
        ));
        lemma_dec_value_prefix_le(s, k + 1);
    } else {
        assert(s.take(k) =~= s);
    }
}

/// Parses a port number as `parse_u16_spec` reads it.
pub fn parse_u16(s: &str) -> (r: Option<u16>)
    ensures
        r == parse_u16_spec(s@),
{
    let n = s.unicode_len();
    let mut start: usize = 0;
    if n > 0 && s.get_char(0) == '+' {
        start = 1;
    }
    let ghost digits: Seq<char> = s@.skip(start as int);
    proof {
        if start == 0 {
            assert(digits =~= s@);
        }
        assert(digits == (if s@.len() > 0 && s@.first() == '+' {
            s@.skip(1)
        } else {
            s@
        }));
    }
    if start >= n {
        proof {
            assert(digits.len() == 0);
        }
        return Option::None;
    }
    let mut acc: u32 = 0;
    let mut i: usize = start;
    while i < n
        invariant
            start <= i <= n,
            n == s@.len(),
            digits == s@.skip(start as int),
            digits == (if s@.len() > 0 && s@.first() == '+' {
                s@.skip(1)
            } else {
                s@
            }),
            all_digits(digits.take((i - start) as int)),
            acc == dec_value(digits.take((i - start) as int)),
            acc <= 65535,
        decreases n - i,
    {
        let c = s.get_char(i);
        let u = c as u32;
        proof {
            assert(digits[(i - start) as int] == c);
        }
        if u < 48 || u > 57 {
            proof {
                assert(!is_digit_char(c));
                assert(!all_digits(digits));
            }
            return Option::None;
        }
        let d: u32 = u - 48;
        acc = acc * 10 + d;
        proof {
            let k = (i - start) as int;
            assert(digits.take(k + 1).drop_last() =~= digits.take(k));
            assert(digits.take(k + 1).last() == c);
            assert(acc == dec_value(digits.take(k + 1)));
        }
        if acc > 65535 {
            proof {
                lemma_dec_value_prefix_le(digits, (i - start) as int + 1);
                assert(dec_value(digits) > 65535);
            }
            return Option::None;
        }
        i = i + 1;
    }
    proof {
        assert(digits.take((n - start) as int) =~= digits);
        assert(acc == dec_value(digits));
        assert(digits.len() > 0);
    }
    Option::Some(acc as u16)
}

/// How a boolean flag reads: exactly `true` or `false`.
pub open spec fn parse_bool_spec(s: Seq<char>) -> Option<bool> {
    if s == ("true")@ {
        Option::Some(true)
    } else if s == ("false")@ {
        Option::Some(false)
    } else {
        Option::<bool>::None
    }
}

/// Parses a boolean flag as `parse_bool_spec` reads it.
pub fn parse_bool(s: &str) -> (r: Option<bool>)
    ensures
        r == parse_bool_spec(s@),
{
    if str_eq(s, "true") {
        Option::Some(true)
    } else if str_eq(s, "false") {
        Option::Some(false)
    } else {
        Option::None
    }
}

impl Config {
    /// Resolves the optional environment values into a configuration: every
    /// absent value gets its documented default, and an unparsable port or
    /// flag falls back to its default as well.
    pub fn resolve(
        database_url: Option<String>,
        default_username: Option<String>,
        default_password: Option<String>,
        host: Option<String>,
        port: Option<String>,
        prometheus_enabled: Option<String>,
        rust_log: Option<String>,
    ) -> (c: Config)
        ensures
            c.database_url@ == (match database_url {
                Option::Some(v) => v@,
                Option::None => ("sqlite:health_check.db?mode=rwc")@,
            }),
            c.default_username@ == (match default_username {
                Option::Some(v) => v@,
                Option::None => ("admin")@,
            }),
            c.default_password@ == (match default_password {
                Option::Some(v) => v@,
                Option::None => ("admin")@,
            }),
            c.host@ == (match host {
                Option::Some(v) => v@,
                Option::None => ("127.0.0.1")@,
            }),
            c.port == (match port {
                Option::Some(v) => (match parse_u16_spec(v@) {
                    Option::Some(p) => p,
                    Option::None => 3030u16,
                }),
                Option::None => 3030u16,
            }),
            c.prometheus_enabled == (match prometheus_enabled {
                Option::Some(v) => (match parse_bool_spec(v@) {
                    Option::Some(b) => b,
                    Option::None => true,
                }),
                Option::None => true,
            }),
            c.rust_log@ == (match rust_log {
                Option::Some(v) => v@,
                Option::None => ("info")@,
            }),
    {
        let database_url = match database_url {
            Option::Some(v) => v,
            Option::None => String::from_str("sqlite:health_check.db?mode=rwc"),
        };
        let default_username = match default_username {
            Option::Some(v) => v,
            Option::None => String::from_str("admin"),
        };
        let default_password = match default_password {
            Option::Some(v) => v,
            Option::None => String::from_str("admin"),
        };
        let host = match host {
            Option::Some(v) => v,
            Option::None => String::from_str("127.0.0.1"),
        };
        let port: u16 = match port {
            Option::Some(v) => match parse_u16(v.as_str()) {
                Option::Some(p) => p,
                Option::None => 3030,
            },
            Option::None => 3030,
        };
        let prometheus_enabled: bool = match prometheus_enabled {
            Option::Some(v) => match parse_bool(v.as_str()) {
                Option::Some(b) => b,
                Option::None => true,
            },
            Option::None => true,
        };
        let rust_log = match rust_log {
            Option::Some(v) => v,
            Option::None => String::from_str("info"),
        };
        Config {
            database_url,
            default_username,
            default_password,
            host,
            port,
            prometheus_enabled,
            rust_log,
        }
    }
}

} // verus!
