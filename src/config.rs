//! The servers' settings, from the values the environment gives.
use vstd::prelude::*;

use crate::text::chars_of;

verus! {

/// The Gemini port when none is given.
pub const DEFAULT_GEMINI_PORT: u16 = 1965;

/// The HTTP port when none is given.
pub const DEFAULT_HTTP_PORT: u16 = 8787;

/// The Gemini hostname when none is given.
pub const DEFAULT_GEMINI_HOSTNAME: &'static str = "average.name";

/// The directory of the Gemini certificates when none is given.
pub const DEFAULT_CERTS_DIR: &'static str = ".certs";

/// Whether `d` is one or more ASCII digits.
pub open spec fn is_digits(d: Seq<char>) -> bool {
    d.len() > 0 && forall|i: int| 0 <= i < d.len() ==> '0' <= #[trigger] d[i] <= '9'
}

/// The number that the decimal digits `d` write.
pub open spec fn digits_value(d: Seq<char>) -> int
    decreases d.len(),
{
    if d.len() == 0 {
        0
    } else {
        digits_value(d.drop_last()) * 10 + (d.last() as int - '0' as int)
    }
}

/// The port that `s` writes, as `u16::from_str` reads it: an optional `+`,
/// then one or more decimal digits, for a value of at most 65535.
pub open spec fn port_value(s: Seq<char>) -> Option<u16> {
    let d = if s.len() > 0 && s[0] == '+' {
        s.drop_first()
    } else {
        s
    };
    if is_digits(d) && digits_value(d) <= 65535 {
        Some(digits_value(d) as u16)
    } else {
        None
    }
}

/// Digits never write a negative number.
proof fn lemma_digits_value_nonnegative(d: Seq<char>)
    requires
        forall|i: int| 0 <= i < d.len() ==> '0' <= #[trigger] d[i] <= '9',
    ensures
        digits_value(d) >= 0,
    decreases d.len(),
{
    if d.len() > 0 {
        lemma_digits_value_nonnegative(d.drop_last());
    }
}

/// A longer run of digits writes at least as large a number.
proof fn lemma_digits_value_grows(d: Seq<char>, i: int)
    requires
        0 <= i <= d.len(),
        forall|j: int| 0 <= j < d.len() ==> '0' <= #[trigger] d[j] <= '9',
    ensures
        digits_value(d.take(i)) <= digits_value(d),
    decreases d.len() - i,
{
    if i < d.len() {
        lemma_digits_value_grows(d, i + 1);
        assert(d.take(i + 1).drop_last() =~= d.take(i));
        assert(forall|j: int| 0 <= j < d.take(i).len() ==> d.take(i)[j] == d[j]);
        lemma_digits_value_nonnegative(d.take(i));
    } else {
        assert(d.take(i) =~= d);
    }
}

/// The port that `s` writes, as `port_value` states it.
pub fn parse_port(s: &str) -> (r: Option<u16>)
    ensures
        r == port_value(s@),
{
    let cs = chars_of(s);
    let start: usize = if cs.len() > 0 && cs[0] == '+' {
        1
    } else {
        0
    };
    let ghost d = if s@.len() > 0 && s@[0] == '+' {
        s@.drop_first()
    } else {
        s@
    };
    assert(d =~= cs@.subrange(start as int, cs@.len() as int));
    if start == cs.len() {
        return None;
    }
    let mut value: u32 = 0;
    let mut i: usize = start;
    while i < cs.len()
        invariant
            cs@ == s@,
            d == (if s@.len() > 0 && s@[0] == '+' {
                s@.drop_first()
            } else {
                s@
            }),
            d == cs@.subrange(start as int, cs@.len() as int),
            start <= i <= cs@.len(),
            forall|j: int| start <= j < i ==> '0' <= #[trigger] cs@[j] <= '9',
            value as int == digits_value(d.take(i - start)),
            value <= 65535,
        decreases cs@.len() - i,
    {
        let c = cs[i];
        assert(d.take(i + 1 - start).drop_last() =~= d.take(i - start));
        assert(d.take(i + 1 - start).last() == c);
        if c < '0' || c > '9' {
            assert(!is_digits(d)) by {
                assert(d[i - start] == c);
            }
            return None;
        }
        let next = value * 10 + (c as u32 - '0' as u32);
        assert(digits_value(d.take(i + 1 - start)) == next as int);
        if next > 65535 {
            proof {
                if is_digits(d) {
                    lemma_digits_value_grows(d, i + 1 - start);
                }
            }
            return None;
        }
        value = next;
        i = i + 1;
    }
    assert(d.take(i - start) =~= d);
    Some(value as u16)
}

/// The servers' settings.
#[derive(Clone, Debug)]
pub struct Config {
    /// The port on which the Gemini server listens.
    pub gemini_port: u16,
    /// The hostname at which the Gemini server listens.
    pub gemini_hostname: String,
    /// The directory in which to look for the Gemini server's certificates.
    pub gemini_certs_dir: Option<String>,
    /// The port on which the HTTP server listens.
    pub http_port: u16,
    /// The IPv4 address at which the HTTP server listens: all of them.
    pub http_address: [u8; 4],
}

impl Config {
    /// The settings from the values that the environment gives for the Gemini
    /// hostname, the certificates directory, the Gemini port and the HTTP port:
    /// each given value that is usable, else its default.
    pub fn from_values(
        gemini_hostname: Option<&str>,
        gemini_certs_dir: Option<&str>,
        gemini_port: Option<&str>,
        http_port: Option<&str>,
    ) -> (r: Config)
        ensures
            r.gemini_hostname@ == (match gemini_hostname {
                Some(h) => h@,
                None => DEFAULT_GEMINI_HOSTNAME@,
            }),
            r.gemini_certs_dir matches Some(c) && c@ == (match gemini_certs_dir {
                Some(c) => c@,
                None => DEFAULT_CERTS_DIR@,
            }),
            r.gemini_port == (match gemini_port {
                Some(p) => match port_value(p@) {
                    Some(n) => n,
                    None => DEFAULT_GEMINI_PORT,
                },
                None => DEFAULT_GEMINI_PORT,
            }),
            r.http_port == (match http_port {
                Some(p) => match port_value(p@) {
                    Some(n) => n,
                    None => DEFAULT_HTTP_PORT,
                },
                None => DEFAULT_HTTP_PORT,
            }),
            r.http_address@ == seq![0u8, 0, 0, 0],
    {
        let hostname = match gemini_hostname {
            Some(h) => String::from_str(h),
            None => String::from_str(DEFAULT_GEMINI_HOSTNAME),
        };
        let certs = match gemini_certs_dir {
            Some(c) => String::from_str(c),
            None => String::from_str(DEFAULT_CERTS_DIR),
        };
        let gemini = match gemini_port {
            Some(p) => match parse_port(p) {
                Some(n) => n,
                None => DEFAULT_GEMINI_PORT,
            },
            None => DEFAULT_GEMINI_PORT,
        };
        let http = match http_port {
            Some(p) => match parse_port(p) {
                Some(n) => n,
                None => DEFAULT_HTTP_PORT,
            },
            None => DEFAULT_HTTP_PORT,
        };
        let address: [u8; 4] = [0, 0, 0, 0];
        assert(address@ =~= seq![0u8, 0, 0, 0]);
        Config {
            gemini_port: gemini,
            gemini_hostname: hostname,
            gemini_certs_dir: Some(certs),
            http_port: http,
            http_address: address,
        }
    }
}

} // verus!
