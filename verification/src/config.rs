//! Server settings taken from the process environment.

use vstd::prelude::*;
use vstd::string::*;

verus! {

/// `String::push` appends one character to the end of the string.
pub assume_specification[ String::push ](s: &mut String, c: char)
    ensures
        final(s)@ == old(s)@.push(c),
;

/// Whether `c` is one of the ASCII digits `0` to `9`.
pub open spec fn is_digit(c: char) -> bool {
    48 <= c as u32 <= 57
}

/// The number that the ASCII digit `c` stands for.
pub open spec fn digit_value(c: char) -> nat
    recommends
        is_digit(c),
{
    (c as u32 - 48) as nat
}

/// The ASCII digit that stands for `d`.
pub open spec fn digit_char(d: nat) -> char
    recommends
        d < 10,
{
    if d == 0 {
        '0'
    } else if d == 1 {
        '1'
    } else if d == 2 {
        '2'
    } else if d == 3 {
        '3'
    } else if d == 4 {
        '4'
    } else if d == 5 {
        '5'
    } else if d == 6 {
        '6'
    } else if d == 7 {
        '7'
    } else if d == 8 {
        '8'
    } else {
        '9'
    }
}

/// Whether every character of `s` is an ASCII digit.
pub open spec fn all_digits(s: Seq<char>) -> bool {
    forall|i: int| 0 <= i < s.len() ==> is_digit(#[trigger] s[i])
}

/// The number that a sequence of digits denotes in base ten, leading zeros
/// allowed; the empty sequence denotes zero.
pub open spec fn digits_value(s: Seq<char>) -> nat
    decreases s.len(),
{
    if s.len() == 0 {
        0
    } else {
        digits_value(s.drop_last()) * 10 + digit_value(s.last())
    }
}

/// The shortest base-ten numeral of `n`.
pub open spec fn decimal(n: nat) -> Seq<char>
    decreases n,
{
    if n < 10 {
        seq![digit_char(n)]
    } else {
        decimal(n / 10).push(digit_char(n % 10))
    }
}

/// The digits of a port text: the text itself, without one leading `+` sign
/// where it has one.
pub open spec fn port_digits(s: Seq<char>) -> Seq<char> {
    if s.len() > 0 && s[0] == '+' {
        s.subrange(1, s.len() as int)
    } else {
        s
    }
}

/// The port that a text denotes: an optional `+`, then one or more ASCII digits
/// whose value fits in sixteen bits. Any other text denotes no port.
pub open spec fn parse_port_spec(s: Seq<char>) -> Option<u16> {
    let d = port_digits(s);
    if d.len() > 0 && all_digits(d) && digits_value(d) <= 65535 {
        Some(digits_value(d) as u16)
    } else {
        None
    }
}

/// The address to listen on: the host, a colon, the port in base ten.
pub open spec fn bind_address_spec(host: Seq<char>, port: u16) -> Seq<char> {
    host + seq![':'] + decimal(port as nat)
}

/// A prefix of a digit sequence never denotes more than the whole sequence.
proof fn lemma_prefix_value(d: Seq<char>, k: int)
    requires
        0 <= k <= d.len(),
    ensures
        digits_value(d.take(k)) <= digits_value(d),
    decreases d.len(),
{
    if k == d.len() {
        assert(d.take(k) =~= d);
    } else {
        assert(d.drop_last().take(k) =~= d.take(k));
        lemma_prefix_value(d.drop_last(), k);
    }
}

/// A numeral is a non-empty run of digits without a sign, and denotes its number.
proof fn lemma_decimal_digits(n: nat)
    ensures
        decimal(n).len() > 0,
        all_digits(decimal(n)),
        digits_value(decimal(n)) == n,
        decimal(n)[0] != '+',
    decreases n,
{
    if n < 10 {
        assert(decimal(n) =~= seq![digit_char(n)]);
        assert(decimal(n).drop_last() =~= Seq::<char>::empty());
        assert(digits_value(decimal(n).drop_last()) == 0);
    } else {
        lemma_decimal_digits(n / 10);
        let p = decimal(n / 10);
        assert(decimal(n).drop_last() =~= p);
        assert(decimal(n).last() == digit_char(n % 10));
        assert(decimal(n)[0] == p[0]);
        assert forall|i: int| 0 <= i < decimal(n).len() implies is_digit(
            #[trigger] decimal(n)[i],
        ) by {
            if i < p.len() {
                assert(decimal(n)[i] == p[i]);
            }
        }
    }
}

/// Reading back the base-ten numeral of a port gives that port: the port of a
/// bind address is a text that `parse_port` accepts.
pub proof fn law_parse_decimal(port: u16)
    ensures
        parse_port_spec(decimal(port as nat)) == Some(port),
{
    lemma_decimal_digits(port as nat);
}

/// Why a configuration could not be built.
#[derive(Debug, Clone, Copy, PartialEq, Eq, Structural)]
pub enum ConfigError {
    /// A port was given and does not denote a sixteen-bit unsigned number.
    InvalidPort,
}

/// The server's settings. They are fixed once built.
#[derive(Debug, Clone, PartialEq, Eq)]
pub struct Config {
    pub host: String,
    pub port: u16,
    pub cert_path: String,
    pub key_path: String,
}

/// The host to listen on where none is given.
pub open spec fn default_host() -> Seq<char> {
    "0.0.0.0"@
}

/// The port to listen on where none is given.
pub const DEFAULT_PORT: u16 = 8443;

/// The certificate file where none is given.
pub open spec fn default_cert_path() -> Seq<char> {
    "cert.pem"@
}

/// The key file where none is given.
pub open spec fn default_key_path() -> Seq<char> {
    "key.pem"@
}

/// The value of a text setting: what was given, or else the default.
pub open spec fn setting_or(given: Option<String>, default: Seq<char>) -> Seq<char> {
    match given {
        Some(s) => s@,
        None => default,
    }
}

/// The value of the port setting: the default where none is given, the port
/// that the text denotes where it denotes one, and nothing otherwise.
pub open spec fn port_setting(given: Option<String>) -> Option<u16> {
    match given {
        Some(s) => parse_port_spec(s@),
        None => Some(DEFAULT_PORT),
    }
}

fn digit_of(d: u16) -> (c: char)
    requires
        d < 10,
    ensures
        c == digit_char(d as nat),
{
    if d == 0 {
        '0'
    } else if d == 1 {
        '1'
    } else if d == 2 {
        '2'
    } else if d == 3 {
        '3'
    } else if d == 4 {
        '4'
    } else if d == 5 {
        '5'
    } else if d == 6 {
        '6'
    } else if d == 7 {
        '7'
    } else if d == 8 {
        '8'
    } else {
        '9'
    }
}

fn push_decimal(out: &mut String, n: u16)
    ensures
        final(out)@ == old(out)@ + decimal(n as nat),
    decreases n,
{
    if n >= 10 {
        push_decimal(out, n / 10);
    }
    out.push(digit_of(n % 10));
    assert(final(out)@ =~= old(out)@ + decimal(n as nat));
}

/// Reads a port from its text.
pub fn parse_port(s: &str) -> (r: Option<u16>)
    ensures
        r == parse_port_spec(s@),
{
    let len: usize = s.unicode_len();
    if len == 0 {
        return None;
    }
    let start: usize = if s.get_char(0) == '+' {
        1
    } else {
        0
    };
    if start == len {
        return None;
    }
    let ghost d = port_digits(s@);
    let mut acc: u32 = 0;
    let mut i: usize = start;
    while i < len
        invariant
            start <= i <= len,
            len == s@.len(),
            d == port_digits(s@),
            d.len() == len - start,
            forall|j: int| 0 <= j < d.len() ==> d[j] == s@[j + start],
            acc <= 65535,
            acc == digits_value(d.take(i - start)),
            all_digits(d.take(i - start)),
        decreases len - i,
    {
        let c: char = s.get_char(i);
        let v: u32 = c as u32;
        if v < 48 || v > 57 {
            assert(!is_digit(d[i - start]));
            return None;
        }
        let next: u32 = acc * 10 + (v - 48);
        proof {
            let t = d.take(i - start + 1);
            assert(t.drop_last() =~= d.take(i - start));
            assert(digits_value(t) == next);
            assert forall|j: int| 0 <= j < t.len() implies is_digit(#[trigger] t[j]) by {
                if j < i - start {
                    assert(d.take(i - start)[j] == t[j]);
                }
            }
        }
        if next > 65535 {
            proof {
                lemma_prefix_value(d, i - start + 1);
            }
            return None;
        }
        acc = next;
        i = i + 1;
    }
    assert(d.take(len - start) =~= d);
    Some(acc as u16)
}

impl Config {
    /// Builds the settings from the values of the host, port, certificate file
    /// and key file variables, each `None` where the variable is not set.
    ///
    /// A variable that is not set takes its default. A port that is set and
    /// does not denote a sixteen-bit unsigned number is an error.
    pub fn from_env(
        host: Option<String>,
        port: Option<String>,
        cert_path: Option<String>,
        key_path: Option<String>,
    ) -> (r: Result<Config, ConfigError>)
        ensures
            match port_setting(port) {
                Some(p) => r is Ok && r->Ok_0.port == p && r->Ok_0.host@ == setting_or(
                    host,
                    default_host(),
                ) && r->Ok_0.cert_path@ == setting_or(cert_path, default_cert_path())
                    && r->Ok_0.key_path@ == setting_or(key_path, default_key_path()),
                None => r == Err::<Config, ConfigError>(ConfigError::InvalidPort),
            },
    {
        let port: u16 = match port {
            Some(text) => match parse_port(text.as_str()) {
                Some(p) => p,
                None => {
                    return Err(ConfigError::InvalidPort);
                },
            },
            None => DEFAULT_PORT,
        };
        let host = match host {
            Some(h) => h,
            None => String::from_str("0.0.0.0"),
        };
        let cert_path = match cert_path {
            Some(p) => p,
            None => String::from_str("cert.pem"),
        };
        let key_path = match key_path {
            Some(p) => p,
            None => String::from_str("key.pem"),
        };
        Ok(Config { host, port, cert_path, key_path })
    }

    /// The address to bind to, as `host:port`.
    pub fn bind_address(&self) -> (r: String)
        ensures
            r@ == bind_address_spec(self.host@, self.port),
    {
        let mut out = self.host.clone();
        out.push(':');
        push_decimal(&mut out, self.port);
        proof {
            assert(out@ =~= bind_address_spec(self.host@, self.port));
        }
        out
    }
}

} // verus!
