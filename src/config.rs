//! The bot's settings and the resolution of its listening port.

use vstd::prelude::*;

verus! {

/// How much the bot logs.
#[derive(Clone, Copy, Debug, PartialEq, Eq, Structural)]
pub enum LogLevel {
    Trace,
    Debug,
    Info,
    Warn,
    Error,
}

/// The bot's settings.
#[derive(Clone, Debug)]
pub struct Config {
    pub pem_file: String,
    pub ic_url: String,
    pub oc_public_key: String,
    pub port: u16,
    pub log_level: LogLevel,
}

/// The port used when none is configured.
pub const FALLBACK_PORT: u16 = 13457;

/// Whether a character is an ASCII decimal digit.
pub open spec fn is_digit(c: char) -> bool {
    '0' <= c && c <= '9'
}

/// The value of a run of decimal digits.
pub open spec fn digits_value(s: Seq<char>) -> nat
    decreases s.len(),
{
    if s.len() == 0 {
        0
    } else {
        digits_value(s.drop_last()) * 10 + ((s.last() as u32) - ('0' as u32)) as nat
    }
}

/// The digits of a port text: what follows an optional leading `+`.
pub open spec fn port_digits(s: Seq<char>) -> Seq<char> {
    if s.len() > 0 && s[0] == '+' {
        s.skip(1)
    } else {
        s
    }
}

/// A port as `u16`'s `from_str` reads it: an optional `+`, then one or more
/// digits whose value is at most 65535; nothing else, not even spaces.
pub open spec fn port_of(s: Seq<char>) -> Option<u16> {
    let d = port_digits(s);
    if d.len() > 0 && (forall|i: int| 0 <= i < d.len() ==> is_digit(d[i])) && digits_value(d) <= 65535 {
        Some(digits_value(d) as u16)
    } else {
        None
    }
}

/// Reads a port number.
pub fn parse_port(s: &str) -> (r: Option<u16>)
    ensures
        r == port_of(s@),
{
    let n = s.unicode_len();
    let mut start: usize = 0;
    if n > 0 && s.get_char(0) == '+' {
        start = 1;
    }
    let ghost d = port_digits(s@);
    assert(d =~= s@.skip(start as int));
    if start >= n {
        return None;
    }
    let mut acc: u64 = 0;
    let mut over = false;
    let mut i: usize = start;
    while i < n
        invariant
            n == s@.len(),
            start <= i <= n,
            d == s@.skip(start as int),
            d == port_digits(s@),
            forall|k: int| 0 <= k < i - start ==> is_digit(d[k]),
            over ==> digits_value(d.take(i - start)) > 65535,
            !over ==> acc == digits_value(d.take(i - start)) && acc <= 65535,
        decreases n - i,
    {
        let c = s.get_char(i);
        if c < '0' || c > '9' {
            assert(d[i - start] == c);
            let ghost k: int = i - start;
            assert(!is_digit(d[k]));
            assert(!(forall|j: int| 0 <= j < d.len() ==> is_digit(d[j])));
            return None;
        }
        let ghost pre = d.take(i - start);
        assert(d.take(i - start + 1).drop_last() =~= pre);
        assert(d.take(i - start + 1).last() == c);
        let dv = (c as u32 - '0' as u32) as u64;
        if !over {
            acc = acc * 10 + dv;
            if acc > 65535 {
                over = true;
            }
        } else {
            assert(digits_value(d.take(i - start + 1)) >= digits_value(pre)) by (nonlinear_arith)
                requires
                    digits_value(d.take(i - start + 1)) == digits_value(pre) * 10 + dv,
            ;
        }
        i = i + 1;
    }
    assert(d.take(i - start) =~= d);
    if over {
        None
    } else {
        Some(acc as u16)
    }
}

/// The port to listen on: the `PORT` setting where it reads as a port,
/// else the fallback port.
pub fn default_port(setting: Option<&str>) -> (r: u16)
    ensures
        r == (match setting {
            Some(s) => match port_of(s@) {
                Some(p) => p,
                None => FALLBACK_PORT,
            },
            None => FALLBACK_PORT,
        }),
{
    match setting {
        Some(s) => match parse_port(s) {
            Some(p) => p,
            None => FALLBACK_PORT,
        },
        None => FALLBACK_PORT,
    }
}

} // verus!
