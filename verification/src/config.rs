use vstd::prelude::*;
use vstd::string::StrSliceExecFns;

verus! {

/// Process configuration, built once at entry from environment values and
/// passed on; nothing global is read afterwards.
pub struct Config {
    pub host: String,
    pub port: u16,
}

pub const DEFAULT_PORT: u16 = 8080;

pub open spec fn is_digit_char(c: char) -> bool {
    '0' <= c && c <= '9'
}

pub open spec fn digit_value(c: char) -> nat {
    (c as int - '0' as int) as nat
}

pub open spec fn all_digits(s: Seq<char>) -> bool {
    forall|i: int| 0 <= i < s.len() ==> is_digit_char(s[i])
}

/// The number a sequence of decimal digits denotes.
pub open spec fn dec_val(s: Seq<char>) -> nat
    decreases s.len(),
{
    if s.len() == 0 {
        0
    } else {
        dec_val(s.drop_last()) * 10 + digit_value(s.last())
    }
}

/// The digit part of a port string: everything after one optional leading
/// plus sign.
pub open spec fn port_digits_of(s: Seq<char>) -> Seq<char> {
    if s.len() > 0 && s[0] == '+' {
        s.skip(1)
    } else {
        s
    }
}

/// A valid port string: at least one digit after the optional sign, and a
/// value that fits a 16-bit port number.
pub open spec fn valid_port_str(s: Seq<char>) -> bool {
    &&& port_digits_of(s).len() > 0
    &&& all_digits(port_digits_of(s))
    &&& dec_val(port_digits_of(s)) <= 65535
}

/// Dropping characters from the end never increases the denoted value.
proof fn lemma_dec_val_prefix(t: Seq<char>, k: int)
    requires
        0 <= k <= t.len(),
    ensures
        dec_val(t) >= dec_val(t.take(k)),
    decreases t.len() - k,
{
    if k == t.len() {
        assert(t.take(k) =~= t);
    } else {
        assert(t.take(k + 1).drop_last() =~= t.take(k));
        lemma_dec_val_prefix(t, k + 1);
    }
}

/// Parse a decimal port number: one optional leading `+`, then at least one
/// digit, denoting a value of at most 65535. Returns `None` exactly on
/// invalid input.
pub fn parse_port(s: &str) -> (r: Option<u16>)
    ensures
        r is Some <==> valid_port_str(s@),
        r matches Some(p) ==> p == dec_val(port_digits_of(s@)),
{
    let n = s.unicode_len();
    let mut start: usize = 0;
    if n > 0 && s.get_char(0) == '+' {
        start = 1;
    }
    proof {
        if start == 1 {
            assert(port_digits_of(s@) =~= s@.subrange(1, n as int));
        } else {
            assert(port_digits_of(s@) =~= s@.subrange(0, n as int));
        }
    }
    if start == n {
        return None;
    }
    let mut acc: u32 = 0;
    let mut i: usize = start;
    while i < n
        invariant
            start <= i <= n,
            n == s@.len(),
            port_digits_of(s@) =~= s@.subrange(start as int, n as int),
            all_digits(s@.subrange(start as int, i as int)),
            acc == dec_val(s@.subrange(start as int, i as int)),
            acc <= 65535,
        decreases n - i,
    {
        let c = s.get_char(i);
        if !('0' <= c && c <= '9') {
            proof {
                assert(s@.subrange(start as int, n as int)[i - start] == s@[i as int]);
            }
            return None;
        }
        let d: u32 = (c as u32) - 48;
        proof {
            let pre = s@.subrange(start as int, i as int);
            let ext = s@.subrange(start as int, i + 1);
            assert(ext.drop_last() =~= pre);
            assert(ext.last() == s@[i as int]);
        }
        acc = acc * 10 + d;
        if acc > 65535 {
            proof {
                let digits = s@.subrange(start as int, n as int);
                assert(s@.subrange(start as int, i + 1) =~= digits.take(i + 1 - start));
                lemma_dec_val_prefix(digits, i + 1 - start);
            }
            return None;
        }
        i = i + 1;
    }
    proof {
        assert(s@.subrange(start as int, n as int) =~= s@.subrange(start as int, i as int));
    }
    Some(acc as u16)
}

/// Build the configuration from the optional `HOST` and `PORT` environment
/// values: missing values fall back to `127.0.0.1` and 8080; a present but
/// invalid port string is a fatal startup error.
pub fn config_from_env(host: Option<String>, port: Option<&str>) -> (r: Result<Config, String>)
    ensures
        port is None ==> (r matches Ok(c) && c.port == DEFAULT_PORT),
        port matches Some(p) ==> (r is Ok <==> valid_port_str(p@)),
        port matches Some(p) ==> (r matches Ok(c) ==> c.port == dec_val(port_digits_of(p@))),
        r matches Ok(c) ==> match host {
            Option::Some(h) => c.host == h,
            Option::None => c.host@ == "127.0.0.1"@,
        },
        r matches Err(e) ==> e@ == "Invalid PORT specified"@,
{
    let port_number: u16 = match port {
        Option::None => DEFAULT_PORT,
        Option::Some(p) => match parse_port(p) {
            Option::Some(v) => v,
            Option::None => {
                return Err("Invalid PORT specified".to_owned());
            },
        },
    };
    let host_string: String = match host {
        Option::Some(h) => h,
        Option::None => "127.0.0.1".to_owned(),
    };
    Ok(Config { host: host_string, port: port_number })
}

} // verus!
