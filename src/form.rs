//! Reading numbers typed by the operator and building run configurations
//! from the settings form.

use vstd::prelude::*;

use crate::servers::ftp::FtpConfig;
use crate::servers::http::HttpConfig;
use crate::servers::ssh::SshConfig;
use crate::servers::tftp::TftpConfig;

verus! {

pub open spec fn is_digit(c: char) -> bool {
    '0' <= c && c <= '9'
}

pub open spec fn digit_value(c: char) -> nat {
    (c as u32 - '0' as u32) as nat
}

/// Value of a string of decimal digits.
pub open spec fn digits_value(s: Seq<char>) -> nat
    decreases s.len(),
{
    if s.len() == 0 {
        0
    } else {
        digits_value(s.drop_last()) * 10 + digit_value(s.last())
    }
}

/// The text without one leading `+`.
pub open spec fn unsigned_part(s: Seq<char>) -> Seq<char> {
    if s.len() > 0 && s[0] == '+' {
        s.drop_first()
    } else {
        s
    }
}

/// The number `s` denotes if it is an optional `+` followed by one or more
/// decimal digits whose value is at most `max`; `None` otherwise.
pub open spec fn parsed_unsigned(s: Seq<char>, max: nat) -> Option<nat> {
    let d = unsigned_part(s);
    if d.len() > 0 && (forall|i: int| 0 <= i < d.len() ==> is_digit(#[trigger] d[i])) && digits_value(d) <= max {
        Some(digits_value(d))
    } else {
        None
    }
}

proof fn lemma_prefix_value_le(s: Seq<char>, i: int)
    requires
        0 <= i <= s.len(),
        forall|k: int| 0 <= k < s.len() ==> is_digit(#[trigger] s[k]),
    ensures
        digits_value(s.subrange(0, i)) <= digits_value(s),
    decreases s.len() - i,
{
    if i < s.len() {
        lemma_prefix_value_le(s, i + 1);
        let p = s.subrange(0, i + 1);
        assert(p.drop_last() =~= s.subrange(0, i));
    } else {
        assert(s.subrange(0, i) =~= s);
    }
}

/// Reads an unsigned number of at most `max`; see `parsed_unsigned`.
pub fn parse_unsigned(s: &str, max: u64) -> (r: Option<u64>)
    ensures
        match r {
            Some(v) => parsed_unsigned(s@, max as nat) == Some(v as nat),
            None => parsed_unsigned(s@, max as nat) is None,
        },
{
    let n = s.unicode_len();
    let mut i: usize = 0;
    if n > 0 && s.get_char(0) == '+' {
        i = 1;
    }
    let ghost d = unsigned_part(s@);
    let ghost start = i as int;
    assert(d =~= s@.subrange(start, n as int));
    if i == n {
        return None;
    }
    let mut value: u64 = 0;
    while i < n
        invariant
            n == s@.len(),
            0 <= start <= i <= n,
            d == s@.subrange(start, n as int),
            d == unsigned_part(s@),
            forall|k: int| start <= k < i ==> is_digit(#[trigger] s@[k]),
            value as nat == digits_value(s@.subrange(start, i as int)),
            value <= max,
        decreases n - i,
    {
        let c = s.get_char(i);
        if !('0' <= c && c <= '9') {
            proof {
                assert(s@[i as int] == c);
                assert(d[i - start] == s@[i as int]);
                assert(!is_digit(d[i - start]));
                assert(!(forall|k: int| 0 <= k < d.len() ==> is_digit(#[trigger] d[k])));
                assert(unsigned_part(s@) == d);
            }
            return None;
        }
        let dig: u64 = (c as u32 - '0' as u32) as u64;
        let ghost next = s@.subrange(start, i + 1);
        assert(next.drop_last() =~= s@.subrange(start, i as int));
        if dig > max || value > (max - dig) / 10 {
            proof {
                assert(value * 10 + dig > max) by (nonlinear_arith)
                    requires
                        dig > max || value > (max - dig) / 10,
                        dig <= 9,
                {
                }
                assert forall|k: int| 0 <= k < next.len() implies is_digit(#[trigger] next[k]) by {
                    assert(next[k] == s@[start + k]);
                }
                assert(next.last() == c);
                assert(digits_value(next) == value * 10 + dig);
                if forall|k: int| 0 <= k < d.len() ==> is_digit(#[trigger] d[k]) {
                    lemma_prefix_value_le(d, i + 1 - start);
                    assert(d.subrange(0, i + 1 - start) =~= next);
                }
            }
            return None;
        }
        value = value * 10 + dig;
        i = i + 1;
    }
    proof {
        assert(s@.subrange(start, i as int) =~= d);
        assert forall|k: int| 0 <= k < d.len() implies is_digit(#[trigger] d[k]) by {
            assert(d[k] == s@[start + k]);
        }
    }
    Some(value)
}

/// The port typed in `text`, or `default` when it is not a valid port number.
pub open spec fn port_or(text: Seq<char>, default: u16) -> u16 {
    match parsed_unsigned(text, 0xffff) {
        Some(v) => v as u16,
        None => default,
    }
}

/// See `port_or`.
pub fn parse_port_or(text: &str, default: u16) -> (r: u16)
    ensures
        r == port_or(text@, default),
{
    match parse_unsigned(text, 0xffff) {
        Some(v) => v as u16,
        None => default,
    }
}

/// Seconds typed in `text`, if it is a valid unsigned 64-bit number.
pub open spec fn seconds_of(text: Seq<char>) -> Option<u64> {
    match parsed_unsigned(text, 0xffff_ffff_ffff_ffff) {
        Some(v) => Some(v as u64),
        None => None,
    }
}

/// See `seconds_of`.
pub fn parse_seconds(text: &str) -> (r: Option<u64>)
    ensures
        r == seconds_of(text@),
{
    match parse_unsigned(text, 0xffff_ffff_ffff_ffff) {
        Some(v) => Some(v),
        None => None,
    }
}

impl HttpConfig {
    /// The configuration the settings form describes: an invalid port gives
    /// the default 7777; auto-stop applies only when enabled and its seconds
    /// are a valid number.
    pub fn from_form(root_dir: String, port: &str, allow_listing: bool, auto_stop: bool, auto_stop_secs: &str) -> (r: HttpConfig)
        ensures
            r.root_dir == root_dir,
            r.port == port_or(port@, 7777),
            r.allow_directory_listing == allow_listing,
            r.auto_stop_seconds == (if auto_stop { seconds_of(auto_stop_secs@) } else { None }),
    {
        HttpConfig {
            root_dir,
            port: parse_port_or(port, 7777),
            allow_directory_listing: allow_listing,
            auto_stop_seconds: if auto_stop { parse_seconds(auto_stop_secs) } else { None },
        }
    }
}

impl FtpConfig {
    /// The configuration the settings form describes: an invalid port gives
    /// the default 2121, invalid passive bounds give 50000 and 50100.
    pub fn from_form(
        root_dir: String,
        port: &str,
        username: String,
        password: String,
        anonymous_access: bool,
        passive_mode: bool,
        passive_start: &str,
        passive_end: &str,
    ) -> (r: FtpConfig)
        ensures
            r.root_dir == root_dir,
            r.port == port_or(port@, 2121),
            r.username == username,
            r.password == password,
            r.anonymous_access == anonymous_access,
            r.passive_mode == passive_mode,
            r.passive_ports == (port_or(passive_start@, 50000), port_or(passive_end@, 50100)),
    {
        FtpConfig {
            root_dir,
            port: parse_port_or(port, 2121),
            username,
            password,
            anonymous_access,
            passive_mode,
            passive_ports: (parse_port_or(passive_start, 50000), parse_port_or(passive_end, 50100)),
        }
    }
}

impl TftpConfig {
    /// The configuration the settings form describes: an invalid port gives
    /// the default 69.
    pub fn from_form(root_dir: String, port: &str, read_only: bool) -> (r: TftpConfig)
        ensures
            r.root_dir == root_dir,
            r.port == port_or(port@, 69),
            r.read_only == read_only,
    {
        TftpConfig { root_dir, port: parse_port_or(port, 69), read_only }
    }
}

impl SshConfig {
    /// The configuration the settings form describes: an invalid port gives
    /// the default 2222.
    pub fn from_form(root_dir: String, port: &str, username: String, password: String) -> (r: SshConfig)
        ensures
            r.root_dir == root_dir,
            r.port == port_or(port@, 2222),
            r.username == username,
            r.password == password,
    {
        SshConfig { root_dir, port: parse_port_or(port, 2222), username, password }
    }
}

} // verus!
