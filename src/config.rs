use vstd::prelude::*;

use crate::address::opt_view;

verus! {

/// Why a project's deploy descriptor could not be used.
#[derive(Clone, Copy, Debug, PartialEq, Eq, Structural)]
pub enum ConfigError {
    /// The descriptor file is not there or cannot be read.
    Missing,
    /// The descriptor is not well-formed.
    Malformed,
    /// The team field is not a decimal number that fits in `usize`.
    BadTeam,
}

/// What a deploy needs from the project's descriptor.
#[derive(Clone, Debug)]
pub struct DeployConfig {
    pub name: String,
    pub team: usize,
    pub rio_ip: Option<String>,
}

pub open spec fn is_ascii_digit(c: char) -> bool {
    '0' <= c && c <= '9'
}

pub open spec fn all_digits(s: Seq<char>) -> bool {
    forall|i: int| 0 <= i < s.len() ==> is_ascii_digit(#[trigger] s[i])
}

/// The number that a string of decimal digits denotes.
pub open spec fn digits_value(s: Seq<char>) -> nat
    decreases s.len(),
{
    if s.len() == 0 {
        0
    } else {
        digits_value(s.drop_last()) * 10 + ((s.last() as int - '0' as int) as nat)
    }
}

/// The digits of an unsigned number, without the `+` sign it may carry.
pub open spec fn unsigned_body(s: Seq<char>) -> Seq<char> {
    if s.len() > 0 && s[0] == '+' {
        s.drop_first()
    } else {
        s
    }
}

/// What reading `s` as a `usize` gives: an optional `+`, then one or more
/// decimal digits, with a value that fits.
pub open spec fn parse_usize_spec(s: Seq<char>) -> Option<nat> {
    let b = unsigned_body(s);
    if b.len() > 0 && all_digits(b) && digits_value(b) <= usize::MAX {
        Some(digits_value(b))
    } else {
        None
    }
}

proof fn lemma_digits_value_grows(s: Seq<char>, i: int)
    requires
        0 <= i <= s.len(),
        all_digits(s),
    ensures
        digits_value(s.take(i)) <= digits_value(s),
    decreases s.len() - i,
{
    if i < s.len() {
        lemma_digits_value_grows(s, i + 1);
        assert(s.take(i + 1).drop_last() =~= s.take(i));
    } else {
        assert(s.take(i) =~= s);
    }
}

/// Reads a team number written in decimal.
pub fn parse_team(s: &str) -> (r: Option<usize>)
    ensures
        match parse_usize_spec(s@) {
            Some(v) => r == Some(v as usize),
            None => r.is_none(),
        },
{
    let n = s.unicode_len();
    let mut i: usize = 0;
    if n > 0 && s.get_char(0) == '+' {
        i = 1;
    }
    let start = i;
    let ghost b = unsigned_body(s@);
    assert(b =~= s@.subrange(start as int, n as int));
    if start == n {
        return None;
    }
    let mut v: usize = 0;
    while i < n
        invariant
            start <= i <= n,
            n == s@.len(),
            b == s@.subrange(start as int, n as int),
            b == unsigned_body(s@),
            all_digits(b.take(i - start)),
            v as nat == digits_value(b.take(i - start)),
        decreases n - i,
    {
        let c = s.get_char(i);
        assert(b[i - start] == c);
        if c < '0' || c > '9' {
            assert(!all_digits(b));
            return None;
        }
        let d = (c as u32 - '0' as u32) as usize;
        assert(b.take(i - start + 1).drop_last() =~= b.take(i - start));
        if v > (usize::MAX - d) / 10 {
            assert(digits_value(b.take(i - start + 1)) > usize::MAX) by (nonlinear_arith)
                requires
                    v > (usize::MAX - d) / 10,
                    digits_value(b.take(i - start + 1)) == v * 10 + d,
                    d <= 9,
            ;
            proof {
                if all_digits(b) {
                    lemma_digits_value_grows(b, i - start + 1);
                }
            }
            return None;
        }
        v = v * 10 + d;
        i = i + 1;
    }
    assert(b.take(i - start) =~= b);
    Some(v)
}

impl DeployConfig {
    /// Builds the configuration from the descriptor's fields: the project
    /// name, the team number as written, and the optional fixed address.
    pub fn from_fields(name: String, team: &str, rio_ip: Option<String>) -> (r: Result<
        DeployConfig,
        ConfigError,
    >)
        ensures
            parse_usize_spec(team@).is_none() <==> r == Err::<DeployConfig, ConfigError>(
                ConfigError::BadTeam,
            ),
            parse_usize_spec(team@) is Some ==> r is Ok,
            r.is_ok() ==> r->Ok_0.name@ == name@ && Some(r->Ok_0.team as nat) == parse_usize_spec(
                team@,
            ) && opt_view(r->Ok_0.rio_ip) == opt_view(rio_ip),
    {
        match parse_team(team) {
            Some(t) => Ok(DeployConfig { name, team: t, rio_ip }),
            None => Err(ConfigError::BadTeam),
        }
    }
}

} // verus!
