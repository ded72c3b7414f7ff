//! The settings read from the environment at startup.
use vstd::prelude::*;

verus! {

/// The port used when `PORT` is unset or is not a port number.
pub const DEFAULT_PORT: u16 = 8080u16;

/// An ASCII decimal digit.
pub open spec fn is_digit(c: char) -> bool {
    '0' <= c && c <= '9'
}

/// The value of a string of decimal digits.
pub open spec fn digits_value(s: Seq<char>) -> int
    decreases s.len(),
{
    if s.len() == 0 {
        0
    } else {
        digits_value(s.drop_last()) * 10 + (s.last() as int - '0' as int)
    }
}

/// The digits of a number text: without a leading `+`, if there is one.
pub open spec fn unsigned_digits(s: Seq<char>) -> Seq<char> {
    if s.len() > 0 && s[0] == '+' {
        s.drop_first()
    } else {
        s
    }
}

/// The `u16` that `str::parse::<u16>` reads from `s`: an optional `+`, then
/// one or more ASCII digits whose value fits in 16 bits.
pub open spec fn u16_of_text(s: Seq<char>) -> Option<u16> {
    let d = unsigned_digits(s);
    if d.len() > 0 && (forall|i: int| 0 <= i < d.len() ==> is_digit(#[trigger] d[i]))
        && digits_value(d) <= 0xffff {
        Some(digits_value(d) as u16)
    } else {
        None
    }
}

proof fn lemma_digits_value_grows(d: Seq<char>, i: int)
    requires
        0 <= i <= d.len(),
        forall|k: int| 0 <= k < d.len() ==> is_digit(#[trigger] d[k]),
    ensures
        0 <= digits_value(d.take(i)) <= digits_value(d),
    decreases d.len() - i,
{
    if i == d.len() {
        assert(d.take(i) =~= d);
        lemma_digits_value_nonneg(d);
    } else {
        lemma_digits_value_grows(d, i + 1);
        assert(d.take(i + 1).drop_last() =~= d.take(i));
        assert(is_digit(d[i]));
        assert(d.take(i + 1).last() == d[i]);
        lemma_digits_value_nonneg(d.take(i));
    }
}

proof fn lemma_digits_value_nonneg(d: Seq<char>)
    requires
        forall|k: int| 0 <= k < d.len() ==> is_digit(#[trigger] d[k]),
    ensures
        0 <= digits_value(d),
    decreases d.len(),
{
    if d.len() > 0 {
        let p = d.drop_last();
        assert forall|k: int| 0 <= k < p.len() implies is_digit(#[trigger] p[k]) by {
            assert(p[k] == d[k]);
        }
        lemma_digits_value_nonneg(p);
        assert(is_digit(d.last()));
    }
}

/// `str::parse::<u16>`.
pub fn parse_u16(s: &str) -> (r: Option<u16>)
    ensures
        r == u16_of_text(s@),
{
    let n = s.unicode_len();
    let mut i: usize = 0;
    if n > 0 && s.get_char(0) == '+' {
        i = 1;
    }
    let ghost d = unsigned_digits(s@);
    assert(d =~= s@.skip(i as int));
    if i == n {
        return None;
    }
    let start = i;
    let mut value: u32 = 0;
    while i < n
        invariant
            n == s@.len(),
            start <= i <= n,
            d =~= s@.skip(start as int),
            d == unsigned_digits(s@),
            forall|k: int| 0 <= k < i - start ==> is_digit(#[trigger] d[k]),
            value == digits_value(d.take(i - start)),
            value <= 0xffff,
        decreases n - i,
    {
        let c = s.get_char(i);
        assert(d[i - start] == c);
        if c < '0' || c > '9' {
            assert(!is_digit(d[i - start]));
            return None;
        }
        assert(is_digit(d[i - start]));
        proof {
            assert(d.take(i - start + 1).drop_last() =~= d.take(i - start));
            assert(d.take(i - start + 1).last() == c);
        }
        let digit = (c as u32) - ('0' as u32);
        value = value * 10 + digit;
        i = i + 1;
        assert(value == digits_value(d.take(i - start)));
        if value > 0xffff {
            proof {
                let k = i - start;
                let dd = d;
                if forall|j: int| 0 <= j < dd.len() ==> is_digit(#[trigger] dd[j]) {
                    lemma_digits_value_grows(dd, k);
                }
            }
            return None;
        }
    }
    assert(d.take(n - start) =~= d);
    Some(value as u16)
}

/// The port to listen on, from the value of `PORT`: the value when it is a
/// port number, 8080 otherwise (also when `PORT` is unset).
pub fn port_from_env(value: Option<&str>) -> (r: u16)
    ensures
        r == (match value {
            Some(v) => match u16_of_text(v@) {
                Some(p) => p,
                None => DEFAULT_PORT,
            },
            None => DEFAULT_PORT,
        }),
{
    match value {
        Some(v) => match parse_u16(v) {
            Some(p) => p,
            None => DEFAULT_PORT,
        },
        None => DEFAULT_PORT,
    }
}

/// The settings the server starts with.
#[derive(Debug)]
pub struct ServerConfig {
    /// The host to listen on.
    pub host: String,
    /// The port to listen on.
    pub port: u16,
    /// Where the SQLite database lives.
    pub database_path: String,
    /// The admin password to seed a fresh database with, if any.
    pub admin_password: Option<String>,
}

/// The text of an optional value, or `default` when it is absent.
pub open spec fn or_default(value: Option<String>, default: Seq<char>) -> Seq<char> {
    match value {
        Some(v) => v@,
        None => default,
    }
}

/// The server settings from the values of `HOST`, `PORT`, `DATABASE_PATH`
/// and `ADMIN_PASSWORD` (each `None` when unset): host `0.0.0.0`, the port
/// as `port_from_env` reads it, and database `data/status.db` unless given.
pub fn server_config(
    host: Option<String>,
    port: Option<&str>,
    database_path: Option<String>,
    admin_password: Option<String>,
) -> (r: ServerConfig)
    ensures
        r.host@ == or_default(host, "0.0.0.0"@),
        r.port == (match port {
            Some(v) => match u16_of_text(v@) {
                Some(p) => p,
                None => DEFAULT_PORT,
            },
            None => DEFAULT_PORT,
        }),
        r.database_path@ == or_default(database_path, "data/status.db"@),
        r.admin_password == admin_password,
{
    let host = match host {
        Some(h) => h,
        None => String::from_str("0.0.0.0"),
    };
    let database_path = match database_path {
        Some(d) => d,
        None => String::from_str("data/status.db"),
    };
    ServerConfig { host, port: port_from_env(port), database_path, admin_password }
}

/// What startup does about onboarding, before the server starts.
#[derive(Debug, PartialEq, Eq)]
pub enum StartupStep {
    /// Onboarding is complete: nothing to do.
    Ready,
    /// Store the hash of the password given in `ADMIN_PASSWORD`, the site
    /// name `Status Page`, and mark onboarding complete.
    SeedFromEnv,
    /// Look whether a password hash is already stored.
    CheckStoredHash,
}

/// The first startup decision: nothing when onboarding is complete;
/// otherwise the password from the environment when one is given, and
/// otherwise a look for an already stored password hash.
pub fn startup_step(onboarded: bool, env_password_given: bool) -> (r: StartupStep)
    ensures
        onboarded ==> r == StartupStep::Ready,
        !onboarded && env_password_given ==> r == StartupStep::SeedFromEnv,
        !onboarded && !env_password_given ==> r == StartupStep::CheckStoredHash,
{
    if onboarded {
        StartupStep::Ready
    } else if env_password_given {
        StartupStep::SeedFromEnv
    } else {
        StartupStep::CheckStoredHash
    }
}

} // verus!
