//! The service's settings and how they are read from their textual values.
use vstd::prelude::*;

verus! {

/// The default lifetime of a refresh token, in days.
pub const DEFAULT_REFRESH_TOKEN_TTL_DAYS: &'static str = "30";

/// The default lifetime of an access token, in minutes.
pub const DEFAULT_ACCESS_TOKEN_TTL_MINS: &'static str = "15";

/// The service's settings; token lifetimes are in whole seconds.
#[derive(Debug)]
pub struct AppConfig {
    pub host: String,
    pub port: String,
    pub jwt_secret: String,
    pub access_token_ttl: u64,
    pub refresh_token_ttl: u64,
}

/// A setting that is missing or malformed.
#[derive(Debug, Clone, Copy, PartialEq, Eq, Structural)]
pub enum ConfigError {
    /// `JWT_SECRET` is not set.
    MissingJwtSecret,
    /// `REFRESH_TOKEN_TTL_DAYS` is not a number, or too large.
    InvalidRefreshTokenTtl,
    /// `ACCESS_TOKEN_TTL_MINS` is not a number, or too large.
    InvalidAccessTokenTtl,
}

impl ConfigError {
    /// The message the service stops with.
    pub fn message(&self) -> (r: &'static str)
        ensures
            r@ == (match self {
                ConfigError::MissingJwtSecret => "JWT_SECRET must be set"@,
                ConfigError::InvalidRefreshTokenTtl => "REFRESH_TOKEN_TTL_DAYS must be a number"@,
                ConfigError::InvalidAccessTokenTtl => "ACCESS_TOKEN_TTL_MINS must be a valid number"@,
            }),
    {
        match self {
            ConfigError::MissingJwtSecret => "JWT_SECRET must be set",
            ConfigError::InvalidRefreshTokenTtl => "REFRESH_TOKEN_TTL_DAYS must be a number",
            ConfigError::InvalidAccessTokenTtl => "ACCESS_TOKEN_TTL_MINS must be a valid number",
        }
    }
}

/// The value of the decimal digits `ds`.
pub open spec fn decimal_value(ds: Seq<char>) -> int
    decreases ds.len(),
{
    if ds.len() == 0 {
        0
    } else {
        decimal_value(ds.drop_last()) * 10 + (ds.last() as int - '0' as int)
    }
}

/// What `u64::from_str` gives for `s`: an optional `+` followed by one or
/// more ASCII digits whose value fits a `u64`; nothing else parses.
pub open spec fn parsed_u64(s: Seq<char>) -> Option<u64> {
    let ds = digits_part(s);
    if ds.len() > 0 && all_digits(ds) && decimal_value(ds) <= u64::MAX {
        Some(decimal_value(ds) as u64)
    } else {
        None
    }
}

/// `s` without its leading `+`, if it has one.
pub open spec fn digits_part(s: Seq<char>) -> Seq<char> {
    if s.len() > 0 && s[0] == '+' {
        s.drop_first()
    } else {
        s
    }
}

/// Every character of `ds` is an ASCII digit.
pub open spec fn all_digits(ds: Seq<char>) -> bool {
    forall|i: int| 0 <= i < ds.len() ==> '0' <= #[trigger] ds[i] <= '9'
}

/// A prefix of decimal digits has a value no greater than the whole.
proof fn lemma_decimal_prefix_le(ds: Seq<char>, j: int)
    requires
        0 <= j <= ds.len(),
        forall|i: int| 0 <= i < ds.len() ==> '0' <= #[trigger] ds[i] <= '9',
    ensures
        decimal_value(ds.take(j)) <= decimal_value(ds),
    decreases ds.len(),
{
    if j < ds.len() {
        let d = ds.drop_last();
        assert forall|i: int| 0 <= i < d.len() implies '0' <= #[trigger] d[i] <= '9' by {
            assert(d[i] == ds[i]);
        }
        lemma_decimal_prefix_le(d, j);
        assert(d.take(j) =~= ds.take(j));
        lemma_decimal_nonneg(d);
    } else {
        assert(ds.take(j) =~= ds);
    }
}

/// The value of decimal digits is not negative.
proof fn lemma_decimal_nonneg(ds: Seq<char>)
    requires
        forall|i: int| 0 <= i < ds.len() ==> '0' <= #[trigger] ds[i] <= '9',
    ensures
        decimal_value(ds) >= 0,
    decreases ds.len(),
{
    if ds.len() > 0 {
        let d = ds.drop_last();
        assert forall|i: int| 0 <= i < d.len() implies '0' <= #[trigger] d[i] <= '9' by {
            assert(d[i] == ds[i]);
        }
        lemma_decimal_nonneg(d);
        assert(ds[ds.len() - 1] == ds.last());
    }
}

/// The characters of `s`, in order.
fn chars_of(s: &str) -> (v: Vec<char>)
    ensures
        v@ == s@,
{
    broadcast use vstd::string::axiom_spec_iter;

    let mut v: Vec<char> = Vec::new();
    for c in it: s.chars()
        invariant
            it.seq() == s@,
            v@ == it.seq().take(it.index() as int),
    {
        proof {
            assert(it.seq().take(it.index() + 1) =~= it.seq().take(it.index() as int).push(c));
        }
        v.push(c);
    }
    proof {
        assert(s@.take(s@.len() as int) =~= s@);
    }
    v
}

/// Reads `s` as `u64::from_str` does: an optional `+` followed by one or
/// more ASCII digits whose value fits a `u64`; nothing else is read.
pub fn parse_u64(s: &str) -> (r: Option<u64>)
    ensures
        r == parsed_u64(s@),
{
    let v = chars_of(s);
    let start: usize = if v.len() > 0 && v[0] == '+' {
        1
    } else {
        0
    };
    let ghost ds = digits_part(s@);
    proof {
        assert(ds =~= s@.skip(start as int));
    }
    if start == v.len() {
        return None;
    }
    let mut value: u64 = 0;
    let mut j: usize = start;
    while j < v.len()
        invariant
            start <= j <= v@.len(),
            v@ == s@,
            ds == s@.skip(start as int),
            ds == digits_part(s@),
            forall|i: int| 0 <= i < j - start ==> '0' <= #[trigger] ds[i] <= '9',
            value == decimal_value(ds.take(j - start)),
        decreases v@.len() - j,
    {
        let c = v[j];
        let k = j - start;
        proof {
            assert(ds[k as int] == c);
            assert(ds.take(k + 1).drop_last() =~= ds.take(k as int));
            assert(ds.take(k + 1).last() == c);
        }
        if !('0' <= c && c <= '9') {
            proof {
                assert(!('0' <= ds[k as int] <= '9'));
                assert(!all_digits(ds));
            }
            return None;
        }
        let d: u64 = (c as u32 - '0' as u32) as u64;
        if value > (u64::MAX - d) / 10 {
            proof {
                assert(decimal_value(ds.take(k + 1)) > u64::MAX) by (nonlinear_arith)
                    requires
                        decimal_value(ds.take(k + 1)) == value * 10 + d,
                        value > (u64::MAX - d) / 10,
                        d <= 9,
                ;
                if all_digits(ds) {
                    lemma_decimal_prefix_le(ds, k + 1);
                }
            }
            return None;
        }
        proof {
            assert(value * 10 + d <= u64::MAX) by (nonlinear_arith)
                requires
                    value <= (u64::MAX - d) / 10,
                    d <= 9,
            ;
        }
        value = value * 10 + d;
        j = j + 1;
    }
    proof {
        assert(ds.take(j - start) =~= ds);
    }
    Some(value)
}

/// The setting, or its default where it is not set.
fn or_default(value: Option<String>, default: &'static str) -> (r: String)
    ensures
        r@ == (match value {
            Some(v) => v@,
            None => default@,
        }),
{
    match value {
        Some(v) => v,
        None => default.to_string(),
    }
}

/// The lifetime, in seconds, of `count` units of `unit_secs` seconds each,
/// read from `text`; none when it does not parse or overflows.
fn ttl_seconds(text: &str, unit_secs: u64) -> (r: Option<u64>)
    ensures
        r == (match parsed_u64(text@) {
            Some(n) => if n * unit_secs <= u64::MAX {
                Some((n * unit_secs) as u64)
            } else {
                None
            },
            None => None,
        }),
{
    match parse_u64(text) {
        Some(n) => n.checked_mul(unit_secs),
        None => None,
    }
}

/// The seconds in a minute and in a day.
pub const SECONDS_PER_MINUTE: u64 = 60;
pub const SECONDS_PER_DAY: u64 = 86400;

/// The lifetime in seconds that `text` gives for units of `unit_secs`.
pub open spec fn ttl_from_text(text: Seq<char>, unit_secs: int) -> Option<int> {
    match parsed_u64(text) {
        Some(n) => if n * unit_secs <= u64::MAX {
            Some(n * unit_secs)
        } else {
            None
        },
        None => None,
    }
}

impl AppConfig {
    /// The settings from the values of `SERVER_HOST`, `SERVER_PORT`,
    /// `JWT_SECRET`, `REFRESH_TOKEN_TTL_DAYS` and `ACCESS_TOKEN_TTL_MINS`,
    /// each `None` where unset: host and port default to `127.0.0.1` and
    /// `8080`, the lifetimes to 30 days and 15 minutes; the secret must be
    /// set and the lifetimes must be numbers whose seconds fit a `u64`.
    pub fn from_settings(
        host: Option<String>,
        port: Option<String>,
        jwt_secret: Option<String>,
        refresh_token_ttl_days: Option<String>,
        access_token_ttl_mins: Option<String>,
    ) -> (r: Result<AppConfig, ConfigError>)
        ensures
            ({
                let days = match refresh_token_ttl_days {
                    Some(v) => v@,
                    None => DEFAULT_REFRESH_TOKEN_TTL_DAYS@,
                };
                let mins = match access_token_ttl_mins {
                    Some(v) => v@,
                    None => DEFAULT_ACCESS_TOKEN_TTL_MINS@,
                };
                if jwt_secret is None {
                    r == Err::<AppConfig, ConfigError>(ConfigError::MissingJwtSecret)
                } else if ttl_from_text(days, SECONDS_PER_DAY as int) is None {
                    r == Err::<AppConfig, ConfigError>(ConfigError::InvalidRefreshTokenTtl)
                } else if ttl_from_text(mins, SECONDS_PER_MINUTE as int) is None {
                    r == Err::<AppConfig, ConfigError>(ConfigError::InvalidAccessTokenTtl)
                } else {
                    r matches Ok(c) && {
                        &&& c.host@ == (match host {
                            Some(v) => v@,
                            None => "127.0.0.1"@,
                        })
                        &&& c.port@ == (match port {
                            Some(v) => v@,
                            None => "8080"@,
                        })
                        &&& Some(c.jwt_secret) == jwt_secret
                        &&& Some(c.refresh_token_ttl as int) == ttl_from_text(
                            days,
                            SECONDS_PER_DAY as int,
                        )
                        &&& Some(c.access_token_ttl as int) == ttl_from_text(
                            mins,
                            SECONDS_PER_MINUTE as int,
                        )
                    }
                }
            }),
    {
        let host = or_default(host, "127.0.0.1");
        let port = or_default(port, "8080");
        let jwt_secret = match jwt_secret {
            Some(s) => s,
            None => return Err(ConfigError::MissingJwtSecret),
        };
        let days = or_default(refresh_token_ttl_days, DEFAULT_REFRESH_TOKEN_TTL_DAYS);
        let refresh_token_ttl = match ttl_seconds(days.as_str(), SECONDS_PER_DAY) {
            Some(t) => t,
            None => return Err(ConfigError::InvalidRefreshTokenTtl),
        };
        let mins = or_default(access_token_ttl_mins, DEFAULT_ACCESS_TOKEN_TTL_MINS);
        let access_token_ttl = match ttl_seconds(mins.as_str(), SECONDS_PER_MINUTE) {
            Some(t) => t,
            None => return Err(ConfigError::InvalidAccessTokenTtl),
        };
        Ok(AppConfig { host, port, jwt_secret, access_token_ttl, refresh_token_ttl })
    }
}

} // verus!
