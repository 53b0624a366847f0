//! Gateway configuration: defaults, and the values read from the environment.
//!
//! Reading the environment is left to the caller, which hands each variable's value
//! (or `None` where it is unset) to the constructors here.
use vstd::prelude::*;
use core::time::Duration;

verus! {

// ---------------------------------------------------------------------------
// Durations
// ---------------------------------------------------------------------------

/// The duration of `ms` milliseconds, as `Duration::from_millis` builds it.
pub uninterp spec fn millis_duration(ms: u64) -> Duration;

/// The duration of `secs` seconds, as `Duration::from_secs` builds it.
pub uninterp spec fn secs_duration(secs: u64) -> Duration;

/// Calls `Duration::from_millis`; claims that the result is the duration named by
/// `millis_duration(ms)`: `from_millis` is a pure function of its argument.
#[verifier::external_body]
pub(crate) fn duration_from_millis(ms: u64) -> (d: Duration)
    ensures
        d == millis_duration(ms),
{
    Duration::from_millis(ms)
}

/// Calls `Duration::from_secs`; claims that the result is the duration named by
/// `secs_duration(secs)`: `from_secs` is a pure function of its argument.
#[verifier::external_body]
pub(crate) fn duration_from_secs(secs: u64) -> (d: Duration)
    ensures
        d == secs_duration(secs),
{
    Duration::from_secs(secs)
}

/// `Duration` is `Copy`; its `clone` returns the same duration.
pub assume_specification[ <Duration as Clone>::clone ](d: &Duration) -> (r: Duration)
    ensures
        r == *d,
;

// ---------------------------------------------------------------------------
// Parsing variable values
// ---------------------------------------------------------------------------

pub open spec fn is_decimal_digit(c: char) -> bool {
    '0' <= c && c <= '9'
}

pub open spec fn all_decimal_digits(s: Seq<char>) -> bool {
    forall|i: int| 0 <= i < s.len() ==> is_decimal_digit(#[trigger] s[i])
}

/// The number that a string of decimal digits denotes.
pub open spec fn decimal_value(s: Seq<char>) -> nat
    decreases s.len(),
{
    if s.len() == 0 {
        0
    } else {
        decimal_value(s.drop_last()) * 10 + ((s.last() as int) - ('0' as int)) as nat
    }
}

/// What `str::parse::<u64>` gives for a string: an optional `+` followed by at least
/// one decimal digit, whose value fits in a `u64`; anything else is rejected.
pub open spec fn spec_parse_u64(s: Seq<char>) -> Option<u64> {
    let digits = if s.len() > 0 && s[0] == '+' {
        s.drop_first()
    } else {
        s
    };
    if digits.len() > 0 && all_decimal_digits(digits) && decimal_value(digits) <= u64::MAX {
        Some(decimal_value(digits) as u64)
    } else {
        None
    }
}

proof fn lemma_decimal_value_take_step(s: Seq<char>, i: int)
    requires
        0 <= i < s.len(),
        is_decimal_digit(s[i]),
    ensures
        decimal_value(s.take(i + 1)) == decimal_value(s.take(i)) * 10 + ((s[i] as int) - ('0' as int)),
{
    assert(s.take(i + 1).drop_last() =~= s.take(i));
    assert(s.take(i + 1).last() == s[i]);
}

/// A longer string of digits denotes at least as much as any of its prefixes.
proof fn lemma_decimal_value_prefix(s: Seq<char>, i: int)
    requires
        0 <= i <= s.len(),
        all_decimal_digits(s),
    ensures
        decimal_value(s.take(i)) <= decimal_value(s),
    decreases s.len() - i,
{
    if i < s.len() {
        lemma_decimal_value_take_step(s, i);
        assert(is_decimal_digit(s[i]));
        lemma_decimal_value_prefix(s, i + 1);
    } else {
        assert(s.take(i) =~= s);
    }
}

/// Parses a decimal `u64` exactly as `str::parse::<u64>` does.
pub fn parse_u64(s: &str) -> (r: Option<u64>)
    ensures
        r == spec_parse_u64(s@),
{
    let n = s.unicode_len();
    let mut start: usize = 0;
    if n > 0 && s.get_char(0) == '+' {
        start = 1;
    }
    let ghost digits = if s@.len() > 0 && s@[0] == '+' {
        s@.drop_first()
    } else {
        s@
    };
    assert(digits =~= s@.subrange(start as int, n as int));
    if start == n {
        return None;
    }
    let mut value: u64 = 0;
    let mut i: usize = start;
    while i < n
        invariant
            n == s@.len(),
            start <= i <= n,
            start < n,
            digits =~= s@.subrange(start as int, n as int),
            digits == (if s@.len() > 0 && s@[0] == '+' {
                s@.drop_first()
            } else {
                s@
            }),
            all_decimal_digits(digits.take(i - start)),
            value == decimal_value(digits.take(i - start)),
        decreases n - i,
    {
        let c = s.get_char(i);
        if !('0' <= c && c <= '9') {
            assert(digits[i - start] == c);
            assert(!is_decimal_digit(digits[i - start]));
            assert(!all_decimal_digits(digits));
            assert(spec_parse_u64(s@) == None::<u64>);
            return None;
        }
        let d: u64 = (c as u64) - ('0' as u64);
        assert(digits[i - start] == c);
        proof {
            lemma_decimal_value_take_step(digits, i - start);
        }
        if value > (u64::MAX - d) / 10 {
            proof {
                assert(value * 10 + d > u64::MAX) by (nonlinear_arith)
                    requires
                        value > (u64::MAX - d) / 10,
                        d <= 9,
                ;
                if all_decimal_digits(digits) {
                    lemma_decimal_value_prefix(digits, i - start + 1);
                    assert(decimal_value(digits) > u64::MAX);
                }
                assert(spec_parse_u64(s@) == None::<u64>);
            }
            return None;
        }
        assert(value * 10 + d <= u64::MAX) by (nonlinear_arith)
            requires
                value <= (u64::MAX - d) / 10,
                d <= 9,
        ;
        value = value * 10 + d;
        i = i + 1;
        assert(all_decimal_digits(digits.take(i - start))) by {
            assert forall|j: int| 0 <= j < i - start implies is_decimal_digit(
                #[trigger] digits.take(i - start)[j],
            ) by {
                if j < i - 1 - start {
                    assert(digits.take(i - 1 - start)[j] == digits.take(i - start)[j]);
                }
            }
        }
    }
    assert(digits.take(n - start) =~= digits);
    Some(value)
}

/// The value of a numeric variable: its parsed value, or `default` where it is unset or
/// does not parse as a `u64`.
pub open spec fn spec_number_or(value: Option<Seq<char>>, default: u64) -> u64 {
    match value {
        Some(v) => match spec_parse_u64(v) {
            Some(n) => n,
            None => default,
        },
        None => default,
    }
}

pub fn number_or(value: Option<&str>, default: u64) -> (r: u64)
    ensures
        r == spec_number_or(
            match value {
                Some(v) => Some(v@),
                None => None,
            },
            default,
        ),
        value matches Some(v) ==> (spec_parse_u64(v@) matches Some(n) ==> r == n),
        value matches Some(v) ==> (spec_parse_u64(v@) is None ==> r == default),
        value is None ==> r == default,
{
    match value {
        Some(v) => match parse_u64(v) {
            Some(n) => n,
            None => default,
        },
        None => default,
    }
}

pub open spec fn false_word() -> Seq<char> {
    seq!['f', 'a', 'l', 's', 'e']
}

pub open spec fn zero_word() -> Seq<char> {
    seq!['0']
}

/// The value of a switch variable: on unless it is set to `false` or `0`.
pub open spec fn spec_switch_or_on(value: Option<Seq<char>>) -> bool {
    match value {
        Some(v) => v != false_word() && v != zero_word(),
        None => true,
    }
}

pub fn switch_or_on(value: Option<&str>) -> (r: bool)
    ensures
        r == spec_switch_or_on(
            match value {
                Some(v) => Some(v@),
                None => None,
            },
        ),
        value matches Some(v) ==> (!r <==> (v@ == seq!['f', 'a', 'l', 's', 'e'] || v@ == seq!['0'])),
        value is None ==> r,
{
    match value {
        Some(v) => {
            let f = "false";
            let z = "0";
            proof {
                reveal_strlit("false");
                reveal_strlit("0");
            }
            assert(f@ =~= false_word());
            assert(z@ =~= zero_word());
            !crate::format::str_equals(v, f) && !crate::format::str_equals(v, z)
        },
        None => true,
    }
}

/// How `str::parse::<u64>` reads a string, digit by digit: one digit is its own value;
/// a digit added at the end of a number multiplies it by ten and adds the digit's value,
/// unless that leaves the range of `u64`; a leading `+` changes nothing; and an empty
/// string, a lone `+` or any other character is refused.
pub proof fn lemma_parse_u64_digit_by_digit(s: Seq<char>, d: char, i: int)
    ensures
        '0' <= d <= '9' ==> spec_parse_u64(seq![d]) == Some(((d as int) - ('0' as int)) as u64),
        '0' <= d <= '9' && s.len() > 0 && s[0] != '+' ==> (spec_parse_u64(s) matches Some(n) ==> (
        n * 10 + ((d as int) - ('0' as int)) <= u64::MAX ==> spec_parse_u64(s.push(d)) == Some(
            (n * 10 + ((d as int) - ('0' as int))) as u64,
        ))),
        '0' <= d <= '9' && s.len() > 0 && s[0] != '+' ==> (spec_parse_u64(s) matches Some(n) ==> (
        n * 10 + ((d as int) - ('0' as int)) > u64::MAX ==> spec_parse_u64(s.push(d)) is None)),
        s.len() > 0 && s[0] != '+' ==> spec_parse_u64(seq!['+'] + s) == spec_parse_u64(s),
        spec_parse_u64(Seq::<char>::empty()) is None,
        spec_parse_u64(seq!['+']) is None,
        0 <= i < s.len() && !('0' <= s[i] <= '9') && !(i == 0 && s[i] == '+') ==> spec_parse_u64(
            s,
        ) is None,
{
    assert(seq![d].drop_last() =~= Seq::<char>::empty());
    assert(seq!['+'].drop_first() =~= Seq::<char>::empty());
    if s.len() > 0 && s[0] != '+' {
        assert((seq!['+'] + s).drop_first() =~= s);
        let p = s.push(d);
        assert(p.drop_last() =~= s);
        if '0' <= d <= '9' && all_decimal_digits(s) {
            assert(all_decimal_digits(p)) by {
                assert forall|k: int| 0 <= k < p.len() implies is_decimal_digit(#[trigger] p[k]) by {
                    if k < s.len() {
                        assert(p[k] == s[k]);
                    }
                }
            }
        }
        if !all_decimal_digits(s) {
            let k = choose|k: int| 0 <= k < s.len() && !is_decimal_digit(#[trigger] s[k]);
            assert(p[k] == s[k]);
        }
    }
    if 0 <= i < s.len() && !('0' <= s[i] <= '9') && !(i == 0 && s[i] == '+') {
        if s[0] == '+' {
            assert(s.drop_first()[i - 1] == s[i]);
        }
    }
}

/// A set numeric variable that reads as a `u64` takes that number, whatever the default
/// (above it or below it); one that is unset or does not read as a number takes the
/// default.
pub proof fn lemma_number_or_takes_parsed(v: Seq<char>, default: u64, other_default: u64)
    ensures
        spec_parse_u64(v) matches Some(n) ==> spec_number_or(Some(v), default) == n,
        spec_parse_u64(v) is Some ==> spec_number_or(Some(v), default) == spec_number_or(
            Some(v),
            other_default,
        ),
        spec_parse_u64(v) is None ==> spec_number_or(Some(v), default) == default,
        spec_number_or(None, default) == default,
{
}

/// A switch is off exactly where it is set to `false` or to `0`; any other value, such
/// as `1` or `true`, and an unset switch, leave it on.
pub proof fn lemma_switch_off_only_for_false_or_zero(v: Seq<char>)
    ensures
        !spec_switch_or_on(Some(v)) <==> (v == seq!['f', 'a', 'l', 's', 'e'] || v == seq!['0']),
        spec_switch_or_on(None),
{
}

/// Turns an optional string slice into an optional owned string.
pub(crate) fn owned_or(value: Option<&str>, default: &str) -> (r: String)
    ensures
        r@ == match value {
            Some(v) => v@,
            None => default@,
        },
{
    match value {
        Some(v) => v.to_owned(),
        None => default.to_owned(),
    }
}

// ---------------------------------------------------------------------------
// Redis
// ---------------------------------------------------------------------------

pub open spec fn default_redis_url() -> Seq<char> {
    seq!['r', 'e', 'd', 'i', 's', ':', '/', '/', '1', '2', '7', '.', '0', '.', '0', '.', '1', ':', '6', '3', '7', '9']
}

/// Redis configuration for MCP connection state storage.
///
/// Variables: `REDIS_URL` (default `redis://127.0.0.1:6379`) and `MCP_TTL_SECS`
/// (default `3600`).
#[derive(Clone, Debug)]
pub struct RedisConfig {
    /// Redis connection URL
    pub url: String,
    /// MCP connection TTL in seconds
    pub mcp_ttl_secs: u64,
}

impl Default for RedisConfig {
    fn default() -> (r: RedisConfig)
        ensures
            r.url@ == default_redis_url(),
            r.mcp_ttl_secs == 3600,
    {
        let url = "redis://127.0.0.1:6379";
        proof {
            reveal_strlit("redis://127.0.0.1:6379");
        }
        assert(url@ =~= default_redis_url());
        RedisConfig { url: url.to_owned(), mcp_ttl_secs: 3600 }
    }
}

impl RedisConfig {
    /// Builds the configuration from the values of `REDIS_URL` and `MCP_TTL_SECS`.
    pub fn from_vars(url: Option<&str>, mcp_ttl_secs: Option<&str>) -> (r: RedisConfig)
        ensures
            r.url@ == match url {
                Some(v) => v@,
                None => default_redis_url(),
            },
            r.mcp_ttl_secs == spec_number_or(
                match mcp_ttl_secs {
                    Some(v) => Some(v@),
                    None => None,
                },
                3600,
            ),
    {
        let default_url = "redis://127.0.0.1:6379";
        proof {
            reveal_strlit("redis://127.0.0.1:6379");
        }
        assert(default_url@ =~= default_redis_url());
        RedisConfig { url: owned_or(url, default_url), mcp_ttl_secs: number_or(mcp_ttl_secs, 3600) }
    }
}

// ---------------------------------------------------------------------------
// gRPC client
// ---------------------------------------------------------------------------

pub open spec fn default_backend_addr() -> Seq<char> {
    seq!['h', 't', 't', 'p', ':', '/', '/', '1', '2', '7', '.', '0', '.', '0', '.', '1', ':', '5', '0', '0', '5', '1']
}

/// gRPC client configuration for backend connections.
///
/// Variables, with their defaults: `BACKEND_ADDR` (`http://127.0.0.1:50051`),
/// `READ_BACKEND_ADDR` (none), `GRPC_CONNECT_TIMEOUT_MS` (`5000`),
/// `GRPC_REQUEST_TIMEOUT_MS` (`30000`), `GRPC_TCP_KEEPALIVE_SECS` (`60`),
/// `GRPC_HTTP2_KEEPALIVE_INTERVAL_SECS` (`60`), `GRPC_HTTP2_KEEPALIVE_TIMEOUT_SECS` (`20`),
/// `GRPC_HTTP2_ADAPTIVE_WINDOW` (`true`).
#[derive(Clone, Debug)]
pub struct GrpcConfig {
    /// Backend gRPC address
    pub backend_addr: String,
    /// Address of a read replica; reads go to the primary where there is none
    pub read_backend_addr: Option<String>,
    /// Connection establishment timeout
    pub connect_timeout: Duration,
    /// Per-request timeout
    pub request_timeout: Duration,
    /// TCP keepalive interval
    pub tcp_keepalive: Duration,
    /// HTTP/2 keepalive ping interval
    pub http2_keepalive_interval: Duration,
    /// HTTP/2 keepalive ping timeout
    pub http2_keepalive_timeout: Duration,
    /// Enable HTTP/2 adaptive flow control window
    pub http2_adaptive_window: bool,
}

/// The values of the gRPC client's environment variables, `None` where unset.
pub struct GrpcVars<'a> {
    pub backend_addr: Option<&'a str>,
    pub read_backend_addr: Option<&'a str>,
    pub connect_timeout_ms: Option<&'a str>,
    pub request_timeout_ms: Option<&'a str>,
    pub tcp_keepalive_secs: Option<&'a str>,
    pub http2_keepalive_interval_secs: Option<&'a str>,
    pub http2_keepalive_timeout_secs: Option<&'a str>,
    pub http2_adaptive_window: Option<&'a str>,
}

pub open spec fn opt_view(v: Option<&str>) -> Option<Seq<char>> {
    match v {
        Some(s) => Some(s@),
        None => None,
    }
}

impl GrpcConfig {
    /// The configuration that `from_vars` builds from the variables' values.
    pub open spec fn matches_vars(self, vars: GrpcVars) -> bool {
        &&& self.backend_addr@ == match vars.backend_addr {
            Some(v) => v@,
            None => default_backend_addr(),
        }
        &&& self.read_backend_addr.is_some() == vars.read_backend_addr.is_some()
        &&& (vars.read_backend_addr matches Some(v) ==> self.read_backend_addr.unwrap()@ == v@)
        &&& self.connect_timeout == millis_duration(
            spec_number_or(opt_view(vars.connect_timeout_ms), 5000),
        )
        &&& self.request_timeout == millis_duration(
            spec_number_or(opt_view(vars.request_timeout_ms), 30000),
        )
        &&& self.tcp_keepalive == secs_duration(spec_number_or(opt_view(vars.tcp_keepalive_secs), 60))
        &&& self.http2_keepalive_interval == secs_duration(
            spec_number_or(opt_view(vars.http2_keepalive_interval_secs), 60),
        )
        &&& self.http2_keepalive_timeout == secs_duration(
            spec_number_or(opt_view(vars.http2_keepalive_timeout_secs), 20),
        )
        &&& self.http2_adaptive_window == spec_switch_or_on(opt_view(vars.http2_adaptive_window))
    }

    /// Builds the configuration from the values of its environment variables; an unset
    /// variable, or a number that does not parse, takes its default.
    pub fn from_vars(vars: GrpcVars) -> (r: GrpcConfig)
        ensures
            r.matches_vars(vars),
    {
        let default_addr = "http://127.0.0.1:50051";
        proof {
            reveal_strlit("http://127.0.0.1:50051");
        }
        assert(default_addr@ =~= default_backend_addr());
        let read_backend_addr = match vars.read_backend_addr {
            Some(v) => Some(v.to_owned()),
            None => None,
        };
        GrpcConfig {
            backend_addr: owned_or(vars.backend_addr, default_addr),
            read_backend_addr,
            connect_timeout: duration_from_millis(number_or(vars.connect_timeout_ms, 5000)),
            request_timeout: duration_from_millis(number_or(vars.request_timeout_ms, 30000)),
            tcp_keepalive: duration_from_secs(number_or(vars.tcp_keepalive_secs, 60)),
            http2_keepalive_interval: duration_from_secs(
                number_or(vars.http2_keepalive_interval_secs, 60),
            ),
            http2_keepalive_timeout: duration_from_secs(
                number_or(vars.http2_keepalive_timeout_secs, 20),
            ),
            http2_adaptive_window: switch_or_on(vars.http2_adaptive_window),
        }
    }

    /// The same configuration pointed at another backend address.
    pub fn with_backend_addr(&self, addr: String) -> (r: GrpcConfig)
        ensures
            r.backend_addr == addr,
            r.read_backend_addr == self.read_backend_addr,
            r.connect_timeout == self.connect_timeout,
            r.request_timeout == self.request_timeout,
            r.tcp_keepalive == self.tcp_keepalive,
            r.http2_keepalive_interval == self.http2_keepalive_interval,
            r.http2_keepalive_timeout == self.http2_keepalive_timeout,
            r.http2_adaptive_window == self.http2_adaptive_window,
    {
        GrpcConfig {
            backend_addr: addr,
            read_backend_addr: self.read_backend_addr.clone(),
            connect_timeout: self.connect_timeout,
            request_timeout: self.request_timeout,
            tcp_keepalive: self.tcp_keepalive,
            http2_keepalive_interval: self.http2_keepalive_interval,
            http2_keepalive_timeout: self.http2_keepalive_timeout,
            http2_adaptive_window: self.http2_adaptive_window,
        }
    }
}

impl Default for GrpcConfig {
    fn default() -> (r: GrpcConfig)
        ensures
            r.backend_addr@ == default_backend_addr(),
            r.read_backend_addr.is_none(),
            r.connect_timeout == millis_duration(5000),
            r.request_timeout == millis_duration(30000),
            r.tcp_keepalive == secs_duration(60),
            r.http2_keepalive_interval == secs_duration(60),
            r.http2_keepalive_timeout == secs_duration(20),
            r.http2_adaptive_window,
    {
        let addr = "http://127.0.0.1:50051";
        proof {
            reveal_strlit("http://127.0.0.1:50051");
        }
        assert(addr@ =~= default_backend_addr());
        GrpcConfig {
            backend_addr: addr.to_owned(),
            read_backend_addr: None,
            connect_timeout: duration_from_millis(5000),
            request_timeout: duration_from_millis(30000),
            tcp_keepalive: duration_from_secs(60),
            http2_keepalive_interval: duration_from_secs(60),
            http2_keepalive_timeout: duration_from_secs(20),
            http2_adaptive_window: true,
        }
    }
}

} // verus!
