//! Dispatcher decisions: admission control, URL resolution, header
//! assembly, and the bounded retry-with-backoff rule for throttled calls.

use vstd::prelude::*;
use vstd::arithmetic::power::{pow, lemma_pow0, lemma_pow_positive, lemma_pow_increases};
use vstd::arithmetic::mul::lemma_mul_inequality;
use vstd::string::StringExecFns;
use vstd::string::StrSliceExecFns;
use crate::auth::Auth;
use crate::auth::AuthLevel;
use crate::auth::OutputFormat;
use crate::auth::spec_accept_header_value;
use crate::auth::spec_auth_header_matches;
use crate::auth::spec_opt_str_view;
use crate::error::DiscogsError;
use crate::models::RateLimit;
use crate::strutil::parse_u32;
use crate::strutil::spec_dec_body;
use crate::strutil::spec_dec_value;
use crate::strutil::spec_has_prefix;
use crate::strutil::spec_parses_as_u32;
use crate::strutil::str_has_prefix;

verus! {

/// Bounds for the dispatcher's retry loop. The backoff factor is held in
/// thousandths, so a factor of `2.7` is `2700`.
#[derive(Debug, Clone, Copy, PartialEq, Eq, Structural)]
pub struct RetryConfig {
    pub max_retries: u32,
    pub base_delay_ms: u64,
    pub backoff_factor_thousandths: u64,
}

impl RetryConfig {
    /// The retry policy's domain: a backoff factor of at least one, so that
    /// delays never shrink between attempts.
    pub open spec fn wf(&self) -> bool {
        self.backoff_factor_thousandths >= 1000
    }

    pub fn new(max_retries: u32, base_delay_ms: u64, backoff_factor_thousandths: u64) -> (r: Self)
        requires
            backoff_factor_thousandths >= 1000,
        ensures
            r == (RetryConfig { max_retries, base_delay_ms, backoff_factor_thousandths }),
            r.wf(),
    {
        RetryConfig { max_retries, base_delay_ms, backoff_factor_thousandths }
    }
}

impl Default for RetryConfig {
    /// No retries, a two-second base delay, and a backoff factor of `2.7`.
    fn default() -> (r: Self)
        ensures
            r == (RetryConfig {
                max_retries: 0,
                base_delay_ms: 2000,
                backoff_factor_thousandths: 2700,
            }),
            r.wf(),
    {
        RetryConfig { max_retries: 0, base_delay_ms: 2000, backoff_factor_thousandths: 2700 }
    }
}

/// Numerator of the backoff fraction at a given attempt: the delay is
/// `base * (factor/1000)^attempt` milliseconds, rounded half up, which is
/// this numerator divided by `1000^attempt`.
pub open spec fn spec_backoff_numer(base: nat, factor: nat, attempt: nat) -> int {
    base * pow(factor as int, attempt) + pow(1000, attempt) / 2
}

/// The backoff delay in whole milliseconds, rounded half up and floored at
/// one millisecond to guarantee forward progress.
pub open spec fn spec_backoff_ms(base: nat, factor: nat, attempt: nat) -> int {
    let v = spec_backoff_numer(base, factor, attempt) / pow(1000, attempt);
    if v < 1 {
        1
    } else {
        v
    }
}

/// Whether the exact backoff computation stays within the machine range.
pub open spec fn spec_backoff_fits(base: nat, factor: nat, attempt: nat) -> bool {
    pow(1000, attempt) <= u128::MAX && spec_backoff_numer(base, factor, attempt) <= u128::MAX
}

/// What `retry_delay` returns: the exact rounded backoff delay, clamped to
/// `u64::MAX` milliseconds when the exact value (or its computation) exceeds
/// the machine range.
pub open spec fn spec_retry_delay(base: nat, factor: nat, attempt: nat) -> int {
    if spec_backoff_fits(base, factor, attempt) {
        let v = spec_backoff_ms(base, factor, attempt);
        if v > u64::MAX {
            u64::MAX as int
        } else {
            v
        }
    } else {
        u64::MAX as int
    }
}

/// Delay before the retry numbered `attempt` (counting from zero):
/// `base_delay * factor^attempt`, rounded to whole milliseconds and floored
/// at one millisecond.
pub fn retry_delay(config: &RetryConfig, attempt: u32) -> (d: u64)
    requires
        config.wf(),
    ensures
        d == spec_retry_delay(
            config.base_delay_ms as nat,
            config.backoff_factor_thousandths as nat,
            attempt as nat,
        ),
{
    let base: u128 = config.base_delay_ms as u128;
    let factor: u128 = config.backoff_factor_thousandths as u128;
    let ghost gb = config.base_delay_ms as nat;
    let ghost gf = config.backoff_factor_thousandths as nat;
    let ghost ga = attempt as nat;

    // q = 1000^attempt
    proof {
        lemma_pow0(1000);
        lemma_pow0(gf as int);
    }
    let mut q: u128 = 1;
    let mut i: u32 = 0;
    while i < attempt
        invariant
            0 <= i <= attempt,
            q == pow(1000, i as nat),
            ga == attempt as nat,
            gb == config.base_delay_ms as nat,
            gf == config.backoff_factor_thousandths as nat,
        decreases attempt - i,
    {
        proof {
            lemma_pow_positive(1000, i as nat);
            assert(pow(1000, (i + 1) as nat) == 1000 * pow(1000, i as nat)) by {
                reveal(pow);
            }
        }
        q = match q.checked_mul(1000) {
            Some(v) => v,
            _ => {
                proof {
                    lemma_pow_increases(1000, (i + 1) as nat, ga);
                }
                return u64::MAX;
            },
        };
        i = i + 1;
    }
    proof {
        lemma_pow_positive(1000, ga);
    }

    // numer = base * factor^attempt + q/2
    let numer: u128 = if base == 0 {
        proof {
            lemma_pow_positive(gf as int, ga);
            assert(spec_backoff_numer(gb, gf, ga) == pow(1000, ga) / 2);
        }
        q / 2
    } else {
        // p = factor^attempt
        proof {
            lemma_pow0(gf as int);
        }
        let mut p: u128 = 1;
        let mut j: u32 = 0;
        while j < attempt
            invariant
                0 <= j <= attempt,
                p == pow(gf as int, j as nat),
                ga == attempt as nat,
                gf == factor as nat,
                factor >= 1000,
                gb == base as nat,
                base >= 1,
                gb == config.base_delay_ms as nat,
                gf == config.backoff_factor_thousandths as nat,
                q == pow(1000, ga),
            decreases attempt - j,
        {
            proof {
                lemma_pow_positive(gf as int, j as nat);
                assert(pow(gf as int, (j + 1) as nat) == gf * pow(gf as int, j as nat)) by {
                    reveal(pow);
                }
            }
            p = match p.checked_mul(factor) {
                Some(v) => v,
                _ => {
                    proof {
                        assert(p * factor > u128::MAX);
                        assert(pow(gf as int, (j + 1) as nat) == gf * p);
                        assert(gf * p == p * factor);
                        lemma_pow_increases(gf, (j + 1) as nat, ga);
                        assert(pow(gf as int, ga) > u128::MAX);
                        lemma_pow_positive(gf as int, ga);
                        lemma_mul_inequality(1, gb as int, pow(gf as int, ga));
                        assert(gb * pow(gf as int, ga) >= 1 * pow(gf as int, ga));
                        lemma_pow_positive(1000, ga);
                        assert(spec_backoff_numer(gb, gf, ga) > u128::MAX);
                    }
                    return u64::MAX;
                },
            };
            j = j + 1;
        }
        let bp: u128 = match base.checked_mul(p) {
            Some(v) => v,
            _ => {
                proof {
                    lemma_pow_positive(1000, ga);
                    assert(spec_backoff_numer(gb, gf, ga) > u128::MAX);
                }
                return u64::MAX;
            },
        };
        match bp.checked_add(q / 2) {
            Some(v) => v,
            _ => {
                return u64::MAX;
            },
        }
    };
    proof {
        assert(numer == spec_backoff_numer(gb, gf, ga));
        assert(spec_backoff_fits(gb, gf, ga));
    }

    let v: u128 = numer / q;
    let floored: u128 = if v < 1 {
        1
    } else {
        v
    };
    if floored > u64::MAX as u128 {
        u64::MAX
    } else {
        floored as u64
    }
}

/// A base URL with its trailing slashes removed.
pub open spec fn spec_trim_trailing_slashes(s: Seq<char>) -> Seq<char>
    decreases s.len(),
{
    if s.len() > 0 && s.last() == '/' {
        spec_trim_trailing_slashes(s.drop_last())
    } else {
        s
    }
}

/// A relative path with its leading slashes removed.
pub open spec fn spec_trim_leading_slashes(s: Seq<char>) -> Seq<char>
    decreases s.len(),
{
    if s.len() > 0 && s[0] == '/' {
        spec_trim_leading_slashes(s.subrange(1, s.len() as int))
    } else {
        s
    }
}

/// Where a request goes: an absolute path is used verbatim; a relative path
/// is appended to the base URL, with the base's trailing slashes stripped
/// and the path's leading slash normalized to exactly one.
pub open spec fn spec_absolute_url(base: Seq<char>, path: Seq<char>) -> Seq<char> {
    if spec_has_prefix(path, "http://"@) || spec_has_prefix(path, "https://"@) {
        path
    } else {
        spec_trim_trailing_slashes(base) + "/"@ + spec_trim_leading_slashes(path)
    }
}

/// The read-only configuration shared by every call made through one
/// client: where requests go, how they identify themselves, which
/// credential signs them, and how throttling is retried.
#[derive(Debug, Clone)]
pub struct ClientConfig {
    pub base_url: String,
    pub user_agent: String,
    pub output_format: OutputFormat,
    pub auth: Auth,
    pub retry: RetryConfig,
}

/// The headers and resolved URL of one outgoing request. A value of this
/// type exists only for calls that passed the admission check.
#[derive(Debug, Clone)]
pub struct PreparedRequest {
    pub url: String,
    pub user_agent: String,
    pub accept: String,
    pub authorization: Option<String>,
}

impl ClientConfig {
    pub open spec fn wf(&self) -> bool {
        self.retry.wf()
    }

    /// A configuration with the production defaults: the public API host,
    /// the structured output format, no credential, and no retries.
    pub fn new(user_agent: String) -> (r: Self)
        ensures
            r.base_url@ == "https://api.discogs.com"@,
            r.user_agent == user_agent,
            r.output_format is Discogs,
            r.auth is Anonymous,
            r.retry == (RetryConfig {
                max_retries: 0,
                base_delay_ms: 2000,
                backoff_factor_thousandths: 2700,
            }),
            r.wf(),
    {
        ClientConfig {
            base_url: String::from_str("https://api.discogs.com"),
            user_agent,
            output_format: OutputFormat::Discogs,
            auth: Auth::Anonymous,
            retry: RetryConfig::default(),
        }
    }

    /// The admission check: an operation demanding `required` is allowed
    /// exactly when the held credential's level reaches it; a refusal
    /// carries both levels and means no network call was made.
    pub fn ensure_auth(&self, required: AuthLevel) -> (r: Result<(), DiscogsError>)
        ensures
            r is Ok <==> self.auth.spec_level().rank() >= required.rank(),
            r is Err ==> (r->Err_0 matches (DiscogsError::AuthRequired {
                required: rq,
                current: cu,
            }) && rq == required && cu == self.auth.spec_level()),
    {
        let current = self.auth.level();
        if current.satisfies(required) {
            Ok(())
        } else {
            Err(DiscogsError::AuthRequired { required, current })
        }
    }

    /// Resolves a relative-or-absolute path against the configured base
    /// URL, exactly as `spec_absolute_url` describes.
    pub fn absolute_url(&self, path: &str) -> (r: String)
        ensures
            r@ == spec_absolute_url(self.base_url@, path@),
    {
        if str_has_prefix(path, "http://") || str_has_prefix(path, "https://") {
            return path.to_owned();
        }
        let blen = self.base_url.as_str().unicode_len();
        let mut k: usize = blen;
        proof {
            assert(self.base_url@.subrange(0, blen as int) =~= self.base_url@);
        }
        loop
            invariant
                0 <= k <= blen,
                blen == self.base_url@.len(),
                spec_trim_trailing_slashes(self.base_url@) == spec_trim_trailing_slashes(
                    self.base_url@.subrange(0, k as int),
                ),
            ensures
                0 <= k <= blen,
                blen == self.base_url@.len(),
                spec_trim_trailing_slashes(self.base_url@) == self.base_url@.subrange(
                    0,
                    k as int,
                ),
            decreases k,
        {
            let ghost sub = self.base_url@.subrange(0, k as int);
            if k == 0 {
                proof {
                    assert(sub =~= Seq::<char>::empty());
                }
                break;
            }
            let c = self.base_url.as_str().get_char(k - 1);
            if c != '/' {
                proof {
                    assert(sub.last() == self.base_url@[k - 1]);
                }
                break;
            }
            proof {
                assert(sub.last() == self.base_url@[k - 1]);
                assert(sub.drop_last() =~= self.base_url@.subrange(0, k - 1));
            }
            k = k - 1;
        }
        let trimmed = self.base_url.as_str().substring_char(0, k);

        let plen = path.unicode_len();
        let mut j: usize = 0;
        proof {
            assert(path@.subrange(0 as int, plen as int) =~= path@);
        }
        loop
            invariant
                0 <= j <= plen,
                plen == path@.len(),
                spec_trim_leading_slashes(path@) == spec_trim_leading_slashes(
                    path@.subrange(j as int, plen as int),
                ),
            ensures
                0 <= j <= plen,
                plen == path@.len(),
                spec_trim_leading_slashes(path@) == path@.subrange(j as int, plen as int),
            decreases plen - j,
        {
            let ghost sub = path@.subrange(j as int, plen as int);
            if j == plen {
                proof {
                    assert(sub =~= Seq::<char>::empty());
                }
                break;
            }
            let c = path.get_char(j);
            if c != '/' {
                proof {
                    assert(sub[0] == path@[j as int]);
                }
                break;
            }
            proof {
                assert(sub[0] == path@[j as int]);
                assert(sub.subrange(1, sub.len() as int) =~= path@.subrange(
                    j as int + 1,
                    plen as int,
                ));
            }
            j = j + 1;
        }

        let mut out = trimmed.to_owned();
        out.append("/");
        out.append(path.substring_char(j, plen));
        proof {
            assert(out@ =~= spec_absolute_url(self.base_url@, path@));
        }
        out
    }

    /// Builds the one outgoing request of an attempt, after the admission
    /// check: the resolved URL, the user agent, the Accept header for the
    /// configured output format, and the credential's Authorization header.
    /// Fails with `AuthRequired` exactly when the credential's level is
    /// insufficient, in which case nothing was prepared to send.
    pub fn prepare_request(&self, path: &str, required: AuthLevel) -> (r: Result<
        PreparedRequest,
        DiscogsError,
    >)
        ensures
            r is Ok <==> self.auth.spec_level().rank() >= required.rank(),
            r is Err ==> (r->Err_0 matches (DiscogsError::AuthRequired {
                required: rq,
                current: cu,
            }) && rq == required && cu == self.auth.spec_level()),
            r is Ok ==> ({
                let p = r->Ok_0;
                &&& p.url@ == spec_absolute_url(self.base_url@, path@)
                &&& p.user_agent@ == self.user_agent@
                &&& p.accept@ == spec_accept_header_value(self.output_format)
                &&& spec_auth_header_matches(self.auth, spec_opt_str_view(p.authorization))
            }),
    {
        match self.ensure_auth(required) {
            Ok(_) => {},
            Err(e) => {
                return Err(e);
            },
        }
        let url = self.absolute_url(path);
        let user_agent = self.user_agent.clone();
        let accept = self.output_format.accept_header_value().to_owned();
        let authorization = self.auth.authorization_header();
        Ok(PreparedRequest { url, user_agent, accept, authorization })
    }
}

/// What the dispatcher does with a response's status: retry after a backoff
/// delay on throttling with budget remaining, succeed on a 2xx status, and
/// otherwise fail terminally.
#[derive(Debug, Clone, Copy, PartialEq, Eq, Structural)]
pub enum RetryDecision {
    ThrottledRetry { delay_ms: u64 },
    Succeeded,
    Failed,
}

/// The dispatcher's transition rule, as a relation between one attempt's
/// outcome and the decision taken: a 429 status with attempts left retries
/// after exactly the backoff delay of this attempt; any 2xx status
/// succeeds; everything else - a 429 with the budget spent included - fails.
pub open spec fn spec_next_action_is(
    status: u16,
    attempt: u32,
    retry: RetryConfig,
    d: RetryDecision,
) -> bool {
    if status == 429 && attempt < retry.max_retries {
        d matches (RetryDecision::ThrottledRetry { delay_ms }) && delay_ms == spec_retry_delay(
            retry.base_delay_ms as nat,
            retry.backoff_factor_thousandths as nat,
            attempt as nat,
        )
    } else if 200 <= status < 300 {
        d is Succeeded
    } else {
        d is Failed
    }
}

/// Decides how the retry loop proceeds after the attempt numbered `attempt`
/// (counting from zero) came back with `status`.
pub fn next_action(status: u16, attempt: u32, retry: &RetryConfig) -> (d: RetryDecision)
    requires
        retry.wf(),
    ensures
        spec_next_action_is(status, attempt, *retry, d),
{
    if status == 429 && attempt < retry.max_retries {
        let delay_ms = retry_delay(retry, attempt);
        RetryDecision::ThrottledRetry { delay_ms }
    } else if 200 <= status && status < 300 {
        RetryDecision::Succeeded
    } else {
        RetryDecision::Failed
    }
}

/// The retry budget is respected: once the attempt counter has reached the
/// policy's bound, no decision is another retry, whatever the status came
/// back; a logical call therefore sends at most `max_retries + 1` requests.
pub proof fn lemma_retry_bound(status: u16, attempt: u32, retry: RetryConfig, d: RetryDecision)
    requires
        attempt >= retry.max_retries,
        spec_next_action_is(status, attempt, retry, d),
    ensures
        !(d is ThrottledRetry),
{
}

/// Whether an optional header value parses as an unsigned integer.
pub open spec fn spec_header_parses(h: Option<&str>) -> bool {
    h is Some && spec_parses_as_u32(h->0@)
}

/// The integer value of a header that parses.
pub open spec fn spec_header_value(h: Option<&str>) -> int {
    spec_dec_value(spec_dec_body(h->0@))
}

/// Reads the rate-limit telemetry of a response from its three headers:
/// a snapshot exists exactly when all three are present and parse as
/// unsigned integers, and then carries their values; otherwise there is no
/// snapshot at all, never a partial one.
pub fn parse_rate_limit(limit: Option<&str>, used: Option<&str>, remaining: Option<&str>) -> (r:
    Option<RateLimit>)
    ensures
        r is Some <==> (spec_header_parses(limit) && spec_header_parses(used)
            && spec_header_parses(remaining)),
        r is Some ==> r->0.limit == spec_header_value(limit) && r->0.used == spec_header_value(
            used,
        ) && r->0.remaining == spec_header_value(remaining),
{
    let l = match limit {
        Some(s) => match parse_u32(s) {
            Some(v) => v,
            _ => {
                return Option::None;
            },
        },
        _ => {
            return Option::None;
        },
    };
    let u = match used {
        Some(s) => match parse_u32(s) {
            Some(v) => v,
            _ => {
                return Option::None;
            },
        },
        _ => {
            return Option::None;
        },
    };
    let m = match remaining {
        Some(s) => match parse_u32(s) {
            Some(v) => v,
            _ => {
                return Option::None;
            },
        },
        _ => {
            return Option::None;
        },
    };
    Some(RateLimit { limit: l, used: u, remaining: m })
}

} // verus!
