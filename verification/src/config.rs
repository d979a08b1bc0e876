//! Configuration of the tool and the retry policy.
//!
//! Loading from a file or the environment happens outside the library; what
//! is verified here is the shape of a configuration, its validation, the
//! precedence of overrides, and the backoff-delay computation.

use vstd::prelude::*;

use crate::error::Error;

verus! {

/// Retry policy configuration.  The jitter factor is kept in thousandths,
/// so `100` stands for a ten-percent jitter.
#[derive(Debug)]
pub struct RetryPolicy {
    /// Maximum number of retries after the first attempt.
    pub max_retries: u32,
    /// Base delay between retries in milliseconds.
    pub base_delay_ms: u64,
    /// Maximum delay between retries in milliseconds.
    pub max_delay_ms: u64,
    /// Whether to double the delay from one retry to the next.
    pub exponential_backoff: bool,
    /// Jitter applied to each delay, in thousandths of the delay.
    pub jitter_factor_permille: u32,
}

/// A retry policy within the documented ranges.
pub open spec fn policy_ok(p: RetryPolicy) -> bool {
    &&& p.max_retries <= 10
    &&& p.base_delay_ms > 0
    &&& p.max_delay_ms >= p.base_delay_ms
    &&& p.jitter_factor_permille <= 1000
}

/// Two to the power `e`.
pub open spec fn pow2(e: nat) -> nat
    decreases e,
{
    if e == 0 {
        1nat
    } else {
        2 * pow2((e - 1) as nat)
    }
}

/// The delay before retry `attempt` without jitter: the base delay, doubled
/// per retry when backoff is exponential, saturating at the integer limit.
pub open spec fn spec_raw_delay(p: RetryPolicy, attempt: nat) -> int {
    if p.exponential_backoff {
        if p.base_delay_ms * pow2((attempt - 1) as nat) > u64::MAX {
            u64::MAX as int
        } else {
            p.base_delay_ms * pow2((attempt - 1) as nat)
        }
    } else {
        p.base_delay_ms as int
    }
}

/// The delay before retry `attempt`, given the random draw used for jitter.
/// The draw is reduced to a signed offset in [-1000, 1000] thousandths; the
/// jittered delay stays at least one millisecond and is capped at the
/// configured maximum.
pub open spec fn spec_delay(p: RetryPolicy, attempt: nat, draw: u64) -> int {
    if attempt == 0 {
        0
    } else {
        let raw = spec_raw_delay(p, attempt);
        let dm = draw as int % 2001;
        let jf = p.jitter_factor_permille as int;
        let jittered = if jf > 0 {
            if dm >= 1000 {
                let mag = raw * jf * (dm - 1000) / 1000000;
                if raw + mag > u64::MAX {
                    u64::MAX as int
                } else {
                    raw + mag
                }
            } else {
                let mag = raw * jf * (1000 - dm) / 1000000;
                if raw - mag == 0 {
                    1
                } else {
                    raw - mag
                }
            }
        } else {
            raw
        };
        if jittered > p.max_delay_ms {
            p.max_delay_ms as int
        } else {
            jittered
        }
    }
}

/// The guaranteed lower bound of a jittered delay: the unjittered delay
/// less the largest possible jitter, clamped by the cap.
pub open spec fn spec_delay_floor(p: RetryPolicy, attempt: nat) -> int {
    let raw = spec_raw_delay(p, attempt);
    let cap = p.max_delay_ms as int;
    let low = raw - (raw * (p.jitter_factor_permille as int)) / 1000;
    if low <= cap {
        low
    } else {
        cap
    }
}

/// Relies on `rand::random`: a draw from the thread-local generator; nothing
/// is promised of its value.
pub assume_specification<T>[ rand::random::<T> ]() -> (r: T)
    where
        rand::distributions::Standard: rand::distributions::Distribution<T>,
;

impl RetryPolicy {
    /// Calculate the delay in milliseconds before a given retry attempt,
    /// with a fresh random jitter draw.  Attempt `0` is the first try and
    /// waits for nothing.
    pub fn calculate_delay(&self, attempt: u32) -> (r: u64)
        requires
            policy_ok(*self),
            attempt <= self.max_retries,
        ensures
            attempt == 0 ==> r == 0,
            attempt >= 1 ==> 1 <= r <= self.max_delay_ms,
            attempt >= 1 ==> spec_delay_floor(*self, attempt as nat) <= r,
    {
        let draw = rand::random::<u64>();
        let r = self.calculate_delay_with(attempt, draw);
        proof {
            if attempt >= 1 {
                lemma_delay_in_range(*self, attempt as nat, draw);
            }
        }
        r
    }

    /// Calculate the delay before retry `attempt` from an explicit jitter
    /// draw.  This is the whole backoff rule, stated exactly.
    pub fn calculate_delay_with(&self, attempt: u32, draw: u64) -> (r: u64)
        requires
            policy_ok(*self),
            attempt <= self.max_retries,
        ensures
            r == spec_delay(*self, attempt as nat, draw),
    {
        if attempt == 0 {
            return 0;
        }
        // The unjittered delay.
        let mut p: u64 = 1;
        let mut k: u32 = 1;
        while k < attempt
            invariant
                1 <= k <= attempt <= 10,
                p == pow2((k - 1) as nat),
                p <= 512,
            decreases attempt - k,
        {
            proof {
                lemma_pow2_bound(k as nat);
            }
            p = p * 2;
            k = k + 1;
        }
        proof {
            lemma_pow2_pos((attempt - 1) as nat);
        }
        let raw: u64 = if self.exponential_backoff {
            if self.base_delay_ms > u64::MAX / p {
                proof {
                    assert(self.base_delay_ms * p > u64::MAX) by (nonlinear_arith)
                        requires
                            self.base_delay_ms > u64::MAX as int / p as int,
                            p > 0,
                    ;
                }
                u64::MAX
            } else {
                proof {
                    assert(self.base_delay_ms * p <= u64::MAX) by (nonlinear_arith)
                        requires
                            self.base_delay_ms <= u64::MAX as int / p as int,
                            p > 0,
                    ;
                }
                self.base_delay_ms * p
            }
        } else {
            self.base_delay_ms
        };
        let dm: u64 = draw % 2001;
        let jf: u64 = self.jitter_factor_permille as u64;
        let mut delay: u64 = raw;
        if jf > 0 {
            if dm >= 1000 {
                let off: u64 = dm - 1000;
                proof {
                    lemma_jitter_product_bounds(raw as int, jf as int, off as int);
                }
                let mag128: u128 = (raw as u128) * (jf as u128) * (off as u128) / 1000000;
                let mag: u64 = mag128 as u64;
                if raw > u64::MAX - mag {
                    delay = u64::MAX;
                } else {
                    delay = raw + mag;
                }
            } else {
                let off: u64 = 1000 - dm;
                proof {
                    lemma_jitter_product_bounds(raw as int, jf as int, off as int);
                }
                let mag128: u128 = (raw as u128) * (jf as u128) * (off as u128) / 1000000;
                let mag: u64 = mag128 as u64;
                delay = raw - mag;
                if delay == 0 {
                    delay = 1;
                }
            }
        }
        if delay > self.max_delay_ms {
            delay = self.max_delay_ms;
        }
        delay
    }

    /// Validate retry policy configuration.
    pub fn validate(&self) -> (r: Result<(), Error>)
        ensures
            r is Ok <==> policy_ok(*self),
            r matches Err(e) ==> e is Config,
    {
        if self.max_retries > 10 {
            return Err(Error::Config(String::from_str("Max retries cannot exceed 10")));
        }
        if self.base_delay_ms == 0 {
            return Err(Error::Config(String::from_str("Base delay must be greater than 0")));
        }
        if self.max_delay_ms < self.base_delay_ms {
            return Err(Error::Config(String::from_str("Max delay must be >= base delay")));
        }
        if self.jitter_factor_permille > 1000 {
            return Err(
                Error::Config(
                    String::from_str("Jitter factor must be between 0 and 1000 thousandths"),
                ),
            );
        }
        Ok(())
    }
}

impl Clone for RetryPolicy {
    /// An identical copy of the policy.
    fn clone(&self) -> (r: Self)
        ensures
            r == *self,
    {
        RetryPolicy {
            max_retries: self.max_retries,
            base_delay_ms: self.base_delay_ms,
            max_delay_ms: self.max_delay_ms,
            exponential_backoff: self.exponential_backoff,
            jitter_factor_permille: self.jitter_factor_permille,
        }
    }
}

impl Default for RetryPolicy {
    /// Three retries, one second base delay, ten seconds cap, exponential
    /// backoff, ten percent jitter.
    fn default() -> (r: Self)
        ensures
            r.max_retries == 3,
            r.base_delay_ms == 1000,
            r.max_delay_ms == 10000,
            r.exponential_backoff == true,
            r.jitter_factor_permille == 100,
            policy_ok(r),
    {
        RetryPolicy {
            max_retries: 3,
            base_delay_ms: 1000,
            max_delay_ms: 10000,
            exponential_backoff: true,
            jitter_factor_permille: 100,
        }
    }
}

/// `pow2` is monotone in the exponent.
proof fn lemma_pow2_mono(a: nat, b: nat)
    requires
        a <= b,
    ensures
        pow2(a) <= pow2(b),
    decreases b,
{
    if a < b {
        lemma_pow2_mono(a, (b - 1) as nat);
        lemma_pow2_pos((b - 1) as nat);
    }
}

/// `pow2` stays small for small exponents.
proof fn lemma_pow2_bound(e: nat)
    requires
        e <= 9,
    ensures
        pow2(e) <= 512,
{
    lemma_pow2_mono(e, 9);
    reveal_with_fuel(pow2, 11);
    assert(pow2(9) == 512);
}

/// The jitter product fits the machine and its quotient never exceeds the
/// delay it jitters.
proof fn lemma_jitter_product_bounds(raw: int, jf: int, off: int)
    requires
        0 <= raw <= u64::MAX,
        0 <= jf <= 1000,
        0 <= off <= 1000,
    ensures
        0 <= raw * jf <= u64::MAX as int * 1000,
        0 <= raw * jf * off <= u64::MAX as int * 1000 * 1000,
        0 <= raw * jf * off / 1000000 <= raw,
{
    assert(0 <= raw * jf <= u64::MAX as int * 1000 && 0 <= raw * jf * off <= u64::MAX as int
        * 1000 * 1000 && raw * jf * off <= raw * 1000000) by (nonlinear_arith)
        requires
            0 <= raw <= u64::MAX,
            0 <= jf <= 1000,
            0 <= off <= 1000,
    ;
    vstd::arithmetic::div_mod::lemma_div_pos_is_pos(raw * jf * off, 1000000);
    vstd::arithmetic::div_mod::lemma_div_is_ordered(raw * jf * off, raw * 1000000, 1000000);
    vstd::arithmetic::div_mod::lemma_div_multiples_vanish(raw, 1000000);
    assert(raw * 1000000 == 1000000 * raw);
}

/// Every delay for a real retry lies between one millisecond and the
/// configured cap.
pub proof fn lemma_delay_in_range(p: RetryPolicy, attempt: nat, draw: u64)
    requires
        policy_ok(p),
        1 <= attempt <= p.max_retries,
    ensures
        1 <= spec_delay(p, attempt, draw) <= p.max_delay_ms,
        spec_delay_floor(p, attempt) <= spec_delay(p, attempt, draw),
{
    let raw = spec_raw_delay(p, attempt);
    assert(pow2((attempt - 1) as nat) >= 1) by {
        lemma_pow2_pos((attempt - 1) as nat);
    };
    assert(raw >= 1) by {
        if p.exponential_backoff {
            assert(p.base_delay_ms * pow2((attempt - 1) as nat) >= p.base_delay_ms * 1)
                by (nonlinear_arith)
                requires
                    pow2((attempt - 1) as nat) >= 1,
                    p.base_delay_ms >= 0,
            ;
        }
    };
    let dm = draw as int % 2001;
    let jf = p.jitter_factor_permille as int;
    assert(0 <= dm < 2001);
    let jf_slice = (raw * jf) / 1000;
    assert(0 <= jf_slice) by {
        assert(0 <= raw * jf) by (nonlinear_arith)
            requires
                0 <= raw,
                0 <= jf,
        ;
        vstd::arithmetic::div_mod::lemma_div_pos_is_pos(raw * jf, 1000);
    };
    if jf > 0 {
        if dm >= 1000 {
            lemma_jitter_product_bounds(raw, jf, dm - 1000);
        } else {
            lemma_jitter_product_bounds(raw, jf, 1000 - dm);
            let mag = raw * jf * (1000 - dm) / 1000000;
            assert(mag <= jf_slice) by {
                lemma_jitter_slice_bound(raw, jf, 1000 - dm);
            };
        }
    }
}

/// The jitter magnitude is at most the jitter slice of the delay: the delay
/// times the jitter factor, in thousandths.
proof fn lemma_jitter_slice_bound(raw: int, jf: int, off: int)
    requires
        0 <= raw,
        0 <= jf,
        0 <= off <= 1000,
    ensures
        raw * jf * off / 1000000 <= (raw * jf) / 1000,
{
    let x = raw * jf;
    assert(0 <= x && x * off <= x * 1000) by (nonlinear_arith)
        requires
            0 <= raw,
            0 <= jf,
            0 <= off <= 1000,
            x == raw * jf,
    ;
    vstd::arithmetic::div_mod::lemma_div_is_ordered(x * off, x * 1000, 1000000);
    vstd::arithmetic::div_mod::lemma_div_denominator(x * 1000, 1000, 1000);
    assert((x * 1000) / 1000 == x) by {
        vstd::arithmetic::div_mod::lemma_div_multiples_vanish(x, 1000);
        assert(x * 1000 == 1000 * x) by (nonlinear_arith);
    };
}

/// The delays of a backoff schedule grow from one retry to the next,
/// before jitter: what the retry loop waits is non-decreasing modulo the
/// jitter applied to each delay.
pub proof fn lemma_unjittered_delay_monotone(p: RetryPolicy, a: nat, b: nat)
    requires
        1 <= a <= b,
    ensures
        spec_raw_delay(p, a) <= spec_raw_delay(p, b),
{
    if p.exponential_backoff {
        lemma_pow2_mono((a - 1) as nat, (b - 1) as nat);
        assert(p.base_delay_ms * pow2((a - 1) as nat) <= p.base_delay_ms * pow2((b - 1) as nat))
            by (nonlinear_arith)
            requires
                pow2((a - 1) as nat) <= pow2((b - 1) as nat),
                p.base_delay_ms >= 0,
        ;
    }
}

/// Positivity of `pow2`.
proof fn lemma_pow2_pos(e: nat)
    ensures
        pow2(e) >= 1,
    decreases e,
{
    if e > 0 {
        lemma_pow2_pos((e - 1) as nat);
    }
}

// ---------------------------------------------------------------------------
// Configuration
// ---------------------------------------------------------------------------

/// The configuration of one run, after file, environment and flags were
/// merged.
#[derive(Debug)]
pub struct Config {
    /// API key for the OCR service.
    pub api_key: String,
    /// Base URL of the OCR service.
    pub api_base_url: String,
    /// Request timeout in seconds.
    pub timeout_seconds: u64,
    /// Maximum file size in MB.
    pub max_file_size_mb: u64,
    /// Logging level.
    pub log_level: String,
    /// Retry policy configuration.
    pub retry_policy: RetryPolicy,
}

/// The accepted logging levels.
pub open spec fn log_level_ok(l: Seq<char>) -> bool {
    l == "error"@ || l == "warn"@ || l == "info"@ || l == "debug"@ || l == "trace"@
}

/// A configuration within the documented ranges, with a key set and a base
/// URL that parses.
pub open spec fn config_ok(c: Config) -> bool {
    &&& c.api_key@.len() > 0
    &&& crate::credentials::url_scheme_of(c.api_base_url@) is Some
    &&& 1 <= c.timeout_seconds <= 300
    &&& 1 <= c.max_file_size_mb <= 100
    &&& log_level_ok(c.log_level@)
    &&& policy_ok(c.retry_policy)
}

impl Config {
    /// Validate configuration according to the data-model rules.
    pub fn validate(&self) -> (r: Result<(), Error>)
        ensures
            r is Ok <==> config_ok(*self),
            r matches Err(e) ==> e is Config,
    {
        if self.api_key.as_str().unicode_len() == 0 {
            return Err(Error::Config(String::from_str("API key must not be empty")));
        }
        if crate::credentials::parse_url_scheme(self.api_base_url.as_str()).is_none() {
            return Err(Error::Config(String::from_str("API base URL must be a valid URL")));
        }
        if self.timeout_seconds < 1 || self.timeout_seconds > 300 {
            return Err(
                Error::Config(String::from_str("Timeout must be between 1 and 300 seconds")),
            );
        }
        if self.max_file_size_mb < 1 || self.max_file_size_mb > 100 {
            return Err(
                Error::Config(String::from_str("Max file size must be between 1 and 100 MB")),
            );
        }
        let l = self.log_level.as_str();
        if !(crate::text::str_eq(l, "error") || crate::text::str_eq(l, "warn")
            || crate::text::str_eq(l, "info") || crate::text::str_eq(l, "debug")
            || crate::text::str_eq(l, "trace")) {
            return Err(
                Error::Config(
                    String::from_str("Log level must be one of: error, warn, info, debug, trace"),
                ),
            );
        }
        self.retry_policy.validate()
    }

    /// Apply override values, highest precedence last: any field handed in
    /// replaces the loaded one, any field absent is kept.
    pub fn apply_env_overrides(
        &mut self,
        api_key: Option<String>,
        api_base_url: Option<String>,
        timeout_seconds: Option<u64>,
        max_file_size_mb: Option<u64>,
        log_level: Option<String>,
    )
        ensures
            final(self).api_key@ == (match api_key {
                Some(k) => k@,
                None => old(self).api_key@,
            }),
            final(self).api_base_url@ == (match api_base_url {
                Some(u) => u@,
                None => old(self).api_base_url@,
            }),
            final(self).timeout_seconds == (match timeout_seconds {
                Some(t) => t,
                None => old(self).timeout_seconds,
            }),
            final(self).max_file_size_mb == (match max_file_size_mb {
                Some(m) => m,
                None => old(self).max_file_size_mb,
            }),
            final(self).log_level@ == (match log_level {
                Some(l) => l@,
                None => old(self).log_level@,
            }),
            final(self).retry_policy == old(self).retry_policy,
    {
        if let Some(k) = api_key {
            self.api_key = k;
        }
        if let Some(u) = api_base_url {
            self.api_base_url = u;
        }
        if let Some(t) = timeout_seconds {
            self.timeout_seconds = t;
        }
        if let Some(m) = max_file_size_mb {
            self.max_file_size_mb = m;
        }
        if let Some(l) = log_level {
            self.log_level = l;
        }
    }
}

impl Clone for Config {
    /// A field-for-field copy of the configuration.
    fn clone(&self) -> (r: Self)
        ensures
            r.api_key@ == self.api_key@,
            r.api_base_url@ == self.api_base_url@,
            r.timeout_seconds == self.timeout_seconds,
            r.max_file_size_mb == self.max_file_size_mb,
            r.log_level@ == self.log_level@,
            r.retry_policy == self.retry_policy,
    {
        Config {
            api_key: self.api_key.clone(),
            api_base_url: self.api_base_url.clone(),
            timeout_seconds: self.timeout_seconds,
            max_file_size_mb: self.max_file_size_mb,
            log_level: self.log_level.clone(),
            retry_policy: self.retry_policy.clone(),
        }
    }
}

impl Default for Config {
    /// The documented defaults; the key starts empty and must be supplied
    /// by configuration, environment or flag.
    fn default() -> (r: Self)
        ensures
            r.api_key@ == Seq::<char>::empty(),
            r.api_base_url@ == "https://api.mistral.ai"@,
            r.timeout_seconds == 30,
            r.max_file_size_mb == 100,
            r.log_level@ == "info"@,
            r.retry_policy.max_retries == 3,
            r.retry_policy.base_delay_ms == 1000,
            r.retry_policy.max_delay_ms == 10000,
            r.retry_policy.exponential_backoff == true,
            r.retry_policy.jitter_factor_permille == 100,
    {
        Config {
            api_key: String::new(),
            api_base_url: String::from_str("https://api.mistral.ai"),
            timeout_seconds: 30,
            max_file_size_mb: 100,
            log_level: String::from_str("info"),
            retry_policy: RetryPolicy {
                max_retries: 3,
                base_delay_ms: 1000,
                max_delay_ms: 10000,
                exponential_backoff: true,
                jitter_factor_permille: 100,
            },
        }
    }
}

} // verus!
