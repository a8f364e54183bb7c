//! The retry policy for transient failures: which answers are retried, how long to wait
//! before the next attempt, and the decision taken after each attempt.

use crate::api::client::VultrClient;
use crate::api::query::opt_view;
use crate::error::VultrError;
use crate::text::chars_of;
use rand::Rng;
use vstd::arithmetic::power2::pow2;
use vstd::prelude::*;

verus! {

/// A wall-clock instant, as seconds and nanoseconds since the Unix epoch.
#[derive(Debug, Clone, Copy)]
pub struct UnixTime {
    pub secs: u64,
    pub nanos: u32,
}

/// The instant, in whole seconds since the Unix epoch, that `httpdate::parse_http_date`
/// reads from a header value, if it reads one.
pub uninterp spec fn spec_http_date_secs(s: Seq<char>) -> Option<u64>;

/// Calls `httpdate::parse_http_date` and expresses the instant in seconds since the Unix
/// epoch. Trusted: the result is the named reading of the text. The crate only produces
/// whole-second instants from 1970 on, so the conversion is exact.
#[verifier::external_body]
fn http_date_secs(s: &str) -> (r: Option<u64>)
    ensures
        r == spec_http_date_secs(s@),
{
    match httpdate::parse_http_date(s) {
        Ok(t) => match t.duration_since(std::time::UNIX_EPOCH) {
            Ok(d) => Some(d.as_secs()),
            Err(_) => None,
        },
        Err(_) => None,
    }
}

/// Calls `std::time::SystemTime::now` and `duration_since(UNIX_EPOCH)`. Trusted only for
/// what `Duration::subsec_nanos` documents: the nanoseconds are below one billion. `None`
/// where `duration_since` reports the clock to be before the epoch.
#[verifier::external_body]
fn system_time_since_epoch() -> (t: Option<UnixTime>)
    ensures
        t matches Some(u) ==> u.nanos < 1_000_000_000,
{
    match std::time::SystemTime::now().duration_since(std::time::UNIX_EPOCH) {
        Ok(d) => Some(UnixTime { secs: d.as_secs(), nanos: d.subsec_nanos() }),
        Err(_) => None,
    }
}

/// The current instant since the Unix epoch; a clock set before 1970 reads as the epoch.
pub(crate) fn unix_now() -> (t: UnixTime)
    ensures
        t.nanos < 1_000_000_000,
{
    match system_time_since_epoch() {
        Some(u) => u,
        None => UnixTime { secs: 0, nanos: 0 },
    }
}

/// Calls `rand::thread_rng().gen_range(0..=max)`. Trusted only for what holds of every
/// outcome: the value lies in the inclusive range, which is never empty.
#[verifier::external_body]
fn random_up_to(max: u64) -> (r: u64)
    ensures
        r <= max,
{
    rand::thread_rng().gen_range(0..=max)
}

/// A decimal digit.
pub open spec fn is_digit(c: char) -> bool {
    '0' <= c && c <= '9'
}

/// The value of a string of decimal digits.
pub open spec fn digits_value(d: Seq<char>) -> nat
    decreases d.len(),
{
    if d.len() == 0 {
        0
    } else {
        digits_value(d.drop_last()) * 10 + ((d.last() as u32) - ('0' as u32)) as nat
    }
}

/// What `str::parse::<u64>` accepts: an optional `+`, then one or more decimal digits whose
/// value fits in 64 bits.
pub open spec fn parsed_u64(s: Seq<char>) -> Option<u64> {
    let d = unsigned_digits(s);
    if d.len() > 0 && all_digits(d) && digits_value(d) <= u64::MAX {
        Some(digits_value(d) as u64)
    } else {
        None
    }
}

/// The text after an optional leading `+`.
pub open spec fn unsigned_digits(s: Seq<char>) -> Seq<char> {
    if s.len() > 0 && s[0] == '+' {
        s.drop_first()
    } else {
        s
    }
}

/// Every character is a decimal digit.
pub open spec fn all_digits(d: Seq<char>) -> bool {
    forall|i: int| 0 <= i < d.len() ==> is_digit(#[trigger] d[i])
}

proof fn lemma_digits_value_grows(d: Seq<char>, k: int)
    requires
        0 <= k <= d.len(),
        all_digits(d),
    ensures
        digits_value(d.take(k)) <= digits_value(d),
    decreases d.len() - k,
{
    if k < d.len() {
        lemma_digits_value_grows(d, k + 1);
        assert(d.take(k + 1).drop_last() =~= d.take(k));
    } else {
        assert(d.take(k) =~= d);
    }
}

/// Parse an unsigned decimal number as `str::parse::<u64>` does.
pub fn parse_u64(s: &str) -> (r: Option<u64>)
    ensures
        r == parsed_u64(s@),
{
    let cs = chars_of(s);
    let mut start: usize = 0;
    if cs.len() > 0 && cs[0] == '+' {
        start = 1;
    }
    let ghost d = unsigned_digits(s@);
    assert(d =~= cs@.subrange(start as int, cs@.len() as int));
    if start >= cs.len() {
        assert(d.len() == 0);
        return None;
    }
    let mut value: u64 = 0;
    let mut i: usize = start;
    while i < cs.len()
        invariant
            cs@ == s@,
            d == unsigned_digits(s@),
            start <= i <= cs.len(),
            d =~= cs@.subrange(start as int, cs@.len() as int),
            forall|j: int| 0 <= j < i - start ==> is_digit(#[trigger] d[j]),
            value == digits_value(d.take(i - start)),
        decreases cs.len() - i,
    {
        let c = cs[i];
        if !('0' <= c && c <= '9') {
            assert(!is_digit(d[i - start]));
            assert(!all_digits(d));
            return None;
        }
        let digit: u64 = ((c as u32) - ('0' as u32)) as u64;
        assert(d.take(i - start + 1).drop_last() =~= d.take(i - start));
        assert(d.take(i - start + 1).last() == c);
        match value.checked_mul(10) {
            Some(v10) => match v10.checked_add(digit) {
                Some(v) => {
                    value = v;
                },
                None => {
                    proof {
                        if all_digits(d) {
                            lemma_digits_value_grows(d, i - start + 1);
                        }
                    }
                    return None;
                },
            },
            None => {
                proof {
                    if all_digits(d) {
                        lemma_digits_value_grows(d, i - start + 1);
                    }
                }
                return None;
            },
        }
        i = i + 1;
    }
    assert(d.take(d.len() as int) =~= d);
    Some(value)
}

/// Statuses worth retrying: 429 Too Many Requests, 408 Request Timeout and 5xx.
pub open spec fn retryable_status(status: u16) -> bool {
    status == 429 || status == 408 || (500 <= status && status <= 599)
}

/// Transport failures worth retrying: timeouts, connection failures and request failures.
pub open spec fn retryable_failure(timeout: bool, connect: bool, request: bool) -> bool {
    timeout || connect || request
}

/// The larger of two numbers.
pub open spec fn max_nat(a: nat, b: nat) -> nat {
    if a >= b { a } else { b }
}

/// The smaller of two numbers.
pub open spec fn min_nat(a: nat, b: nat) -> nat {
    if a <= b { a } else { b }
}

/// The upper end of the jittered backoff before retry number `attempt + 1`: the initial
/// delay (at least 1 ms) doubled once per earlier attempt, at most 16 times, saturating at
/// `u64::MAX`, and capped by the larger of the maximum delay and the initial delay.
pub open spec fn backoff_ceiling_of(initial_ms: u64, max_ms: u64, attempt: u32) -> nat {
    let base = max_nat(initial_ms as nat, 1);
    let exp = pow2(min_nat(attempt as nat, 16));
    let ms = min_nat(base * exp, u64::MAX as nat);
    min_nat(ms, max_nat(max_ms as nat, base))
}

/// The longest wait, in seconds, that a `Retry-After` header can ask for.
pub open spec fn retry_after_cap_of(max_ms: u64) -> nat {
    max_nat(max_nat(max_ms as nat, 1000) / 1000, 1)
}

/// Whole seconds from `now` until the instant `when`, if it is not in the past.
pub open spec fn seconds_until(when: u64, now: UnixTime) -> Option<nat> {
    let w = when as int * 1_000_000_000;
    let n = now.secs as int * 1_000_000_000 + now.nanos as int;
    if w >= n {
        Some(((w - n) / 1_000_000_000) as nat)
    } else {
        None
    }
}

/// The wait, in seconds, that a `Retry-After` value asks for: delta-seconds or an HTTP
/// date, capped by `retry_after_cap_of`.
pub open spec fn retry_after_secs_of(max_ms: u64, header: Option<Seq<char>>, now: UnixTime) -> Option<nat> {
    let cap = retry_after_cap_of(max_ms);
    match header {
        Some(h) => match parsed_u64(h) {
            Some(secs) => Some(min_nat(secs as nat, cap)),
            None => match spec_http_date_secs(h) {
                Some(when) => match seconds_until(when, now) {
                    Some(d) => Some(min_nat(d, cap)),
                    None => None,
                },
                None => None,
            },
        },
        None => None,
    }
}

/// The outcome of sending one request.
#[derive(Debug, Clone)]
pub enum SendOutcome {
    /// The server answered with this status and, possibly, a `Retry-After` value.
    Answered { status: u16, retry_after: Option<String> },
    /// The transport failed; the flags tell what kind of failure it was.
    Failed { timeout: bool, connect: bool, request: bool, message: String },
}

/// What to do after an attempt.
#[derive(Debug)]
pub enum RetryStep {
    /// Wait this many milliseconds, then send again.
    Retry { delay_ms: u64 },
    /// Hand the answer to the caller.
    Deliver,
    /// Give up with this error.
    Fail(VultrError),
}

/// The view of an optional string.
pub open spec fn opt_string_view(o: Option<String>) -> Option<Seq<char>> {
    match o {
        Some(s) => Some(s@),
        None => None,
    }
}

impl VultrClient {
    /// The upper end of the jittered backoff after attempt `attempt`.
    pub open spec fn backoff_ceiling_spec(&self, attempt: u32) -> nat {
        backoff_ceiling_of(self.initial_backoff(), self.max_backoff(), attempt)
    }

    /// The outcome of attempt `attempt` is retried.
    pub open spec fn retries_on(&self, attempt: u32, outcome: SendOutcome) -> bool {
        attempt < self.retries() && match outcome {
            SendOutcome::Answered { status, .. } => retryable_status(status),
            SendOutcome::Failed { timeout, connect, request, .. } => retryable_failure(timeout, connect, request),
        }
    }

    /// The delay before the next attempt when the answer has this status and `Retry-After`
    /// value, given the backoff that was drawn.
    pub open spec fn retry_delay_of(&self, status: u16, retry_after: Option<Seq<char>>, now: UnixTime, backoff_ms: u64) -> nat {
        if status == 429 {
            match retry_after_secs_of(self.max_backoff(), retry_after, now) {
                Some(secs) => secs * 1000,
                None => backoff_ms as nat,
            }
        } else {
            backoff_ms as nat
        }
    }

    /// Whether a status is worth retrying.
    pub fn should_retry_status(&self, status: u16) -> (r: bool)
        ensures
            r == retryable_status(status),
    {
        status == 429 || status == 408 || (500 <= status && status <= 599)
    }

    /// Whether a transport failure is worth retrying.
    pub fn should_retry_error(&self, timeout: bool, connect: bool, request: bool) -> (r: bool)
        ensures
            r == retryable_failure(timeout, connect, request),
    {
        timeout || connect || request
    }

    /// The upper end of the jittered backoff after attempt `attempt`.
    pub fn backoff_ceiling(&self, attempt: u32) -> (r: u64)
        ensures
            r == self.backoff_ceiling_spec(attempt),
    {
        let initial = self.backoff_initial_ms();
        let max = self.backoff_max_ms();
        let base: u64 = if initial >= 1 { initial } else { 1 };
        let e: u32 = if attempt <= 16 { attempt } else { 16 };
        let mut exp: u64 = 1;
        let mut k: u32 = 0;
        proof {
            vstd::arithmetic::power2::lemma2_to64();
        }
        while k < e
            invariant
                k <= e <= 16,
                exp == pow2(k as nat),
            decreases e - k,
        {
            proof {
                vstd::arithmetic::power2::lemma_pow2_adds(k as nat, 1);
                vstd::arithmetic::power2::lemma2_to64();
                vstd::arithmetic::power2::lemma_pow2_strictly_increases(k as nat, 16);
            }
            exp = exp * 2;
            k = k + 1;
        }
        let ms: u64 = match base.checked_mul(exp) {
            Some(m) => m,
            None => u64::MAX,
        };
        let cap: u64 = if max >= base { max } else { base };
        if ms <= cap { ms } else { cap }
    }

    /// A jittered backoff: a random delay between zero and the ceiling, in milliseconds.
    pub fn compute_backoff(&self, attempt: u32) -> (r: u64)
        ensures
            r <= self.backoff_ceiling_spec(attempt),
    {
        let ceiling = self.backoff_ceiling(attempt);
        random_up_to(ceiling)
    }

    /// The wait, in seconds, asked for by a `Retry-After` value, at the instant `now`.
    pub fn retry_after_delay(&self, retry_after: Option<&str>, now: UnixTime) -> (r: Option<u64>)
        requires
            now.nanos < 1_000_000_000,
        ensures
            r matches Some(secs) ==> retry_after_secs_of(self.max_backoff(), opt_view(retry_after), now) == Some(secs as nat),
            r is None ==> retry_after_secs_of(self.max_backoff(), opt_view(retry_after), now) is None,
    {
        let h = match retry_after {
            Some(h) => h,
            None => return None,
        };
        let max = self.backoff_max_ms();
        let m: u64 = if max >= 1000 { max } else { 1000 };
        let c: u64 = m / 1000;
        let cap: u64 = if c >= 1 { c } else { 1 };
        match parse_u64(h) {
            Some(secs) => Some(if secs <= cap { secs } else { cap }),
            None => match http_date_secs(h) {
                Some(when) => {
                    let w: u128 = (when as u128) * 1_000_000_000;
                    let n: u128 = (now.secs as u128) * 1_000_000_000 + (now.nanos as u128);
                    if w >= n {
                        let d: u128 = (w - n) / 1_000_000_000;
                        assert(d <= when);
                        let d64: u64 = d as u64;
                        Some(if d64 <= cap { d64 } else { cap })
                    } else {
                        None
                    }
                },
                None => None,
            },
        }
    }

    /// The delay, in milliseconds, before retrying an answer with this status and
    /// `Retry-After` value, given the backoff that was drawn for this attempt.
    pub fn retry_delay(&self, status: u16, retry_after: Option<&str>, now: UnixTime, backoff_ms: u64) -> (r: u64)
        requires
            now.nanos < 1_000_000_000,
        ensures
            r == self.retry_delay_of(status, opt_view(retry_after), now, backoff_ms),
    {
        if status == 429 {
            match self.retry_after_delay(retry_after, now) {
                Some(secs) => {
                    assert(secs <= u64::MAX / 1000) by {
                        assert(retry_after_cap_of(self.max_backoff()) <= u64::MAX / 1000);
                    }
                    secs * 1000
                },
                None => backoff_ms,
            }
        } else {
            backoff_ms
        }
    }

    /// The decision after attempt `attempt` (counting from zero), given the instant and
    /// the backoff drawn for it.
    pub fn decide_retry(&self, attempt: u32, outcome: &SendOutcome, now: UnixTime, backoff_ms: u64) -> (r: RetryStep)
        requires
            now.nanos < 1_000_000_000,
        ensures
            r is Retry <==> self.retries_on(attempt, *outcome),
            r matches RetryStep::Retry { delay_ms } ==> match *outcome {
                SendOutcome::Answered { status, retry_after } => delay_ms == self.retry_delay_of(
                    status,
                    opt_string_view(retry_after),
                    now,
                    backoff_ms,
                ),
                SendOutcome::Failed { .. } => delay_ms == backoff_ms,
            },
            r is Deliver <==> (outcome is Answered && !self.retries_on(attempt, *outcome)),
            r matches RetryStep::Fail(e) ==> (outcome matches SendOutcome::Failed { message, .. } && e matches VultrError::NetworkError(m) && m == message),
    {
        match outcome {
            SendOutcome::Answered { status, retry_after } => {
                if self.should_retry_status(*status) && attempt < self.max_retries() {
                    let h: Option<&str> = match retry_after {
                        Some(s) => Some(s.as_str()),
                        None => None,
                    };
                    RetryStep::Retry { delay_ms: self.retry_delay(*status, h, now, backoff_ms) }
                } else {
                    RetryStep::Deliver
                }
            },
            SendOutcome::Failed { timeout, connect, request, message } => {
                if self.should_retry_error(*timeout, *connect, *request) && attempt < self.max_retries() {
                    RetryStep::Retry { delay_ms: backoff_ms }
                } else {
                    RetryStep::Fail(VultrError::NetworkError(message.clone()))
                }
            },
        }
    }

    /// The decision after attempt `attempt`, reading the clock and drawing a jittered
    /// backoff. Whatever those give, the kind of decision is fixed by the outcome and the
    /// attempt; a retried answer waits what `retry_delay_of` gives for its status and
    /// `Retry-After` value at some valid instant and some backoff within the ceiling (so a
    /// 429 with a usable `Retry-After` waits what it asks for, capped); a retried transport
    /// failure waits a backoff within the ceiling.
    pub fn retry_step(&self, attempt: u32, outcome: &SendOutcome) -> (r: RetryStep)
        ensures
            r is Retry <==> self.retries_on(attempt, *outcome),
            r is Deliver <==> (outcome is Answered && !self.retries_on(attempt, *outcome)),
            r matches RetryStep::Retry { delay_ms } ==> delay_ms <= max_nat(
                self.backoff_ceiling_spec(attempt),
                retry_after_cap_of(self.max_backoff()) * 1000,
            ),
            r matches RetryStep::Retry { delay_ms } ==> match *outcome {
                SendOutcome::Answered { status, retry_after } => exists|now: UnixTime, b: u64|
                    now.nanos < 1_000_000_000 && b <= self.backoff_ceiling_spec(attempt) && delay_ms
                        == #[trigger] self.retry_delay_of(status, opt_string_view(retry_after), now, b),
                SendOutcome::Failed { .. } => delay_ms <= self.backoff_ceiling_spec(attempt),
            },
            r matches RetryStep::Fail(e) ==> (outcome matches SendOutcome::Failed { message, .. } && e matches VultrError::NetworkError(m) && m == message),
    {
        let now = unix_now();
        let backoff = self.compute_backoff(attempt);
        self.decide_retry(attempt, outcome, now, backoff)
    }
}

/// A retry is only ever decided while attempts remain, so a run of sends whose every
/// earlier outcome was retried has made at most `max_retries + 1` sends.
pub proof fn sends_are_bounded(client: VultrClient, outcomes: Seq<SendOutcome>, k: nat)
    requires
        k <= outcomes.len(),
        forall|j: int| 0 <= j < k ==> #[trigger] client.retries_on(j as u32, outcomes[j]),
        k <= u32::MAX,
    ensures
        k <= client.retries(),
{
    if k > 0 {
        assert(client.retries_on((k - 1) as u32, outcomes[k - 1]));
    }
}

/// The backoff ceiling never decreases from one attempt to the next.
pub proof fn backoff_ceiling_is_monotonic(initial_ms: u64, max_ms: u64, attempt: u32)
    requires
        attempt < u32::MAX,
    ensures
        backoff_ceiling_of(initial_ms, max_ms, attempt) <= backoff_ceiling_of(initial_ms, max_ms, (attempt + 1) as u32),
{
    let a = min_nat(attempt as nat, 16);
    let b = min_nat((attempt + 1) as nat, 16);
    if a < b {
        vstd::arithmetic::power2::lemma_pow2_strictly_increases(a, b);
    }
    let base = max_nat(initial_ms as nat, 1);
    assert(base * pow2(a) <= base * pow2(b)) by (nonlinear_arith)
        requires
            pow2(a) <= pow2(b),
    {
    }
}

/// The backoff is bounded: it never exceeds the larger of the maximum delay and the initial
/// delay, however many attempts were made.
pub proof fn backoff_ceiling_is_capped(initial_ms: u64, max_ms: u64, attempt: u32)
    ensures
        backoff_ceiling_of(initial_ms, max_ms, attempt) <= max_nat(max_ms as nat, max_nat(initial_ms as nat, 1)),
        backoff_ceiling_of(initial_ms, max_ms, attempt) <= u64::MAX,
{
}

/// The delay asked for by `Retry-After` never exceeds its cap.
pub proof fn retry_after_is_capped(max_ms: u64, header: Option<Seq<char>>, now: UnixTime)
    ensures
        retry_after_secs_of(max_ms, header, now) matches Some(s) ==> 1 <= retry_after_cap_of(max_ms)
            && s <= retry_after_cap_of(max_ms),
{
}

/// Which outcomes are retried while attempts remain: answers with status 429 (Too Many
/// Requests), 408 (Request Timeout) or any 5xx server error, and transport failures that are
/// timeouts, connection failures or request failures; nothing is retried once the attempts are
/// used up.
pub proof fn retried_outcomes(client: VultrClient, attempt: u32, outcome: SendOutcome)
    ensures
        outcome matches SendOutcome::Answered { status, .. } ==> (client.retries_on(attempt, outcome) <==> (
        attempt < client.retries() && (status == 429 || status == 408 || (500 <= status && status <= 599)))),
        outcome matches SendOutcome::Failed { timeout, connect, request, .. } ==> (client.retries_on(attempt, outcome) <==> (
        attempt < client.retries() && (timeout || connect || request))),
{
}

/// Every server error is retryable, as are 429 and 408; success, redirection and the other
/// client errors are not.
pub proof fn retryable_statuses(status: u16)
    ensures
        500 <= status <= 599 ==> retryable_status(status),
        status == 429 || status == 408 ==> retryable_status(status),
        status < 500 && status != 429 && status != 408 ==> !retryable_status(status),
{
}

/// Only a 429 answer waits for `Retry-After`; any other retried answer waits the drawn
/// backoff.
pub proof fn only_rate_limits_wait_for_retry_after(client: VultrClient, status: u16, retry_after: Option<Seq<char>>, now: UnixTime, backoff_ms: u64)
    ensures
        status != 429 ==> client.retry_delay_of(status, retry_after, now, backoff_ms) == backoff_ms,
        retry_after is None ==> client.retry_delay_of(status, retry_after, now, backoff_ms) == backoff_ms,
{
}

} // verus!
