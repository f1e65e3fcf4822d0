//! Retry policy: exponential backoff with jitter, and the decision taken after
//! each attempt of an operation.
//!
//! All times are whole milliseconds and all factors are thousandths. The
//! backoff delay is the initial delay times a power of the multiplier; that
//! product is carried exactly, digit by digit, and rounded down to a whole
//! millisecond only once, at the end. The caller performs the attempts and the
//! waiting; this module decides what comes next.

use crate::error::{AllscreenshotsError, ErrorView};
use rand::Rng;
use vstd::arithmetic::power::pow;
use vstd::prelude::*;

verus! {

/// Configuration for retry behavior.
#[derive(Debug, Clone, Copy, PartialEq, Eq)]
pub struct RetryConfig {
    /// Maximum number of retry attempts
    pub max_retries: u32,
    /// Initial delay between retries, in milliseconds
    pub initial_delay_ms: u32,
    /// Maximum delay between retries, in milliseconds
    pub max_delay_ms: u32,
    /// Multiplier for exponential backoff, in thousandths (2000 doubles the delay)
    pub multiplier_permille: u32,
    /// Jitter as a fraction of the delay, in thousandths (100 is a tenth)
    pub jitter_permille: u32,
}

impl Default for RetryConfig {
    fn default() -> (config: Self)
        ensures
            config == (RetryConfig {
                max_retries: 3,
                initial_delay_ms: 500,
                max_delay_ms: 30000,
                multiplier_permille: 2000,
                jitter_permille: 100,
            }),
    {
        RetryConfig {
            max_retries: 3,
            initial_delay_ms: 500,
            max_delay_ms: 30000,
            multiplier_permille: 2000,
            jitter_permille: 100,
        }
    }
}

impl RetryConfig {
    /// The backoff delay before attempt `attempt >= 1` as the multiplier alone
    /// gives it: the initial delay times the multiplier to the power
    /// `attempt - 1`, rounded down to a whole millisecond.
    pub open spec fn uncapped_delay(&self, attempt: nat) -> nat
        recommends
            attempt >= 1,
    {
        ((self.initial_delay_ms * pow(self.multiplier_permille as int, (attempt - 1) as nat))
            / pow(1000, (attempt - 1) as nat)) as nat
    }

    /// The backoff delay before an attempt, jitter left aside.
    ///
    /// Attempt 0 is the first try and has no delay. Attempt `n >= 1` waits the
    /// initial delay times the multiplier to the power `n - 1`, but no longer
    /// than the maximum delay.
    pub open spec fn base_delay(&self, attempt: nat) -> nat {
        if attempt == 0 {
            0
        } else if self.uncapped_delay(attempt) < self.max_delay_ms {
            self.uncapped_delay(attempt)
        } else {
            self.max_delay_ms as nat
        }
    }

    /// Whether the backoff delay can only grow from one attempt to the next: the
    /// multiplier is at least one, or there is no delay to shrink because the
    /// initial delay or the maximum delay is zero.
    pub open spec fn backs_off(&self) -> bool {
        self.multiplier_permille >= 1000 || self.initial_delay_ms == 0 || self.max_delay_ms == 0
    }

    /// The largest distance, in milliseconds, by which jitter moves the delay of
    /// an attempt: the jitter fraction of its backoff delay, rounded down.
    pub open spec fn jitter_range(&self, attempt: nat) -> nat {
        ((self.base_delay(attempt) * self.jitter_permille) / 1000) as nat
    }

    /// The delay of an attempt once jitter is applied. `draw` selects the
    /// perturbation: 0 moves the delay down by the whole jitter range, twice the
    /// range moves it up by the whole range. A delay that would be negative is
    /// zero.
    pub open spec fn perturbed(&self, attempt: nat, draw: nat) -> nat {
        let moved = self.base_delay(attempt) - self.jitter_range(attempt) + draw;
        if moved < 0 {
            0
        } else {
            moved as nat
        }
    }

    /// Whether `delay` is a delay that the policy may produce for an attempt:
    /// the backoff delay perturbed by no more than the jitter range.
    pub open spec fn delay_allowed(&self, attempt: nat, delay: nat) -> bool {
        exists|draw: nat|
            draw <= 2 * self.jitter_range(attempt) && delay == #[trigger] self.perturbed(
                attempt,
                draw,
            )
    }

    /// Computes the backoff delay before an attempt, in milliseconds, jitter
    /// left aside.
    ///
    /// The product of the initial delay and the power of the multiplier is
    /// carried exactly: its whole milliseconds in one number, and below them
    /// one digit in base 1000 for each multiplication done. The work stops as
    /// soon as the result is settled: at the maximum delay under a multiplier
    /// above one, at zero under a multiplier below one.
    pub fn base_delay_for_attempt(&self, attempt: u32) -> (delay: u32)
        ensures
            delay == self.base_delay(attempt as nat),
    {
        if attempt == 0 {
            return 0;
        }
        let initial = self.initial_delay_ms;
        let multiplier = self.multiplier_permille;
        let cap = self.max_delay_ms;
        let target = attempt - 1;
        if initial == 0 {
            proof {
                lemma_no_delay(*self, attempt as nat);
            }
            return 0;
        }
        if multiplier == 1000 {
            proof {
                lemma_whole_multiplier(*self, 1, attempt as nat);
                vstd::arithmetic::power::lemma1_pow(target as nat);
            }
            return if initial < cap {
                initial
            } else {
                cap
            };
        }
        let mut whole: u64 = initial as u64;
        let mut fraction: Vec<u32> = Vec::new();
        let mut steps: u32 = 0;
        proof {
            vstd::arithmetic::power::lemma_pow0(1000);
            vstd::arithmetic::power::lemma_pow0(multiplier as int);
        }
        while steps < target
            invariant
                steps <= target,
                target == attempt - 1,
                initial == self.initial_delay_ms,
                multiplier == self.multiplier_permille,
                cap == self.max_delay_ms,
                multiplier != 1000,
                digits_valid(fraction@),
                fraction@.len() == steps,
                whole * pow(1000, steps as nat) + digits_value(fraction@) == initial * pow(
                    multiplier as int,
                    steps as nat,
                ),
                multiplier < 1000 ==> whole <= initial,
            decreases target - steps,
        {
            proof {
                lemma_whole_part(
                    whole as int,
                    fraction@,
                    initial * pow(multiplier as int, steps as nat),
                );
                assert(whole == self.uncapped_delay((steps + 1) as nat));
            }
            if multiplier > 1000 {
                if whole >= cap as u64 {
                    proof {
                        lemma_uncapped_monotonic(*self, (steps + 1) as nat, attempt as nat);
                    }
                    return cap;
                }
            } else if whole == 0 {
                proof {
                    lemma_uncapped_antitonic(*self, (steps + 1) as nat, attempt as nat);
                }
                return 0;
            }
            let ghost before = whole * pow(1000, steps as nat) + digits_value(fraction@);
            let scaled = scale(whole, fraction, multiplier);
            whole = scaled.0;
            fraction = scaled.1;
            proof {
                let m = multiplier as int;
                let p = pow(m, steps as nat);
                assert(pow(m, (steps + 1) as nat) == m * p) by {
                    reveal(pow);
                }
                assert(before * m == initial * (m * p)) by (nonlinear_arith)
                    requires
                        before == initial * p,
                ;
            }
            steps = steps + 1;
        }
        proof {
            lemma_whole_part(
                whole as int,
                fraction@,
                initial * pow(multiplier as int, steps as nat),
            );
            assert(whole == self.uncapped_delay(attempt as nat));
        }
        if whole < cap as u64 {
            whole as u32
        } else {
            cap
        }
    }

    /// Computes the delay before an attempt for a given draw of the jitter.
    ///
    /// The draw is a number from 0 to twice the jitter range of the attempt;
    /// see [`RetryConfig::perturbed`].
    pub fn delay_with_draw(&self, attempt: u32, draw: u64) -> (delay: u64)
        requires
            draw <= 2 * self.jitter_range(attempt as nat),
        ensures
            delay == self.perturbed(attempt as nat, draw as nat),
            self.delay_allowed(attempt as nat, delay as nat),
    {
        let base = self.base_delay_for_attempt(attempt);
        let range = self.range_of(base);
        assert(self.delay_allowed(
            attempt as nat,
            self.perturbed(attempt as nat, draw as nat),
        ));
        if range <= base as u64 {
            base as u64 - range + draw
        } else if base as u64 + draw >= range {
            base as u64 + draw - range
        } else {
            0
        }
    }

    /// Computes the jitter range of a backoff delay.
    fn range_of(&self, base: u32) -> (range: u64)
        ensures
            range == (base * self.jitter_permille) / 1000,
            range <= 0xFFFF_FFFF * 0xFFFF_FFFF / 1000,
    {
        assert(base * self.jitter_permille <= 0xFFFF_FFFF * 0xFFFF_FFFF) by (nonlinear_arith)
            requires
                base <= 0xFFFF_FFFF,
                self.jitter_permille <= 0xFFFF_FFFF,
        ;
        (base as u64) * (self.jitter_permille as u64) / 1000
    }

    /// Calculate the delay for a given attempt number, in milliseconds.
    ///
    /// The delay is the backoff delay of the attempt, moved up or down by a
    /// random amount within the jitter range. Without jitter nothing is drawn
    /// and the delay is the backoff delay itself.
    pub fn delay_for_attempt(&self, attempt: u32) -> (delay: u64)
        ensures
            self.delay_allowed(attempt as nat, delay as nat),
            attempt == 0 ==> delay == 0,
            self.jitter_permille == 0 ==> delay == self.base_delay(attempt as nat),
            delay <= self.base_delay(attempt as nat) + self.jitter_range(attempt as nat),
            delay + self.jitter_range(attempt as nat) >= self.base_delay(attempt as nat),
    {
        let base = self.base_delay_for_attempt(attempt);
        let range = self.range_of(base);
        let draw = if range == 0 {
            0
        } else {
            draw_up_to(2 * range)
        };
        proof {
            if attempt == 0 {
                assert(base * self.jitter_permille == 0) by (nonlinear_arith)
                    requires
                        base == 0,
                ;
            }
            if self.jitter_permille == 0 {
                assert(base * 0 == 0) by (nonlinear_arith);
            }
        }
        self.delay_with_draw(attempt, draw)
    }
}

/// The number that digits in base 1000 write, the least significant first.
spec fn digits_value(digits: Seq<u32>) -> int
    decreases digits.len(),
{
    if digits.len() == 0 {
        0
    } else {
        digits_value(digits.drop_last()) + digits.last() * pow(1000, (digits.len() - 1) as nat)
    }
}

/// Whether each of the digits is a digit in base 1000.
spec fn digits_valid(digits: Seq<u32>) -> bool {
    forall|i: int| 0 <= i < digits.len() ==> digits[i] < 1000
}

/// Digits in base 1000 write a number below 1000 to the power of their count.
proof fn lemma_digits_bound(digits: Seq<u32>)
    requires
        digits_valid(digits),
    ensures
        0 <= digits_value(digits) < pow(1000, digits.len()),
    decreases digits.len(),
{
    if digits.len() == 0 {
        vstd::arithmetic::power::lemma_pow0(1000);
    } else {
        let front = digits.drop_last();
        lemma_digits_bound(front);
        let p = pow(1000, front.len());
        let last = digits.last() as int;
        let value = digits_value(front);
        assert(pow(1000, digits.len()) == 1000 * p) by {
            reveal(pow);
        }
        assert(0 <= value + last * p < 1000 * p) by (nonlinear_arith)
            requires
                0 <= value < p,
                0 <= last < 1000,
        ;
    }
}

/// Where a product is written as whole units and digits below them, the whole
/// units are the product divided by 1000 to the power of the count of digits.
proof fn lemma_whole_part(whole: int, digits: Seq<u32>, product: int)
    requires
        digits_valid(digits),
        whole * pow(1000, digits.len()) + digits_value(digits) == product,
    ensures
        whole == product / pow(1000, digits.len()),
{
    lemma_digits_bound(digits);
    vstd::arithmetic::div_mod::lemma_fundamental_div_mod_converse_div(
        product,
        pow(1000, digits.len()),
        whole,
        digits_value(digits),
    );
}

/// Multiplies a number by `multiplier` thousandths, exactly. The number is
/// written as whole units and digits in base 1000 below them; the result has
/// one digit more.
fn scale(whole: u64, fraction: Vec<u32>, multiplier: u32) -> (scaled: (u64, Vec<u32>))
    requires
        whole <= u32::MAX,
        digits_valid(fraction@),
    ensures
        digits_valid(scaled.1@),
        scaled.1@.len() == fraction@.len() + 1,
        scaled.0 * pow(1000, (fraction@.len() + 1) as nat) + digits_value(scaled.1@) == (whole
            * pow(1000, fraction@.len()) + digits_value(fraction@)) * multiplier,
        multiplier < 1000 ==> scaled.0 <= whole,
{
    let m = multiplier as u64;
    let n = fraction.len();
    let mut digits: Vec<u32> = Vec::new();
    let mut carry: u64 = 0;
    let mut i: usize = 0;
    proof {
        assert(fraction@.take(0) =~= Seq::<u32>::empty());
    }
    while i < n
        invariant
            i <= n,
            n == fraction@.len(),
            m == multiplier,
            digits_valid(fraction@),
            digits_valid(digits@),
            digits@.len() == i,
            carry <= m,
            digits_value(digits@) + carry * pow(1000, i as nat) == digits_value(
                fraction@.take(i as int),
            ) * m,
        decreases n - i,
    {
        let d = fraction[i] as u64;
        assert(d * m <= 999 * m) by (nonlinear_arith)
            requires
                d <= 999,
                m >= 0,
        ;
        let v = d * m + carry;
        let digit = (v % 1000) as u32;
        let next = v / 1000;
        proof {
            let p = pow(1000, i as nat);
            let written = digits_value(digits@);
            let read = digits_value(fraction@.take(i as int));
            assert(pow(1000, (i + 1) as nat) == 1000 * p) by {
                reveal(pow);
            }
            assert(digits@.push(digit).drop_last() =~= digits@);
            assert(fraction@.take(i + 1).drop_last() =~= fraction@.take(i as int));
            assert(fraction@.take(i + 1).last() == fraction@[i as int]);
            assert(written + digit * p + next * (1000 * p) == (read + d * p) * m)
                by (nonlinear_arith)
                requires
                    written + carry * p == read * m,
                    v == d * m + carry,
                    v == 1000 * next + digit,
            ;
        }
        digits.push(digit);
        carry = next;
        i += 1;
    }
    assert(fraction@.take(n as int) =~= fraction@);
    assert(whole * m <= 0xFFFF_FFFF * 0xFFFF_FFFF) by (nonlinear_arith)
        requires
            whole <= 0xFFFF_FFFF,
            m <= 0xFFFF_FFFF,
    ;
    let top = whole * m + carry;
    let digit = (top % 1000) as u32;
    proof {
        let p = pow(1000, n as nat);
        let written = digits_value(digits@);
        let read = digits_value(fraction@);
        assert(pow(1000, (n + 1) as nat) == 1000 * p) by {
            reveal(pow);
        }
        assert(digits@.push(digit).drop_last() =~= digits@);
        assert((top / 1000) * (1000 * p) + (written + digit * p) == (whole * p + read) * m)
            by (nonlinear_arith)
            requires
                written + carry * p == read * m,
                top == whole * m + carry,
                top == 1000 * (top / 1000) + digit,
        ;
        if multiplier < 1000 {
            assert(whole * m <= whole * 999) by (nonlinear_arith)
                requires
                    m <= 999,
                    whole >= 0,
            ;
        }
    }
    digits.push(digit);
    (top / 1000, digits)
}

/// Draws a whole number between 0 and `bound`, both included, from the
/// generator of the calling thread (`gen_range` of `rand::Rng` on
/// `rand::thread_rng()`, over the inclusive range `0..=bound`, which is never
/// empty). The contract claims only that the number does not exceed the bound;
/// which number comes is left open. (The generator gives up where the
/// operating system has no seed for it; no argument causes or prevents that.)
#[verifier::external_body]
fn draw_up_to(bound: u64) -> (draw: u64)
    ensures
        draw <= bound,
{
    rand::thread_rng().gen_range(0..=bound)
}

/// What the retry loop does after an attempt.
#[derive(Debug)]
pub enum RetryStep<T> {
    /// The operation is over; this is its result.
    Finished(Result<T, AllscreenshotsError>),
    /// The operation is attempted again: the caller waits `delay_ms`
    /// milliseconds and then performs the attempt with number `attempt`.
    Retry { attempt: u32, delay_ms: u64 },
}

impl RetryConfig {
    /// The rule of the retry loop: whether `step` is what follows the attempt
    /// with number `attempt` (the first is 0) when it ended with `outcome`.
    ///
    /// - A success ends the operation with its value.
    /// - An error that is not retryable ends the operation with that error.
    /// - A retryable error with attempts left leads to the next attempt, after a
    ///   delay that the policy allows for it.
    /// - A retryable error on the last attempt ends the operation with
    ///   `RetriesExhausted`, which holds the description of that error.
    pub open spec fn decides<T>(
        &self,
        attempt: nat,
        outcome: Result<T, AllscreenshotsError>,
        step: RetryStep<T>,
    ) -> bool {
        match outcome {
            Ok(value) => step == RetryStep::Finished(Ok::<T, AllscreenshotsError>(value)),
            Err(error) => if !error@.retryable() {
                step == RetryStep::Finished(Err::<T, AllscreenshotsError>(error))
            } else if attempt < self.max_retries {
                step matches RetryStep::Retry { attempt: next, delay_ms } && next == attempt + 1
                    && self.delay_allowed(next as nat, delay_ms as nat)
            } else {
                step matches RetryStep::Finished(Err(exhausted)) && exhausted@
                    == ErrorView::RetriesExhausted(error@.description())
            },
        }
    }

    /// Whether `steps` are the decisions of one operation whose attempts ended
    /// with `outcomes`, in order: every step follows from its attempt by the
    /// rule of the loop, and every step but the last asked for another attempt.
    pub open spec fn is_run<T>(
        &self,
        outcomes: Seq<Result<T, AllscreenshotsError>>,
        steps: Seq<RetryStep<T>>,
    ) -> bool {
        &&& outcomes.len() == steps.len()
        &&& forall|i: int|
            0 <= i < steps.len() ==> self.decides(i as nat, #[trigger] outcomes[i], steps[i])
        &&& forall|i: int| 0 <= i < steps.len() - 1 ==> #[trigger] steps[i] is Retry
    }
}

/// Decides what follows one attempt of an operation under a retry policy.
///
/// `attempt` is the number of the attempt that has just ended (the first is 0)
/// and `outcome` is how it ended. The caller runs the loop: it performs attempt
/// 0, hands each outcome to this function, and on `Retry` waits for the delay
/// and performs the next attempt.
pub fn with_retry<T>(
    config: &RetryConfig,
    attempt: u32,
    outcome: Result<T, AllscreenshotsError>,
) -> (step: RetryStep<T>)
    ensures
        config.decides(attempt as nat, outcome, step),
{
    match outcome {
        Ok(value) => RetryStep::Finished(Ok(value)),
        Err(error) => {
            if !error.is_retryable() {
                RetryStep::Finished(Err(error))
            } else if attempt < config.max_retries {
                let delay_ms = config.delay_for_attempt(attempt + 1);
                RetryStep::Retry { attempt: attempt + 1, delay_ms }
            } else {
                RetryStep::Finished(Err(AllscreenshotsError::RetriesExhausted(error.to_string())))
            }
        },
    }
}

/// Under a multiplier of at least one, the product of initial delay and power
/// of the multiplier does not shrink from one attempt to the next.
pub proof fn lemma_uncapped_grows(config: RetryConfig, attempt: nat)
    requires
        attempt >= 1,
        config.multiplier_permille >= 1000,
    ensures
        config.uncapped_delay(attempt) <= config.uncapped_delay(attempt + 1),
{
    lemma_uncapped_step(config, attempt);
    let m = config.multiplier_permille as int;
    let k = (attempt - 1) as nat;
    let a = config.initial_delay_ms * pow(m, k);
    let d = pow(1000, k);
    assert(1000 * a <= a * m) by (nonlinear_arith)
        requires
            a >= 0,
            m >= 1000,
    ;
    vstd::arithmetic::div_mod::lemma_div_is_ordered(1000 * a, a * m, 1000 * d);
}

/// Under a multiplier of at most one, the product of initial delay and power
/// of the multiplier does not grow from one attempt to the next.
pub proof fn lemma_uncapped_shrinks(config: RetryConfig, attempt: nat)
    requires
        attempt >= 1,
        config.multiplier_permille <= 1000,
    ensures
        config.uncapped_delay(attempt + 1) <= config.uncapped_delay(attempt),
{
    lemma_uncapped_step(config, attempt);
    let m = config.multiplier_permille as int;
    let k = (attempt - 1) as nat;
    let a = config.initial_delay_ms * pow(m, k);
    let d = pow(1000, k);
    assert(a * m <= 1000 * a) by (nonlinear_arith)
        requires
            a >= 0,
            0 <= m <= 1000,
    ;
    vstd::arithmetic::div_mod::lemma_div_is_ordered(a * m, 1000 * a, 1000 * d);
}

/// The products of two successive attempts as quotients of one denominator:
/// with `a` the product of attempt `n` before its division by `d`, attempt `n`
/// has `1000 a / 1000 d` and attempt `n + 1` has `a m / 1000 d`.
proof fn lemma_uncapped_step(config: RetryConfig, attempt: nat)
    requires
        attempt >= 1,
    ensures
        ({
            let m = config.multiplier_permille as int;
            let k = (attempt - 1) as nat;
            let a = config.initial_delay_ms * pow(m, k);
            let d = pow(1000, k);
            &&& a >= 0
            &&& d > 0
            &&& 1000 * d > 0
            &&& config.uncapped_delay(attempt) == (1000 * a) / (1000 * d)
            &&& config.uncapped_delay(attempt + 1) == (a * m) / (1000 * d)
        }),
{
    let m = config.multiplier_permille as int;
    let i = config.initial_delay_ms as int;
    let k = (attempt - 1) as nat;
    let p = pow(m, k);
    let a = i * p;
    let d = pow(1000, k);
    vstd::arithmetic::power::lemma_pow_positive(1000, k);
    lemma_pow_nonnegative(m, k);
    assert(a >= 0) by (nonlinear_arith)
        requires
            a == i * p,
            i >= 0,
            p >= 0,
    ;
    assert(pow(m, (k + 1) as nat) == m * p) by {
        reveal(pow);
    }
    assert(pow(1000, (k + 1) as nat) == 1000 * d) by {
        reveal(pow);
    }
    assert(i * (m * p) == a * m) by (nonlinear_arith)
        requires
            a == i * p,
    ;
    vstd::arithmetic::div_mod::lemma_div_multiples_vanish_quotient(1000, a, d);
    lemma_quotient_nonnegative(a, d);
    lemma_quotient_nonnegative(a * m, 1000 * d);
}

/// A power of a number that is not negative is not negative.
proof fn lemma_pow_nonnegative(base: int, exponent: nat)
    requires
        base >= 0,
    ensures
        pow(base, exponent) >= 0,
    decreases exponent,
{
    reveal(pow);
    if exponent > 0 {
        lemma_pow_nonnegative(base, (exponent - 1) as nat);
        let p = pow(base, (exponent - 1) as nat);
        assert(base * p >= 0) by (nonlinear_arith)
            requires
                base >= 0,
                p >= 0,
        ;
    }
}

/// The quotient of a number that is not negative by a positive one is not
/// negative.
proof fn lemma_quotient_nonnegative(x: int, d: int)
    requires
        d > 0,
    ensures
        x >= 0 ==> x / d >= 0,
{
    if x >= 0 {
        vstd::arithmetic::div_mod::lemma_div_pos_is_pos(x, d);
    }
}

/// Under a multiplier of at least one, a later attempt's product is no smaller
/// than an earlier one's.
pub proof fn lemma_uncapped_monotonic(config: RetryConfig, earlier: nat, later: nat)
    requires
        1 <= earlier <= later,
        config.multiplier_permille >= 1000,
    ensures
        config.uncapped_delay(earlier) <= config.uncapped_delay(later),
    decreases later - earlier,
{
    if earlier < later {
        lemma_uncapped_monotonic(config, earlier, (later - 1) as nat);
        lemma_uncapped_grows(config, (later - 1) as nat);
    }
}

/// Under a multiplier of at most one, a later attempt's product is no larger
/// than an earlier one's.
pub proof fn lemma_uncapped_antitonic(config: RetryConfig, earlier: nat, later: nat)
    requires
        1 <= earlier <= later,
        config.multiplier_permille <= 1000,
    ensures
        config.uncapped_delay(later) <= config.uncapped_delay(earlier),
    decreases later - earlier,
{
    if earlier < later {
        lemma_uncapped_antitonic(config, earlier, (later - 1) as nat);
        lemma_uncapped_shrinks(config, (later - 1) as nat);
    }
}

/// No backoff delay exceeds the maximum delay.
pub proof fn lemma_delay_capped(config: RetryConfig, attempt: nat)
    ensures
        config.base_delay(attempt) <= config.max_delay_ms,
{
}

/// Under a policy that backs off, the backoff delay never shrinks from one
/// attempt to the next.
pub proof fn lemma_delay_grows(config: RetryConfig, attempt: nat)
    requires
        config.backs_off(),
    ensures
        config.base_delay(attempt) <= config.base_delay(attempt + 1),
{
    if attempt >= 1 {
        if config.multiplier_permille >= 1000 {
            lemma_uncapped_grows(config, attempt);
        } else {
            lemma_no_delay(config, attempt);
        }
    }
}

/// Where the initial delay or the maximum delay is zero, every backoff delay
/// is zero.
pub proof fn lemma_no_delay(config: RetryConfig, attempt: nat)
    requires
        config.initial_delay_ms == 0 || config.max_delay_ms == 0,
    ensures
        config.base_delay(attempt) == 0,
{
    if attempt >= 1 && config.initial_delay_ms == 0 {
        let k = (attempt - 1) as nat;
        let p = pow(config.multiplier_permille as int, k);
        assert(0 * p == 0) by (nonlinear_arith);
        vstd::arithmetic::power::lemma_pow_positive(1000, k);
        vstd::arithmetic::div_mod::lemma_basic_div(0, pow(1000, k));
    }
}

/// Under a policy that backs off, a later attempt never waits less than an
/// earlier one.
pub proof fn lemma_delay_monotonic(config: RetryConfig, earlier: nat, later: nat)
    requires
        config.backs_off(),
        earlier <= later,
    ensures
        config.base_delay(earlier) <= config.base_delay(later),
    decreases later - earlier,
{
    if earlier < later {
        lemma_delay_monotonic(config, earlier, (later - 1) as nat);
        lemma_delay_grows(config, (later - 1) as nat);
    }
}

/// Under a policy that backs off, a backoff delay that has reached the maximum
/// delay stays there.
pub proof fn lemma_delay_saturates(config: RetryConfig, earlier: nat, later: nat)
    requires
        config.backs_off(),
        1 <= earlier <= later,
        config.base_delay(earlier) == config.max_delay_ms,
    ensures
        config.base_delay(later) == config.max_delay_ms,
{
    lemma_delay_monotonic(config, earlier, later);
    lemma_delay_capped(config, later);
}

/// Without jitter, the delays of a policy that backs off are fixed by the
/// policy alone, never shrink from one attempt to the next, and stay at the
/// maximum delay once they have reached it.
pub proof fn lemma_backoff_without_jitter(
    config: RetryConfig,
    attempt: nat,
    delay: nat,
    next_delay: nat,
)
    requires
        config.jitter_permille == 0,
        config.backs_off(),
        config.delay_allowed(attempt, delay),
        config.delay_allowed(attempt + 1, next_delay),
    ensures
        delay == config.base_delay(attempt),
        next_delay == config.base_delay(attempt + 1),
        delay <= next_delay <= config.max_delay_ms,
        attempt >= 1 && delay == config.max_delay_ms ==> next_delay == config.max_delay_ms,
{
    lemma_no_jitter_is_exact(config, attempt, delay);
    lemma_no_jitter_is_exact(config, attempt + 1, next_delay);
    lemma_delay_grows(config, attempt);
    lemma_delay_capped(config, attempt + 1);
}

/// A policy that does not back off does shrink its delay: the first retry
/// waits, and the retry with number `later` does not. The law of growing
/// delays therefore holds of no other policy than those that back off.
pub proof fn lemma_shrinks_otherwise(config: RetryConfig) -> (later: nat)
    requires
        !config.backs_off(),
    ensures
        later > 1,
        config.base_delay(1) > 0,
        config.base_delay(later) == 0,
{
    let initial = config.initial_delay_ms as int;
    let m = config.multiplier_permille as int;
    let k = (999 * initial) as nat;
    let later = k + 1;
    vstd::arithmetic::power::lemma_pow0(m);
    vstd::arithmetic::power::lemma_pow0(1000);
    assert(config.uncapped_delay(1) == initial);
    let big = pow(1000, k);
    let mid = pow(999, k);
    let low = pow(m, k);
    lemma_pow_of_smaller_base(m, 999, k);
    lemma_power_outgrows(999, k);
    vstd::arithmetic::power::lemma_pow_positive(999, k);
    lemma_pow_nonnegative(m, k);
    assert(0 <= initial * low < big) by (nonlinear_arith)
        requires
            big * 999 >= mid * (999 + k),
            k == 999 * initial,
            initial >= 1,
            mid > 0,
            0 <= low <= mid,
    ;
    vstd::arithmetic::div_mod::lemma_basic_div(initial * low, big);
    later
}

/// A power grows with its base.
proof fn lemma_pow_of_smaller_base(smaller: int, larger: int, exponent: nat)
    requires
        0 <= smaller <= larger,
    ensures
        0 <= pow(smaller, exponent) <= pow(larger, exponent),
    decreases exponent,
{
    reveal(pow);
    if exponent > 0 {
        lemma_pow_of_smaller_base(smaller, larger, (exponent - 1) as nat);
        let a = pow(smaller, (exponent - 1) as nat);
        let b = pow(larger, (exponent - 1) as nat);
        assert(0 <= smaller * a <= larger * b) by (nonlinear_arith)
            requires
                0 <= smaller <= larger,
                0 <= a <= b,
        ;
    }
}

/// The powers of a number leave those of the number before it behind:
/// `(b + 1)^k` is at least `b^k` times `1 + k / b`.
proof fn lemma_power_outgrows(base: int, exponent: nat)
    requires
        base >= 1,
    ensures
        pow(base + 1, exponent) * base >= pow(base, exponent) * (base + exponent),
    decreases exponent,
{
    reveal(pow);
    if exponent > 0 {
        let k = (exponent - 1) as nat;
        lemma_power_outgrows(base, k);
        vstd::arithmetic::power::lemma_pow_positive(base, k);
        let big = pow(base + 1, k);
        let mid = pow(base, k);
        assert(((base + 1) * big) * base >= (base * mid) * (base + k + 1)) by (nonlinear_arith)
            requires
                big * base >= mid * (base + k),
                mid > 0,
                base >= 1,
                k >= 0,
        ;
    }
}

/// Under a multiplier above one, a policy with an initial delay does reach
/// its maximum delay: the retry with number `attempt` waits the maximum delay,
/// and so does every later one.
pub proof fn lemma_delay_reaches_maximum(config: RetryConfig) -> (attempt: nat)
    requires
        config.multiplier_permille > 1000,
        config.initial_delay_ms > 0,
    ensures
        attempt >= 1,
        forall|later: nat| later >= attempt ==> config.base_delay(later) == config.max_delay_ms,
{
    let initial = config.initial_delay_ms as int;
    let m = config.multiplier_permille as int;
    let cap = config.max_delay_ms as int;
    let k = (1000 * cap) as nat;
    let attempt = k + 1;
    let d = pow(1000, k);
    let mid = pow(1001, k);
    let high = pow(m, k);
    lemma_pow_of_smaller_base(1001, m, k);
    lemma_power_outgrows(1000, k);
    vstd::arithmetic::power::lemma_pow_positive(1000, k);
    assert(initial * high >= cap * d) by (nonlinear_arith)
        requires
            mid * 1000 >= d * (1000 + k),
            k == 1000 * cap,
            cap >= 0,
            initial >= 1,
            d > 0,
            high >= mid,
    ;
    vstd::arithmetic::div_mod::lemma_div_is_ordered(cap * d, initial * high, d);
    vstd::arithmetic::div_mod::lemma_div_by_multiple(cap, d);
    assert(config.base_delay(attempt) == config.max_delay_ms);
    assert forall|later: nat| later >= attempt implies config.base_delay(later)
        == config.max_delay_ms by {
        lemma_delay_saturates(config, attempt, later);
    }
    attempt
}

/// Without jitter the policy allows exactly one delay for each attempt: the
/// backoff delay.
pub proof fn lemma_no_jitter_is_exact(config: RetryConfig, attempt: nat, delay: nat)
    requires
        config.jitter_permille == 0,
    ensures
        config.delay_allowed(attempt, delay) <==> delay == config.base_delay(attempt),
{
    let base = config.base_delay(attempt);
    assert(base * 0 == 0) by (nonlinear_arith);
    assert(config.jitter_range(attempt) == 0);
    if delay == base {
        assert(delay == config.perturbed(attempt, 0));
    }
}

/// The first try is never delayed, whatever the policy.
pub proof fn lemma_first_try_is_immediate(config: RetryConfig, delay: nat)
    ensures
        config.delay_allowed(0, delay) <==> delay == 0,
{
    assert(config.base_delay(0) == 0);
    assert(config.jitter_range(0) == 0) by {
        assert(0 * config.jitter_permille == 0) by (nonlinear_arith);
    }
    if delay == 0 {
        assert(delay == config.perturbed(0, 0));
    }
}

/// Every delay that the policy allows lies within the jitter range of the
/// backoff delay, and below it only as far as zero.
pub proof fn lemma_allowed_delay_bounds(config: RetryConfig, attempt: nat, delay: nat)
    requires
        config.delay_allowed(attempt, delay),
    ensures
        delay <= config.base_delay(attempt) + config.jitter_range(attempt),
        delay + config.jitter_range(attempt) >= config.base_delay(attempt),
{
}

/// With a multiplier that is a whole number `factor`, the backoff delay of
/// attempt `n >= 1` is the initial delay times `factor` to the power `n - 1`,
/// capped at the maximum delay.
pub proof fn lemma_whole_multiplier(config: RetryConfig, factor: nat, attempt: nat)
    requires
        config.multiplier_permille == 1000 * factor,
        attempt >= 1,
    ensures
        config.base_delay(attempt) == vstd::math::min(
            config.initial_delay_ms * pow(factor as int, (attempt - 1) as nat),
            config.max_delay_ms as int,
        ),
{
    let initial = config.initial_delay_ms as int;
    let f = factor as int;
    let k = (attempt - 1) as nat;
    let d = pow(1000, k);
    let q = pow(f, k);
    vstd::arithmetic::power::lemma_pow_distributes(1000, f, k);
    vstd::arithmetic::power::lemma_pow_positive(1000, k);
    lemma_pow_nonnegative(f, k);
    assert(initial * (d * q) == (initial * q) * d) by (nonlinear_arith);
    assert(initial * q >= 0) by (nonlinear_arith)
        requires
            initial >= 0,
            q >= 0,
    ;
    vstd::arithmetic::div_mod::lemma_div_by_multiple(initial * q, d);
}

/// An operation makes at most `max_retries + 1` attempts.
pub proof fn lemma_attempts_bounded<T>(
    config: RetryConfig,
    outcomes: Seq<Result<T, AllscreenshotsError>>,
    steps: Seq<RetryStep<T>>,
)
    requires
        config.is_run(outcomes, steps),
    ensures
        steps.len() <= config.max_retries + 1,
{
    if steps.len() > config.max_retries + 1 {
        let last_allowed = config.max_retries as int;
        assert(steps[last_allowed] is Retry);
        assert(config.decides(last_allowed as nat, outcomes[last_allowed], steps[last_allowed]));
    }
}

/// An operation whose every attempt fails with a retryable error makes exactly
/// `max_retries + 1` attempts and ends with `RetriesExhausted`, which holds
/// the description of the last attempt's error and is of another kind than the
/// error of any attempt.
pub proof fn lemma_retries_exhausted<T>(
    config: RetryConfig,
    outcomes: Seq<Result<T, AllscreenshotsError>>,
    steps: Seq<RetryStep<T>>,
)
    requires
        config.is_run(outcomes, steps),
        steps.len() > 0,
        steps.last() is Finished,
        forall|i: int|
            0 <= i < outcomes.len() ==> (#[trigger] outcomes[i] matches Err(e) && e@.retryable()),
    ensures
        steps.len() == config.max_retries + 1,
        steps.last() matches RetryStep::Finished(Err(exhausted)) && exhausted@
            == ErrorView::RetriesExhausted(outcomes.last()->Err_0@.description()),
        forall|i: int|
            0 <= i < outcomes.len() ==> !(#[trigger] outcomes[i] matches Err(e) && e@
                is RetriesExhausted),
{
    lemma_attempts_bounded(config, outcomes, steps);
    let last = steps.len() - 1;
    assert(config.decides(last as nat, outcomes[last], steps[last]));
}

/// The number of times the caller is told to wait in a sequence of steps.
pub open spec fn waits<T>(steps: Seq<RetryStep<T>>) -> nat
    decreases steps.len(),
{
    if steps.len() == 0 {
        0
    } else {
        waits(steps.drop_last()) + if steps.last() is Retry {
            1nat
        } else {
            0nat
        }
    }
}

/// A finished operation has waited exactly once before each attempt but the
/// first: with `n` attempts there are `n - 1` waits.
pub proof fn lemma_waits_between_attempts<T>(
    config: RetryConfig,
    outcomes: Seq<Result<T, AllscreenshotsError>>,
    steps: Seq<RetryStep<T>>,
)
    requires
        config.is_run(outcomes, steps),
        steps.len() > 0,
        steps.last() is Finished,
    ensures
        waits(steps) == steps.len() - 1,
{
    lemma_all_waits(steps.drop_last());
}

/// A sequence of steps that all ask for another attempt has as many waits as
/// steps.
proof fn lemma_all_waits<T>(steps: Seq<RetryStep<T>>)
    requires
        forall|i: int| 0 <= i < steps.len() ==> #[trigger] steps[i] is Retry,
    ensures
        waits(steps) == steps.len(),
    decreases steps.len(),
{
    if steps.len() > 0 {
        lemma_all_waits(steps.drop_last());
    }
}

/// An operation ends with the error of an attempt only when that error is not
/// retryable, and with a success only when an attempt succeeded: the result of
/// a finished operation is the value of its last attempt, the error of its
/// last attempt, or `RetriesExhausted`.
pub proof fn lemma_result_of_run<T>(
    config: RetryConfig,
    outcomes: Seq<Result<T, AllscreenshotsError>>,
    steps: Seq<RetryStep<T>>,
)
    requires
        config.is_run(outcomes, steps),
        steps.len() > 0,
        steps.last() is Finished,
    ensures
        match outcomes.last() {
            Ok(value) => steps.last() == RetryStep::Finished(
                Ok::<T, AllscreenshotsError>(value),
            ),
            Err(error) => if error@.retryable() {
                steps.len() == config.max_retries + 1 && (steps.last() matches RetryStep::Finished(
                    Err(exhausted),
                ) && exhausted@ == ErrorView::RetriesExhausted(error@.description()))
            } else {
                steps.last() == RetryStep::Finished(Err::<T, AllscreenshotsError>(error))
            },
        },
        forall|i: int|
            0 <= i < outcomes.len() - 1 ==> (#[trigger] outcomes[i] matches Err(e)
                && e@.retryable()),
{
    lemma_attempts_bounded(config, outcomes, steps);
    let last = steps.len() - 1;
    assert(config.decides(last as nat, outcomes[last], steps[last]));
    assert forall|i: int| 0 <= i < outcomes.len() - 1 implies (#[trigger] outcomes[i] matches Err(e)
        && e@.retryable()) by {
        assert(steps[i] is Retry);
        assert(config.decides(i as nat, outcomes[i], steps[i]));
    }
}

} // verus!
