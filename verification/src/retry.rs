//! The retry engine: exponential backoff with jitter, and the decision taken
//! after each probe attempt. The probe itself is asynchronous I/O performed by
//! the caller; after every attempt the caller hands the result back here and
//! this module decides whether to stop or how long to wait before the next
//! retry. Every numeric step of the delay computation is pinned down exactly.

use vstd::arithmetic::div_mod::{lemma_fundamental_div_mod, lemma_mod_division_less_than_divisor};
use vstd::arithmetic::mul::lemma_mul_inequality;
use vstd::arithmetic::power2::{
    lemma2_to64, lemma2_to64_rest, lemma_pow2_strictly_increases, lemma_pow2_unfold, pow2,
};
use vstd::prelude::*;

verus! {

/// What the retrier does after an attempt: give up the sequence, or probe
/// again after a delay in milliseconds.
#[derive(Debug, Clone, Copy, PartialEq, Eq, Structural)]
pub enum RetryVerdict {
    Stop,
    RetryAfter(u64),
}

/// `2^e` for `e <= 63`, saturated to `u64::MAX` above that; the clamp keeps
/// the exponentiation overflow-free for very large retry counts.
pub open spec fn pow2_capped_spec(e: nat) -> nat {
    if e <= 63 {
        pow2(e)
    } else {
        u64::MAX as nat
    }
}

fn pow2_capped(e: u32) -> (r: u64)
    ensures
        r as nat == pow2_capped_spec(e as nat),
{
    if e >= 64 {
        u64::MAX
    } else {
        let mut f: u64 = 1;
        let mut i: u32 = 0;
        proof {
            lemma2_to64();
        }
        while i < e
            invariant
                i <= e,
                e <= 63,
                f as nat == pow2(i as nat),
            decreases e - i,
        {
            proof {
                lemma_pow2_unfold((i + 1) as nat);
                if i + 1 < 63 {
                    lemma_pow2_strictly_increases((i + 1) as nat, 63);
                }
                lemma2_to64_rest();
            }
            f = f * 2;
            i = i + 1;
        }
        f
    }
}

fn sat_mul(a: u64, b: u64) -> (r: u64)
    ensures
        r as nat == if a as nat * b as nat <= u64::MAX as nat {
            a as nat * b as nat
        } else {
            u64::MAX as nat
        },
{
    if a == 0 {
        0
    } else if b > u64::MAX / a {
        proof {
            let q = u64::MAX as int / a as int;
            let m = u64::MAX as int % a as int;
            lemma_fundamental_div_mod(u64::MAX as int, a as int);
            lemma_mod_division_less_than_divisor(u64::MAX as int, a as int);
            assert(a as int * b as int > u64::MAX as int) by (nonlinear_arith)
                requires
                    a as int >= 1,
                    b as int >= q + 1,
                    u64::MAX as int == a as int * q + m,
                    m < a as int,
            ;
        }
        u64::MAX
    } else {
        proof {
            let q = u64::MAX as int / a as int;
            let m = u64::MAX as int % a as int;
            lemma_fundamental_div_mod(u64::MAX as int, a as int);
            lemma_mod_division_less_than_divisor(u64::MAX as int, a as int);
            assert(a as int * b as int <= u64::MAX as int) by (nonlinear_arith)
                requires
                    a as int >= 1,
                    b as int <= q,
                    u64::MAX as int == a as int * q + m,
                    m >= 0,
            ;
        }
        a * b
    }
}

fn sat_add(a: u64, b: u64) -> (r: u64)
    ensures
        r as nat == if a as nat + b as nat <= u64::MAX as nat {
            a as nat + b as nat
        } else {
            u64::MAX as nat
        },
{
    if b > u64::MAX - a {
        u64::MAX
    } else {
        a + b
    }
}

/// The deterministic part of the delay before retry `n` (`n >= 1`):
/// `base * 2^(n-1)`, capped at `max`.
pub open spec fn base_delay_spec(base: u64, max: u64, n: nat) -> nat
    recommends
        n >= 1,
{
    let raw = base as nat * pow2((n - 1) as nat);
    if raw <= max as nat {
        raw
    } else {
        max as nat
    }
}

/// The full delay before retry `n`: the deterministic delay plus a jitter of
/// `rand` reduced modulo `delay / 2 + 1`, so the jitter lies in
/// `[0, delay / 2]`; the sum saturates at `u64::MAX`.
pub open spec fn total_delay_spec(base: u64, max: u64, n: nat, rand: u64) -> nat
    recommends
        n >= 1,
{
    let bd = base_delay_spec(base, max, n);
    let t = bd + (rand as nat % (bd / 2 + 1));
    if t <= u64::MAX as nat {
        t
    } else {
        u64::MAX as nat
    }
}

/// Computes the backoff delay before retry `n` (`n >= 1`), with the jitter
/// source value passed in: exactly `total_delay_spec`.
pub fn backoff_delay_ms(base_backoff_ms: u64, max_backoff_ms: u64, n: u32, rand: u64) -> (r: u64)
    requires
        1 <= n,
    ensures
        r as nat == total_delay_spec(base_backoff_ms, max_backoff_ms, n as nat, rand),
{
    let e = n - 1;
    let factor = pow2_capped(e);
    let raw = sat_mul(base_backoff_ms, factor);
    let bd = if raw <= max_backoff_ms {
        raw
    } else {
        max_backoff_ms
    };
    proof {
        let en = (n - 1) as nat;
        if e >= 64 {
            lemma2_to64();
            if (e as nat) > 64 {
                lemma_pow2_strictly_increases(64, e as nat);
            }
            assert(pow2(en) >= 0x10000000000000000);
            if base_backoff_ms == 0 {
                assert(base_backoff_ms as int * factor as int == 0);
                assert(base_backoff_ms as nat * pow2(en) == 0) by (nonlinear_arith)
                    requires
                        base_backoff_ms as int == 0,
                ;
            } else {
                lemma_mul_inequality(1, base_backoff_ms as int, pow2(en) as int);
                assert(base_backoff_ms as nat * pow2(en) > u64::MAX as nat);
                lemma_mul_inequality(1, base_backoff_ms as int, u64::MAX as int);
                assert(raw == u64::MAX);
            }
        } else {
            assert(factor as nat == pow2(en));
        }
        assert(bd as nat == base_delay_spec(base_backoff_ms, max_backoff_ms, n as nat));
    }
    let half = bd / 2;
    let jitter = rand % (half + 1);
    let r = sat_add(bd, jitter);
    r
}

/// Whether the attempt sequence ends after an attempt: at the first success,
/// or once the initial attempt and all `retries` retries are exhausted.
pub open spec fn stops_after(up: bool, attempts_done: nat, retries: nat) -> bool {
    up || attempts_done > retries
}

/// The retry decision after one attempt, with the jitter source value passed
/// in. `attempts_done` attempts (`>= 1`) have been made and the last came
/// back `up`. The sequence stops at the first success or once the budget of
/// `1 + retries` attempts is spent; otherwise the next probe comes after
/// exactly the delay `total_delay_spec` gives for retry number
/// `attempts_done`.
pub fn retry_verdict(
    up: bool,
    attempts_done: u32,
    retries: u32,
    base_backoff_ms: u64,
    max_backoff_ms: u64,
    rand: u64,
) -> (v: RetryVerdict)
    requires
        1 <= attempts_done,
    ensures
        (v is Stop) == stops_after(up, attempts_done as nat, retries as nat),
        !stops_after(up, attempts_done as nat, retries as nat) ==> (v matches
            RetryVerdict::RetryAfter(d) && d as nat == total_delay_spec(
            base_backoff_ms,
            max_backoff_ms,
            attempts_done as nat,
            rand,
        )),
{
    if up || attempts_done > retries {
        RetryVerdict::Stop
    } else {
        RetryVerdict::RetryAfter(
            backoff_delay_ms(base_backoff_ms, max_backoff_ms, attempts_done, rand),
        )
    }
}

/// Relies on rand::random: a value drawn from the process-wide random source.
/// Nothing is assumed of the result.
pub assume_specification<T>[ rand::random::<T> ]() -> (r: T)
    where
        rand::distr::StandardUniform: rand::distr::Distribution<T>,
;

/// The retry decision with the jitter drawn from the process-wide random
/// source: whatever the draw, a returned delay lies between the deterministic
/// backoff delay and one and a half times that delay.
pub fn next_retry_action(
    up: bool,
    attempts_done: u32,
    retries: u32,
    base_backoff_ms: u64,
    max_backoff_ms: u64,
) -> (v: RetryVerdict)
    requires
        1 <= attempts_done,
    ensures
        (v is Stop) == stops_after(up, attempts_done as nat, retries as nat),
        v matches RetryVerdict::RetryAfter(d) ==> ({
            let bd = base_delay_spec(base_backoff_ms, max_backoff_ms, attempts_done as nat);
            bd <= d as nat <= bd + bd / 2
        }),
{
    let rand: u64 = rand::random();
    let v = retry_verdict(up, attempts_done, retries, base_backoff_ms, max_backoff_ms, rand);
    proof {
        lemma_backoff_within_bounds(
            base_backoff_ms,
            max_backoff_ms,
            attempts_done as nat,
            rand,
        );
    }
    v
}

/// Backoff delay for retry `n` is within `[D, 1.5 * D]` for
/// `D = min(base * 2^(n-1), max)`, and therefore never above
/// `1.5 * max`: the jitter adds at most half the deterministic delay.
pub proof fn lemma_backoff_within_bounds(base: u64, max: u64, n: nat, rand: u64)
    requires
        n >= 1,
    ensures
        base_delay_spec(base, max, n) <= max as nat,
        base_delay_spec(base, max, n) <= total_delay_spec(base, max, n, rand),
        total_delay_spec(base, max, n, rand) <= base_delay_spec(base, max, n) + base_delay_spec(
            base,
            max,
            n,
        ) / 2,
        total_delay_spec(base, max, n, rand) <= max as nat + max as nat / 2,
{
    let bd = base_delay_spec(base, max, n);
    lemma_mod_division_less_than_divisor(rand as int, bd as int / 2 + 1);
}

/// The deterministic floor of the accumulated backoff: the sum of the
/// capped base delays for retries `1` through `k`.
pub open spec fn min_total_backoff_ms(base: u64, max: u64, k: nat) -> nat
    decreases k,
{
    if k == 0 {
        0
    } else {
        min_total_backoff_ms(base, max, (k - 1) as nat) + base_delay_spec(base, max, k)
    }
}

/// The accumulated backoff of retries `1` through `k` with the given jitter
/// source values, `rands[n-1]` feeding retry `n`.
pub open spec fn total_backoff_ms(base: u64, max: u64, k: nat, rands: Seq<u64>) -> nat
    recommends
        rands.len() >= k,
    decreases k,
{
    if k == 0 {
        0
    } else {
        total_backoff_ms(base, max, (k - 1) as nat, rands) + total_delay_spec(
            base,
            max,
            k,
            rands[k - 1],
        )
    }
}

/// Jitter only adds: however the jitter draws fall, the delays of retries
/// `1` through `k` sum to at least the deterministic floor, so a sequence
/// that exhausts its budget has waited at least that long between attempts.
pub proof fn lemma_backoff_sum_floor(base: u64, max: u64, k: nat, rands: Seq<u64>)
    requires
        rands.len() >= k,
    ensures
        min_total_backoff_ms(base, max, k) <= total_backoff_ms(base, max, k, rands),
    decreases k,
{
    if k > 0 {
        lemma_backoff_sum_floor(base, max, (k - 1) as nat, rands);
        lemma_backoff_within_bounds(base, max, k, rands[k - 1]);
    }
}

/// The number of attempts a full retry sequence consumes: `ups[i]` says
/// whether attempt `i + 1` came back up, and attempts stop at the first
/// success or once the budget of `1 + retries` attempts is spent.
pub open spec fn run_attempts(ups: Seq<bool>, retries: nat) -> nat
    decreases ups.len(),
{
    if ups.len() == 0 {
        0
    } else if stops_after(ups[0], 1, retries) {
        1
    } else {
        1 + run_attempts(ups.drop_first(), (retries - 1) as nat)
    }
}

/// Retries stop immediately at the first success: when attempt `k + 1` is
/// the first to come back up and it lies within the budget, the sequence
/// consumes exactly `k + 1` attempts, whatever follows it.
pub proof fn lemma_stops_at_first_up(ups: Seq<bool>, retries: nat, k: int)
    requires
        0 <= k < ups.len(),
        ups[k],
        forall|j: int| 0 <= j < k ==> !ups[j],
        k <= retries,
    ensures
        run_attempts(ups, retries) == k + 1,
    decreases k,
{
    if k > 0 {
        lemma_stops_at_first_up(ups.drop_first(), (retries - 1) as nat, k - 1);
    }
}

/// When every attempt fails, the sequence exhausts its budget: the initial
/// attempt plus all `retries` retries, `retries + 1` attempts in total.
pub proof fn lemma_exhausts_on_all_down(ups: Seq<bool>, retries: nat)
    requires
        ups.len() >= retries + 1,
        forall|j: int| 0 <= j < ups.len() ==> !ups[j],
    ensures
        run_attempts(ups, retries) == retries + 1,
    decreases retries,
{
    if retries > 0 {
        lemma_exhausts_on_all_down(ups.drop_first(), (retries - 1) as nat);
    }
}

/// The per-attempt decision and the whole-run count agree: a sequence whose
/// step decisions continue through every attempt but the last, and stop at
/// the last, consumes exactly its length in attempts.
pub proof fn lemma_run_attempts_matches_steps(ups: Seq<bool>, retries: nat)
    requires
        ups.len() >= 1,
        forall|i: int|
            0 <= i < ups.len() - 1 ==> !stops_after(#[trigger] ups[i], (i + 1) as nat, retries),
        stops_after(ups[ups.len() - 1], ups.len() as nat, retries),
    ensures
        run_attempts(ups, retries) == ups.len(),
    decreases ups.len(),
{
    if ups.len() > 1 {
        assert(!stops_after(ups[0], 1, retries));
        let rest = ups.drop_first();
        assert forall|i: int| 0 <= i < rest.len() - 1 implies !stops_after(
            #[trigger] rest[i],
            (i + 1) as nat,
            (retries - 1) as nat,
        ) by {
            assert(rest[i] == ups[i + 1]);
            assert(!stops_after(ups[i + 1], (i + 2) as nat, retries));
        }
        assert(rest[rest.len() - 1] == ups[ups.len() - 1]);
        lemma_run_attempts_matches_steps(rest, (retries - 1) as nat);
    }
}

} // verus!
