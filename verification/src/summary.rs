//! Aggregation of one run's outcomes into a summary, and the stable
//! machine-readable JSON line derived from it.

use crate::outcome::{CheckOutcome, HealthStatus};
use crate::text::dec_of;
use crate::text::u64_to_dec_string;
use vstd::prelude::*;
use vstd::string::StringExecFns;

verus! {

/// Aggregate counts over one run. Always satisfies `total == up + down`.
#[derive(Debug, Clone)]
pub struct Summary {
    pub total: usize,
    pub up: usize,
    pub down: usize,
}

impl Default for Summary {
    /// The zero summary, reported for a run over no endpoints.
    fn default() -> (s: Self)
        ensures
            s.total == 0 && s.up == 0 && s.down == 0,
    {
        Summary { total: 0, up: 0, down: 0 }
    }
}

/// Whether an outcome reports the endpoint as up.
pub open spec fn is_up(o: CheckOutcome) -> bool {
    o.status is Up
}

/// How many outcomes in `s` report up.
pub open spec fn count_up(s: Seq<CheckOutcome>) -> nat
    decreases s.len(),
{
    if s.len() == 0 {
        0
    } else {
        count_up(s.drop_last()) + if is_up(s.last()) {
            1nat
        } else {
            0nat
        }
    }
}

/// How many outcomes in `s` report down.
pub open spec fn count_down(s: Seq<CheckOutcome>) -> nat
    decreases s.len(),
{
    if s.len() == 0 {
        0
    } else {
        count_down(s.drop_last()) + if is_up(s.last()) {
            0nat
        } else {
            1nat
        }
    }
}

/// Up and down partition every run: the two counts sum to the number of
/// outcomes, so any summary built from them satisfies `total == up + down`.
pub proof fn lemma_counts_partition(s: Seq<CheckOutcome>)
    ensures
        count_up(s) + count_down(s) == s.len(),
    decreases s.len(),
{
    if s.len() > 0 {
        lemma_counts_partition(s.drop_last());
    }
}

/// Aggregates the outcomes of one run: `total` is the number of endpoints
/// processed, `up` and `down` the counts by final status.
pub fn summarize(outcomes: &Vec<CheckOutcome>) -> (s: Summary)
    ensures
        s.total == outcomes@.len(),
        s.up == count_up(outcomes@),
        s.down == count_down(outcomes@),
        s.total == s.up + s.down,
{
    let mut up: usize = 0;
    let mut down: usize = 0;
    let mut i: usize = 0;
    while i < outcomes.len()
        invariant
            i <= outcomes@.len(),
            up == count_up(outcomes@.take(i as int)),
            down == count_down(outcomes@.take(i as int)),
            up + down == i,
        decreases outcomes@.len() - i,
    {
        proof {
            assert(outcomes@.take(i + 1 as int).drop_last() =~= outcomes@.take(i as int));
            assert(outcomes@.take(i + 1 as int).last() == outcomes@[i as int]);
        }
        match &outcomes[i].status {
            HealthStatus::Up => {
                up += 1;
            },
            HealthStatus::Down(_) => {
                down += 1;
            },
        }
        i += 1;
    }
    proof {
        assert(outcomes@.take(outcomes@.len() as int) =~= outcomes@);
    }
    Summary { total: outcomes.len(), up, down }
}

/// The one-line JSON object emitted for a summary, field by field in a fixed
/// order with no whitespace.
pub open spec fn summary_json_spec(total: nat, up: nat, down: nat) -> Seq<char> {
    "{\"total\":"@ + dec_of(total) + ",\"up\":"@ + dec_of(up) + ",\"down\":"@ + dec_of(down)
        + "}"@
}

/// Renders the stable machine-readable summary line
/// `{"total":N,"up":N,"down":N}`.
pub fn summary_json_line(s: &Summary) -> (r: String)
    ensures
        r@ == summary_json_spec(s.total as nat, s.up as nat, s.down as nat),
{
    let mut r = "{\"total\":".to_owned();
    let total = u64_to_dec_string(s.total as u64);
    r.append(total.as_str());
    r.append(",\"up\":");
    let up = u64_to_dec_string(s.up as u64);
    r.append(up.as_str());
    r.append(",\"down\":");
    let down = u64_to_dec_string(s.down as u64);
    r.append(down.as_str());
    r.append("}");
    r
}

} // verus!
