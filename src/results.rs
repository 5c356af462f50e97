use vstd::prelude::*;
use vstd::relations::{sorted_by, total_ordering};
use vstd::seq_lib::lemma_sorted_unique;

use crate::errors::LoadGenError;

verus! {

/// Status recorded for a request that failed below HTTP (connection refused,
/// timeout, protocol error).
pub const TRANSPORT_FAILURE_STATUS: u16 = 0;

/// A server error: a status in `[500, 599)`.
pub open spec fn is_5xx(code: u16) -> bool {
    500 <= code && code < 599
}

/// Number of codes in `s` for which `p` holds.
pub open spec fn count_where(s: Seq<u16>, p: spec_fn(u16) -> bool) -> nat
    decreases s.len(),
{
    if s.len() == 0 {
        0
    } else {
        count_where(s.drop_last(), p) + if p(s.last()) {
            1nat
        } else {
            0nat
        }
    }
}

pub open spec fn server_errors(s: Seq<u16>) -> nat {
    count_where(s, |c: u16| is_5xx(c))
}

pub open spec fn transport_failures(s: Seq<u16>) -> nat {
    count_where(s, |c: u16| c == TRANSPORT_FAILURE_STATUS)
}

/// The ascending order on durations.
pub open spec fn ascending() -> spec_fn(u128, u128) -> bool {
    |a: u128, b: u128| a <= b
}

/// The element at index `floor(n / 2)` of the durations sorted ascending.
pub open spec fn median_of(d: Seq<u128>) -> u128
    recommends
        d.len() > 0,
{
    d.sort_by(ascending())[(d.len() / 2) as int]
}

/// Success rate in hundredths of a percent, rounded down:
/// `10000 * (1 - errors / total)`.
pub open spec fn success_hundredths(errors: nat, total: nat) -> nat
    recommends
        total > 0,
        errors <= total,
{
    (10000 * (total - errors) / (total as int)) as nat
}

/// Statistics of a finished run.
pub struct ResultSummary {
    /// Number of recorded status codes.
    pub total_count: usize,
    /// Number of server errors (status in `[500, 599)`).
    pub count_5xx: usize,
    /// Number of requests that failed below HTTP.
    pub transport_failures: usize,
    /// Median duration in microseconds (lower-middle element for even counts).
    pub median_duration: u128,
    /// Success rate in hundredths of a percent, rounded down.
    pub success_hundredths: u64,
}

impl ResultSummary {
    /// The exact success rate, as numerator and denominator of the share
    /// of non-5xx responses.
    pub fn success_fraction(&self) -> (r: (usize, usize))
        requires
            self.count_5xx <= self.total_count,
        ensures
            r.0 == self.total_count - self.count_5xx,
            r.1 == self.total_count,
    {
        (self.total_count - self.count_5xx, self.total_count)
    }
}

/// Relies on `slice::sort_unstable`: afterwards the vector holds the same
/// values in ascending order.
#[verifier::external_body]
fn sort_durations(v: &mut Vec<u128>)
    ensures
        sorted_by(final(v)@, ascending()),
        final(v)@.to_multiset() == old(v)@.to_multiset(),
{
    v.sort_unstable();
}

/// Number of server errors, or of transport failures, among `codes`.
fn count_codes(codes: &Vec<u16>, is_server_error: bool) -> (n: usize)
    ensures
        n <= codes@.len(),
        is_server_error ==> n == server_errors(codes@),
        !is_server_error ==> n == transport_failures(codes@),
{
    let ghost p = if is_server_error {
        |c: u16| is_5xx(c)
    } else {
        |c: u16| c == TRANSPORT_FAILURE_STATUS
    };
    let mut n: usize = 0;
    let mut i: usize = 0;
    while i < codes.len()
        invariant
            i <= codes.len(),
            n <= i,
            n == count_where(codes@.subrange(0, i as int), p),
            p == (if is_server_error {
                |c: u16| is_5xx(c)
            } else {
                |c: u16| c == TRANSPORT_FAILURE_STATUS
            }),
        decreases codes.len() - i,
    {
        let c = codes[i];
        assert(codes@.subrange(0, i as int + 1).drop_last() =~= codes@.subrange(0, i as int));
        let hit = if is_server_error {
            500 <= c && c < 599
        } else {
            c == TRANSPORT_FAILURE_STATUS
        };
        if hit {
            n = n + 1;
        }
        i = i + 1;
    }
    assert(codes@.subrange(0, i as int) =~= codes@);
    n
}

/// Aggregates the outcomes of a run: fails with `NoResultsError` when
/// either sequence is empty; otherwise counts server errors, computes the
/// success rate and picks the median of the durations sorted ascending.
pub fn process_results(result_durations: Vec<u128>, result_errors: Vec<u16>) -> (r: Result<
    ResultSummary,
    LoadGenError,
>)
    ensures
        (result_durations@.len() == 0 || result_errors@.len() == 0) ==> r == Err::<
            ResultSummary,
            LoadGenError,
        >(LoadGenError::NoResultsError),
        (result_durations@.len() > 0 && result_errors@.len() > 0) ==> (r matches Ok(s) && {
            &&& s.total_count == result_errors@.len()
            &&& s.count_5xx == server_errors(result_errors@)
            &&& s.transport_failures == transport_failures(result_errors@)
            &&& s.median_duration == median_of(result_durations@)
            &&& s.success_hundredths == success_hundredths(
                server_errors(result_errors@),
                result_errors@.len(),
            )
        }),
{
    if result_durations.len() == 0 || result_errors.len() == 0 {
        return Err(LoadGenError::NoResultsError);
    }
    let mut durations = result_durations;
    sort_durations(&mut durations);
    proof {
        broadcast use vstd::seq_lib::group_to_multiset_ensures;

        assert(durations@.len() == durations@.to_multiset().len());
        assert(total_ordering(ascending()));
        result_durations@.lemma_sort_by_ensures(ascending());
        lemma_sorted_unique(durations@, result_durations@.sort_by(ascending()), ascending());
    }
    let total = result_errors.len();
    let count_5xx = count_codes(&result_errors, true);
    let failures = count_codes(&result_errors, false);
    let median = durations[durations.len() / 2];
    proof {
        let a = (total - count_5xx) as int;
        let t = total as int;
        assert(10000 * a / t <= 10000) by (nonlinear_arith)
            requires
                0 <= a <= t,
                t > 0,
        ;
    }
    let rate = (10000u128 * ((total - count_5xx) as u128) / (total as u128)) as u64;
    Ok(
        ResultSummary {
            total_count: total,
            count_5xx,
            transport_failures: failures,
            median_duration: median,
            success_hundredths: rate,
        },
    )
}

} // verus!
