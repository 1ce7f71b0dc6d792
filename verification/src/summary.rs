//! Reduction of repeated probe attempts against one endpoint into a single
//! summary record.
use vstd::prelude::*;
use crate::error::{PingError, message_of};
use crate::stats::{calculate_stats, lemma_sum_bounded, stats_of, sum_of};

verus! {

/// A simple summary of the outcome of a whole run against one endpoint.
#[derive(Debug, PartialEq, Eq, Structural, Copy, Clone)]
pub enum PingStatus {
    /// Every attempt succeeded (and at least one attempt was made).
    Success,
    /// Some attempts succeeded and some failed.
    PartialSuccess,
    /// No attempt succeeded.
    Failure,
}

/// The outcome of one probe attempt, as handed to aggregation: a success
/// carrying the measured latency and the extracted value, or a classified
/// failure.
#[derive(Debug)]
pub enum AttemptOutcome {
    /// The attempt produced a usable result after the given latency.
    Success { latency_ms: u64, value: String },
    /// The attempt failed with a classified error.
    Failure(PingError),
}

/// The final, aggregated result of pinging an endpoint multiple times.
#[derive(Debug)]
pub struct PingResult {
    pub endpoint: String,
    pub avg_latency_ms: Option<u128>,
    pub min_latency_ms: Option<u128>,
    pub max_latency_ms: Option<u128>,
    pub block_number: Option<String>,
    pub ping_count: usize,
    pub success_count: usize,
    pub status: PingStatus,
    pub error_message: Option<String>,
}

/// The latencies of the successful attempts, in attempt order.
pub open spec fn success_latencies(s: Seq<AttemptOutcome>) -> Seq<u128>
    decreases s.len(),
{
    if s.len() == 0 {
        Seq::empty()
    } else {
        success_latencies(s.drop_last()) + match s.last() {
            AttemptOutcome::Success { latency_ms, value: _ } => seq![latency_ms as u128],
            AttemptOutcome::Failure(_) => Seq::empty(),
        }
    }
}

/// The number of successful attempts.
pub open spec fn success_count_of(s: Seq<AttemptOutcome>) -> nat
    decreases s.len(),
{
    if s.len() == 0 {
        0
    } else {
        success_count_of(s.drop_last()) + match s.last() {
            AttemptOutcome::Success { latency_ms: _, value: _ } => 1nat,
            AttemptOutcome::Failure(_) => 0nat,
        }
    }
}

/// The most recent successfully extracted value; a value survives later
/// failures.
pub open spec fn last_value_of(s: Seq<AttemptOutcome>) -> Option<Seq<char>>
    decreases s.len(),
{
    if s.len() == 0 {
        Option::None
    } else {
        match s.last() {
            AttemptOutcome::Success { latency_ms: _, value } => Option::Some(value@),
            AttemptOutcome::Failure(_) => last_value_of(s.drop_last()),
        }
    }
}

/// The message of the most recent classified failure; it survives later
/// successes.
pub open spec fn last_error_message_of(s: Seq<AttemptOutcome>) -> Option<Seq<char>>
    decreases s.len(),
{
    if s.len() == 0 {
        Option::None
    } else {
        match s.last() {
            AttemptOutcome::Failure(e) => Option::Some(message_of(e@)),
            AttemptOutcome::Success { latency_ms: _, value: _ } => last_error_message_of(
                s.drop_last(),
            ),
        }
    }
}

/// Three-way status classification, in precedence order: all of a positive
/// number of attempts succeeded; some but not all succeeded; none succeeded.
pub open spec fn status_of(successes: int, total: int) -> PingStatus {
    if total > 0 && successes == total {
        PingStatus::Success
    } else if successes > 0 {
        PingStatus::PartialSuccess
    } else {
        PingStatus::Failure
    }
}

/// The view of an optional string.
pub open spec fn opt_text(o: Option<String>) -> Option<Seq<char>> {
    match o {
        Option::Some(s) => Option::Some(s@),
        Option::None => Option::None,
    }
}

impl PingResult {
    /// The summary invariant: the success count never exceeds the attempt
    /// count, the three latency fields are present exactly when at least one
    /// attempt succeeded, and the status is the three-way classification of
    /// the success count.
    pub open spec fn wf(self) -> bool {
        &&& self.success_count <= self.ping_count
        &&& (self.success_count == 0 <==> self.avg_latency_ms is None)
        &&& (self.avg_latency_ms is None <==> self.min_latency_ms is None)
        &&& (self.min_latency_ms is None <==> self.max_latency_ms is None)
        &&& self.status == status_of(self.success_count as int, self.ping_count as int)
    }
}

/// Derive the three-way status from the success count and the attempt count.
pub fn classify_status(successes: usize, total: usize) -> (s: PingStatus)
    ensures
        s == status_of(successes as int, total as int),
{
    if total > 0 && successes == total {
        PingStatus::Success
    } else if successes > 0 {
        PingStatus::PartialSuccess
    } else {
        PingStatus::Failure
    }
}

/// Reduce the outcomes of all attempts against one endpoint into its
/// summary: the success count, the three-way status, latency statistics
/// over the successful attempts only, the last extracted value and the last
/// failure message.
pub fn aggregate_attempts(endpoint: &str, count: usize, outcomes: &Vec<AttemptOutcome>) -> (r:
    PingResult)
    requires
        outcomes@.len() == count,
    ensures
        r.endpoint@ == endpoint@,
        r.ping_count == count,
        r.success_count == success_count_of(outcomes@),
        r.status == status_of(success_count_of(outcomes@) as int, count as int),
        (r.avg_latency_ms, r.min_latency_ms, r.max_latency_ms) == stats_of(
            success_latencies(outcomes@),
        ),
        opt_text(r.block_number) == last_value_of(outcomes@),
        opt_text(r.error_message) == last_error_message_of(outcomes@),
        r.wf(),
{
    let mut latencies: Vec<u128> = Vec::new();
    let mut successes: usize = 0;
    let mut last_value: Option<String> = None;
    let mut last_error: Option<String> = None;
    let mut i: usize = 0;
    while i < outcomes.len()
        invariant
            i <= outcomes@.len(),
            successes <= i,
            successes == latencies@.len(),
            latencies@ == success_latencies(outcomes@.take(i as int)),
            successes == success_count_of(outcomes@.take(i as int)),
            forall|j: int|
                0 <= j < latencies@.len() ==> #[trigger] latencies@[j] <= u64::MAX as u128,
            opt_text(last_value) == last_value_of(outcomes@.take(i as int)),
            opt_text(last_error) == last_error_message_of(outcomes@.take(i as int)),
        decreases outcomes@.len() - i,
    {
        proof {
            assert(outcomes@.take(i as int + 1).drop_last() =~= outcomes@.take(i as int));
            assert(outcomes@.take(i as int + 1).last() == outcomes@[i as int]);
        }
        match &outcomes[i] {
            AttemptOutcome::Success { latency_ms, value } => {
                successes = successes + 1;
                latencies.push(*latency_ms as u128);
                last_value = Some(value.clone());
            },
            AttemptOutcome::Failure(e) => {
                last_error = Some(e.message());
            },
        }
        i = i + 1;
    }
    proof {
        assert(outcomes@.take(outcomes@.len() as int) =~= outcomes@);
        let l = success_latencies(outcomes@);
        lemma_sum_bounded(l, u64::MAX as int);
        assert(l.len() * (u64::MAX as int) <= u128::MAX) by (nonlinear_arith)
            requires
                l.len() <= u64::MAX,
        ;
    }
    let status = classify_status(successes, count);
    let (avg, low, high) = calculate_stats(latencies.as_slice());
    PingResult {
        endpoint: endpoint.to_owned(),
        avg_latency_ms: avg,
        min_latency_ms: low,
        max_latency_ms: high,
        block_number: last_value,
        ping_count: count,
        success_count: successes,
        status,
        error_message: last_error,
    }
}

/// The short-circuit summary for an aggregator that could not construct its
/// network client: no attempt is made, the success count is zero, no latency
/// field is present, and the explanatory message is recorded.
pub fn client_failure_summary(endpoint: &str, count: usize, error_text: String) -> (r: PingResult)
    ensures
        r.endpoint@ == endpoint@,
        r.ping_count == count,
        r.success_count == 0,
        r.status == PingStatus::Failure,
        r.avg_latency_ms is None,
        r.min_latency_ms is None,
        r.max_latency_ms is None,
        r.block_number is None,
        opt_text(r.error_message) == Option::Some(error_text@),
        r.wf(),
{
    PingResult {
        endpoint: endpoint.to_owned(),
        avg_latency_ms: None,
        min_latency_ms: None,
        max_latency_ms: None,
        block_number: None,
        ping_count: count,
        success_count: 0,
        status: PingStatus::Failure,
        error_message: Some(error_text),
    }
}

/// The driver's usage rule: a run needs at least one endpoint. An empty
/// endpoint list is a usage error, reported before any probing begins; any
/// non-empty list is accepted.
pub fn validate_endpoints(endpoints: &Vec<String>) -> (r: Result<(), String>)
    ensures
        r is Ok <==> endpoints@.len() > 0,
        r matches Err(m) ==> m@ == "At least one endpoint URL is required"@,
{
    if endpoints.len() == 0 {
        Result::Err("At least one endpoint URL is required".to_owned())
    } else {
        Result::Ok(())
    }
}

/// Three-way classification of a completed run of n >= 1 attempts: s == n
/// successes means every attempt succeeded, 0 < s < n means partial success,
/// and s == 0 means every attempt failed.
pub proof fn lemma_status_classification(s: int, n: int)
    requires
        1 <= n,
        0 <= s <= n,
    ensures
        s == n ==> status_of(s, n) == PingStatus::Success,
        0 < s < n ==> status_of(s, n) == PingStatus::PartialSuccess,
        s == 0 ==> status_of(s, n) == PingStatus::Failure,
{
}

/// A run of zero attempts yields the failure status, a zero success count,
/// no latency statistics, no value and no error message.
pub proof fn lemma_zero_attempts(outcomes: Seq<AttemptOutcome>)
    requires
        outcomes.len() == 0,
    ensures
        success_count_of(outcomes) == 0,
        status_of(success_count_of(outcomes) as int, 0) == PingStatus::Failure,
        stats_of(success_latencies(outcomes)) == (
            Option::None::<u128>,
            Option::None::<u128>,
            Option::None::<u128>,
        ),
        last_value_of(outcomes) is None,
        last_error_message_of(outcomes) is None,
{
}

} // verus!
