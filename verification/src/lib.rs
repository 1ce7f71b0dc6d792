//! Probing and aggregation engine for JSON-RPC endpoint latency measurement.
//!
//! The library classifies the outcome of a single timed `eth_blockNumber`
//! probe and reduces a sequence of such attempts into one summary record
//! per endpoint: latency statistics, a success ratio, the last extracted
//! value and the last classified error.
mod decimal;
mod error;
mod rpc;
mod stats;
mod summary;

pub use decimal::{dec_digits, decimal_string, digit_char};
pub use error::{ErrorModel, PingError, message_of};
pub use rpc::{
    EnvelopeModel, ErrorMember, ErrorMemberModel, OutcomeModel, RpcEnvelope, classify_envelope,
    classify_response, decoded_model, envelope_outcome, is_success_status, json_envelope,
    lemma_error_takes_precedence, lemma_status_short_circuit, outcome_of, response_outcome,
};
pub use stats::{calculate_stats, lemma_extrema, max_of, min_of, stats_of, sum_of};
pub use summary::{
    AttemptOutcome, PingResult, PingStatus, aggregate_attempts, classify_status,
    client_failure_summary, last_error_message_of, last_value_of, lemma_status_classification,
    lemma_zero_attempts, opt_text, status_of, success_count_of, success_latencies,
    validate_endpoints,
};
