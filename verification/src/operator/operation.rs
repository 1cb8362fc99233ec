//! The operations of the radio.

use crate::config::UpgradePresyncArg;
use crate::decimal::{decimal_text, format_i64, parse_i64_spec};
use crate::messages::upgrade::UpgradeIntentMessage;
use crate::operator::dispatch::{
    intent_message, prepare_attempt, run, DispatchAttempt, DispatchReport, DispatchState,
    SendError,
};
use crate::operator::RadioOperator;
use crate::query::{IndexerInfo, QueryError};
use vstd::prelude::*;
use vstd::string::*;

verus! {

/// How far one indexer has come on the first chain of a deployment.
#[derive(Debug, Clone, Copy, PartialEq, Eq, Structural)]
pub struct BlockProgress {
    /// The latest block the indexer has processed.
    pub latest_block: i64,
    /// The head of the chain as the indexer sees it.
    pub chain_head_block: i64,
}

/// What a usable result says: whether the indexer is synced, and its progress.
pub struct Reading {
    pub synced: bool,
    pub progress: BlockProgress,
}

/// The outcome of polling a set of indexers.
#[derive(Debug, Clone, PartialEq, Eq)]
pub struct ProgressSummary {
    /// How many indexers were asked.
    pub total_endpoints: usize,
    /// How many gave a usable result.
    pub successful_endpoints: usize,
    /// How many did not.
    pub failed_endpoints: usize,
    /// How many of the usable results report the deployment as synced.
    pub synced_count: usize,
    /// The progress of the indexer that has come furthest, if any has a
    /// usable result.
    pub best_block: Option<BlockProgress>,
    /// `best_block` for people: `"<chain head> / <latest>"`, or `"N/A"`.
    pub best_block_progress: String,
    /// The progress of every usable result whose chain head is not zero, in
    /// the order of the indexers. Average progress is the mean of
    /// `latest_block / chain_head_block` over these, and undefined where
    /// there are none.
    pub progress_samples: Vec<BlockProgress>,
}

/// What an outcome counts for. An error counts for nothing, and so does a
/// result that reports no chain, or whose block numbers on the first chain
/// are not decimal 64-bit integers.
pub open spec fn reading_of(outcome: Result<IndexerInfo, QueryError>) -> Option<Reading> {
    match outcome {
        Ok(info) => match (
            info@.status.latest_block_number(),
            info@.status.chain_head_block_number(),
        ) {
            (Some(latest_block), Some(chain_head_block)) => Some(
                Reading {
                    synced: info.status.synced,
                    progress: BlockProgress { latest_block, chain_head_block },
                },
            ),
            _ => None,
        },
        Err(_) => None,
    }
}

/// [`reading_of`] as a value.
pub open spec fn reading_fn() -> spec_fn(Result<IndexerInfo, QueryError>) -> Option<Reading> {
    |outcome: Result<IndexerInfo, QueryError>| reading_of(outcome)
}

/// The readings of those outcomes that count, in the order of the outcomes.
pub open spec fn readings_of(outcomes: Seq<Result<IndexerInfo, QueryError>>) -> Seq<Reading> {
    outcomes.filter_map(reading_fn())
}

/// Whether a reading reports the deployment as synced.
pub open spec fn synced_fn() -> spec_fn(Reading) -> bool {
    |reading: Reading| reading.synced
}

/// How many readings report the deployment as synced.
pub open spec fn synced_count(readings: Seq<Reading>) -> nat {
    readings.filter(synced_fn()).len()
}

/// The position of the reading with the greatest latest block; of several
/// such, the first.
pub open spec fn first_max(readings: Seq<Reading>) -> int
    decreases readings.len(),
{
    if readings.len() <= 1 {
        0
    } else {
        let before = first_max(readings.drop_last());
        if readings[before].progress.latest_block < readings.last().progress.latest_block {
            readings.len() - 1
        } else {
            before
        }
    }
}

/// The progress of the indexer that has come furthest.
pub open spec fn best_block_of(readings: Seq<Reading>) -> Option<BlockProgress> {
    if readings.len() == 0 {
        None
    } else {
        Some(readings[first_max(readings)].progress)
    }
}

/// The best block as text: the chain head, ` / `, the latest block; `N/A`
/// where there is none.
pub open spec fn progress_text(best: Option<BlockProgress>) -> Seq<char> {
    match best {
        Some(progress) => decimal_text(progress.chain_head_block as int) + " / "@ + decimal_text(
            progress.latest_block as int,
        ),
        None => "N/A"@,
    }
}

/// What a reading adds to the average: its progress, unless its chain head
/// is zero, in which case it adds nothing.
pub open spec fn sample_fn() -> spec_fn(Reading) -> Option<BlockProgress> {
    |reading: Reading|
        if reading.progress.chain_head_block != 0 {
            Some(reading.progress)
        } else {
            None
        }
}

/// The progress of the readings that enter the average: those whose chain
/// head is not zero, in order.
pub open spec fn samples_of(readings: Seq<Reading>) -> Seq<BlockProgress> {
    readings.filter_map(sample_fn())
}

/// `first_max` is what its name says: no reading has a greater latest
/// block, and every reading before it has a smaller one.
pub proof fn lemma_first_max(readings: Seq<Reading>)
    requires
        readings.len() > 0,
    ensures
        0 <= first_max(readings) < readings.len(),
        forall|j: int|
            0 <= j < readings.len() ==> (#[trigger] readings[j]).progress.latest_block
                <= readings[first_max(readings)].progress.latest_block,
        forall|j: int|
            0 <= j < first_max(readings) ==> (#[trigger] readings[j]).progress.latest_block
                < readings[first_max(readings)].progress.latest_block,
    decreases readings.len(),
{
    if readings.len() > 1 {
        let shorter = readings.drop_last();
        lemma_first_max(shorter);
        assert forall|j: int| 0 <= j < shorter.len() implies shorter[j] == readings[j] by {}
    }
}

/// A result whose block numbers can be read, as every result of a status
/// query is, counts in the summary exactly where it reports a chain.
pub proof fn lemma_readable_result_counts(info: IndexerInfo)
    requires
        info@.status.block_numbers_readable(),
    ensures
        reading_of(Ok(info)) is Some <==> info@.status.chains.len() > 0,
{
    if info@.status.chains.len() > 0 {
        let first = info@.status.chains[0];
        assert(parse_i64_spec(first.latest_block.number) is Some);
    }
}

/// Where every query failed there is no reading.
pub proof fn lemma_no_reading_of_errors(outcomes: Seq<Result<IndexerInfo, QueryError>>)
    requires
        forall|i: int| 0 <= i < outcomes.len() ==> (#[trigger] outcomes[i]) is Err,
    ensures
        readings_of(outcomes).len() == 0,
    decreases outcomes.len(),
{
    if outcomes.len() > 0 {
        let shorter = outcomes.drop_last();
        assert forall|i: int| 0 <= i < shorter.len() implies (#[trigger] shorter[i]) is Err by {}
        lemma_no_reading_of_errors(shorter);
    }
}

/// A reading whose chain head is zero is no sample, and every sample is the
/// progress of a reading: the samples are the readings with a chain head
/// other than zero, neither more nor fewer.
pub proof fn lemma_samples_exclude_zero_head(readings: Seq<Reading>)
    ensures
        samples_of(readings).len() <= readings.len(),
        forall|k: int|
            0 <= k < samples_of(readings).len() ==> (#[trigger] samples_of(
                readings,
            )[k]).chain_head_block != 0,
        (forall|j: int|
            0 <= j < readings.len() ==> (#[trigger] readings[j]).progress.chain_head_block != 0)
            ==> samples_of(readings).len() == readings.len(),
        (forall|j: int|
            0 <= j < readings.len() ==> (#[trigger] readings[j]).progress.chain_head_block == 0)
            ==> samples_of(readings).len() == 0,
    decreases readings.len(),
{
    if readings.len() > 0 {
        let shorter = readings.drop_last();
        lemma_samples_exclude_zero_head(shorter);
    }
}

fn progress_string(best: Option<BlockProgress>) -> (text: String)
    ensures
        text@ == progress_text(best),
{
    match best {
        Some(progress) => {
            let mut text = format_i64(progress.chain_head_block);
            text.append(" / ");
            let latest = format_i64(progress.latest_block);
            text.append(latest.as_str());
            text
        },
        None => "N/A".to_owned(),
    }
}

/// Summarize indexing statuses: how many indexers answered usably, how many
/// of those are synced, which has come furthest, and the progress of each
/// that can enter an average.
pub fn summarize_indexing_statuses(statuses: Vec<Result<IndexerInfo, QueryError>>) -> (summary:
    ProgressSummary)
    ensures
        summary.total_endpoints == statuses.len(),
        summary.successful_endpoints == readings_of(statuses@).len(),
        summary.successful_endpoints + summary.failed_endpoints == statuses.len(),
        summary.synced_count == synced_count(readings_of(statuses@)),
        summary.best_block == best_block_of(readings_of(statuses@)),
        summary.best_block_progress@ == progress_text(summary.best_block),
        summary.progress_samples@ == samples_of(readings_of(statuses@)),
        forall|k: int|
            0 <= k < summary.progress_samples.len() ==> (
            #[trigger] summary.progress_samples[k]).chain_head_block != 0,
        (forall|i: int| 0 <= i < statuses.len() ==> (#[trigger] statuses[i]) is Err) ==> {
            &&& summary.successful_endpoints == 0
            &&& summary.best_block is None
            &&& summary.best_block_progress@ == "N/A"@
            &&& summary.progress_samples.len() == 0
        },
{
    let mut successful: usize = 0;
    let mut failed: usize = 0;
    let mut synced: usize = 0;
    let mut best: Option<BlockProgress> = None;
    let mut samples: Vec<BlockProgress> = Vec::new();
    let mut i: usize = 0;
    while i < statuses.len()
        invariant
            i <= statuses.len(),
            successful + failed == i,
            successful == readings_of(statuses@.take(i as int)).len(),
            synced == synced_count(readings_of(statuses@.take(i as int))),
            synced <= successful,
            best == best_block_of(readings_of(statuses@.take(i as int))),
            samples@ == samples_of(readings_of(statuses@.take(i as int))),
        decreases statuses.len() - i,
    {
        let ghost seen = readings_of(statuses@.take(i as int));
        proof {
            statuses@.lemma_filter_map_take_succ(reading_fn(), i as int);
        }
        let counted: Option<(bool, BlockProgress)> = match &statuses[i] {
            Ok(info) => match (info.latest_block_number(), info.chain_head_block_number()) {
                (Some(latest_block), Some(chain_head_block)) => Some(
                    (info.status.synced, BlockProgress { latest_block, chain_head_block }),
                ),
                _ => None,
            },
            Err(_) => None,
        };
        match counted {
            Some((is_synced, progress)) => {
                proof {
                    let reading = Reading { synced: is_synced, progress };
                    let now = seen.push(reading);
                    assert(readings_of(statuses@.take(i + 1)) =~= now);
                    assert(now.drop_last() =~= seen);
                    seen.lemma_filter_len_push(synced_fn(), reading);
                    if seen.len() > 0 {
                        lemma_first_max(seen);
                    }
                }
                successful = successful + 1;
                if is_synced {
                    synced = synced + 1;
                }
                best =
                match best {
                    Some(so_far) => if so_far.latest_block < progress.latest_block {
                        Some(progress)
                    } else {
                        Some(so_far)
                    },
                    None => Some(progress),
                };
                if progress.chain_head_block != 0 {
                    samples.push(progress);
                }
            },
            None => {
                failed = failed + 1;
            },
        }
        i = i + 1;
    }
    proof {
        assert(statuses@.take(i as int) =~= statuses@);
        lemma_samples_exclude_zero_head(readings_of(statuses@));
        if forall|i: int| 0 <= i < statuses.len() ==> (#[trigger] statuses[i]) is Err {
            lemma_no_reading_of_errors(statuses@);
        }
    }
    let text = progress_string(best);
    ProgressSummary {
        total_endpoints: statuses.len(),
        successful_endpoints: successful,
        failed_endpoints: failed,
        synced_count: synced,
        best_block: best,
        best_block_progress: text,
        progress_samples: samples,
    }
}

/// The seconds since the Unix epoch at the reading of the system clock, as
/// chrono's conversion of a `std::time::SystemTime` into a
/// `chrono::DateTime<Utc>` and `chrono::DateTime::timestamp` give them. A
/// clock set before the epoch gives a negative number. The conversion
/// does not return on a reading beyond the years that chrono can hold, some
/// 262,000 either side of the epoch. Nothing is claimed of the reading: the
/// clock may be set to any time, and may go back between two readings.
#[verifier::external_body]
fn unix_time_now() -> (now: i64) {
    chrono::DateTime::<chrono::Utc>::from(std::time::SystemTime::now()).timestamp()
}

/// What was sent in a run and what came back, the earliest attempt first.
pub type DispatchTrace = Seq<(UpgradeIntentMessage, Result<String, SendError>)>;

/// What came back in a run, the earliest attempt first.
pub open spec fn outcomes_of(trace: DispatchTrace) -> Seq<Result<String, SendError>> {
    Seq::new(trace.len(), |i: int| trace[i].1)
}

/// Whether `trace` is a run of upgrade intents for `args` that ends as
/// `report` says:
/// every payload was handed to `send` under `topic` and got the outcome
/// beside it; every payload is the intent for `args` with a nonce of its
/// own, and no nonce is earlier than the one before it; every attempt but
/// the last failed; the last attempt is the one reported, with its outcome;
/// and a run that ends in failure has used up the bound.
pub open spec fn is_run_of<S: Fn(&str, &UpgradeIntentMessage) -> Result<String, SendError>>(
    trace: DispatchTrace,
    send: S,
    topic: &str,
    args: UpgradePresyncArg,
    graph_account: Seq<char>,
    max_retry: u64,
    report: DispatchReport,
) -> bool {
    &&& trace.len() == report.attempts_made()
    &&& trace.len() <= max_retry + 1
    &&& forall|i: int|
        0 <= i < trace.len() ==> call_ensures(send, (topic, &(#[trigger] trace[i]).0), trace[i].1)
    &&& forall|i: int|
        0 <= i < trace.len() ==> (#[trigger] trace[i]).0@ == intent_message(
            args,
            graph_account,
            trace[i].0.nonce,
        )
    &&& forall|i: int, j: int|
        0 <= i <= j < trace.len() ==> (#[trigger] trace[i]).0.nonce <= (#[trigger] trace[j]).0.nonce
    &&& forall|i: int| 0 <= i < trace.len() - 1 ==> (#[trigger] trace[i]).1 is Err
    &&& report.last_attempt.payload == trace.last().0
    &&& report.last_attempt.sent_at == trace.last().0.nonce
    &&& report.result == trace.last().1
    &&& report.result is Err ==> trace.len() == max_retry + 1
    &&& report.final_state() == run(max_retry, outcomes_of(trace))
}

/// Against a `send` that never succeeds, a run makes `max_retry + 1`
/// attempts, neither more nor fewer, and ends with the error of the last.
pub proof fn lemma_run_against_failing_send<
    S: Fn(&str, &UpgradeIntentMessage) -> Result<String, SendError>,
>(
    trace: DispatchTrace,
    send: S,
    topic: &str,
    args: UpgradePresyncArg,
    graph_account: Seq<char>,
    max_retry: u64,
    report: DispatchReport,
)
    requires
        is_run_of(trace, send, topic, args, graph_account, max_retry, report),
        forall|t: &str, m: &UpgradeIntentMessage, outcome: Result<String, SendError>|
            call_ensures(send, (t, m), outcome) ==> outcome is Err,
    ensures
        report.result is Err,
        report.attempts_made() == max_retry + 1,
        report.last_attempt.attempt_number == max_retry,
        report.final_state() == DispatchState::ExhaustedRetries(trace.last().1->Err_0),
{
}

impl RadioOperator {
    /// Makes one attempt to gossip the upgrade intent for `args` under
    /// `topic`: builds the payload of attempt `attempt_number`, stamped with
    /// the time of the system clock or, if that is earlier, with `previous`,
    /// hands it to `send`, and gives back the attempt with what `send`
    /// returned.
    pub fn gossip_one_shot<S>(
        &self,
        args: &UpgradePresyncArg,
        topic: &str,
        attempt_number: u64,
        previous: Option<i64>,
        send: &S,
    ) -> (sent: (DispatchAttempt, Result<String, SendError>)) where
        S: Fn(&str, &UpgradeIntentMessage) -> Result<String, SendError>,

        requires
            forall|t: &str, m: &UpgradeIntentMessage| call_requires(*send, (t, m)),
        ensures
            sent.0.attempt_number == attempt_number,
            sent.0.payload.nonce == sent.0.sent_at,
            sent.0.payload@ == intent_message(
                *args,
                self@.graph_stack.graph_account@,
                sent.0.sent_at,
            ),
            previous matches Some(earlier) ==> sent.0.sent_at >= earlier,
            call_ensures(*send, (topic, &sent.0.payload), sent.1),
    {
        let now = unix_time_now();
        let attempt = prepare_attempt(
            args,
            &self.config().graph_stack.graph_account,
            attempt_number,
            previous,
            now,
        );
        let outcome = send(topic, &attempt.payload);
        (attempt, outcome)
    }

    /// radio attempt to send message until success or max at configured retry
    ///
    /// Attempts follow one another at once, each with a payload built for
    /// it. The run ends with the first attempt that `send` accepts, or with
    /// the failure of attempt number `max_retry`.
    pub fn upgrade_presync<S>(&self, args: &UpgradePresyncArg, topic: &str, send: S) -> (report:
        DispatchReport) where S: Fn(&str, &UpgradeIntentMessage) -> Result<String, SendError>
        requires
            forall|t: &str, m: &UpgradeIntentMessage| call_requires(send, (t, m)),
        ensures
            report.last_attempt.attempt_number <= self@.max_retry,
            exists|trace: DispatchTrace|
                is_run_of(
                    trace,
                    send,
                    topic,
                    *args,
                    self@.graph_stack.graph_account@,
                    self@.max_retry,
                    report,
                ),
    {
        let max_retry: u64 = self.config().max_retry;
        let ghost graph_account = self@.graph_stack.graph_account@;
        let mut attempt_number: u64 = 0;
        let mut previous: Option<i64> = None;
        let ghost mut trace: DispatchTrace = Seq::empty();
        loop
            invariant
                max_retry == self@.max_retry,
                graph_account == self@.graph_stack.graph_account@,
                forall|t: &str, m: &UpgradeIntentMessage| call_requires(send, (t, m)),
                attempt_number <= max_retry,
                trace.len() == attempt_number,
                previous == if attempt_number == 0 {
                    None::<i64>
                } else {
                    Some(trace.last().0.nonce)
                },
                forall|i: int|
                    0 <= i < trace.len() ==> call_ensures(
                        send,
                        (topic, &(#[trigger] trace[i]).0),
                        trace[i].1,
                    ),
                forall|i: int|
                    0 <= i < trace.len() ==> (#[trigger] trace[i]).0@ == intent_message(
                        *args,
                        graph_account,
                        trace[i].0.nonce,
                    ),
                forall|i: int, j: int|
                    0 <= i <= j < trace.len() ==> (#[trigger] trace[i]).0.nonce <= (
                    #[trigger] trace[j]).0.nonce,
                forall|i: int| 0 <= i < trace.len() ==> (#[trigger] trace[i]).1 is Err,
                run(max_retry, outcomes_of(trace)) == DispatchState::Attempting(attempt_number),
            decreases max_retry - attempt_number,
        {
            let (attempt, outcome) = self.gossip_one_shot(
                args,
                topic,
                attempt_number,
                previous,
                &send,
            );
            let ghost earlier = trace;
            proof {
                trace = earlier.push((attempt.payload, outcome));
                assert(outcomes_of(trace).drop_last() =~= outcomes_of(earlier));
            }
            let sent_at: i64 = attempt.sent_at;
            match DispatchState::Attempting(attempt_number).advance(outcome, max_retry) {
                DispatchState::Attempting(next_number) => {
                    previous = Some(sent_at);
                    attempt_number = next_number;
                },
                DispatchState::Succeeded(message_id) => {
                    let report = DispatchReport { result: Ok(message_id), last_attempt: attempt };
                    assert(is_run_of(
                        trace,
                        send,
                        topic,
                        *args,
                        graph_account,
                        max_retry,
                        report,
                    ));
                    return report;
                },
                DispatchState::ExhaustedRetries(error) => {
                    let report = DispatchReport { result: Err(error), last_attempt: attempt };
                    assert(is_run_of(
                        trace,
                        send,
                        topic,
                        *args,
                        graph_account,
                        max_retry,
                        report,
                    ));
                    return report;
                },
            }
        }
    }
}

} // verus!
