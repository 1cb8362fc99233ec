//! Sending with a bounded number of retries, as a state machine.
//!
//! One logical send is a run of attempts. Each attempt carries a payload
//! built for it alone, stamped with a time that never runs backwards within
//! the run. The run ends with the first attempt that is sent, or with the
//! failure of the last attempt that the bound allows.

use crate::config::UpgradePresyncArg;
use crate::messages::upgrade::{UpgradeIntentMessage, UpgradeIntentMessageView};
use vstd::prelude::*;
use vstd::string::*;

verus! {

/// Why a message could not be sent.
#[derive(Debug, Clone, PartialEq, Eq)]
pub struct SendError {
    pub reason: String,
}

/// One attempt to send: its number within the run, counted from zero, what
/// is sent, and when it was issued.
#[derive(Debug, Clone, PartialEq, Eq)]
pub struct DispatchAttempt {
    pub attempt_number: u64,
    pub payload: UpgradeIntentMessage,
    pub sent_at: i64,
}

/// Where a run stands.
#[derive(Debug, Clone, PartialEq, Eq)]
pub enum DispatchState {
    /// The attempt with this number is due or under way.
    Attempting(u64),
    /// An attempt was sent; this is the id of its message.
    Succeeded(String),
    /// The last attempt that the bound allows has failed; this is its error.
    ExhaustedRetries(SendError),
}

/// How a run ended.
#[derive(Debug, PartialEq, Eq)]
pub struct DispatchReport {
    /// The id of the message that was sent, or the error of the last attempt.
    pub result: Result<String, SendError>,
    /// The attempt that ended the run.
    pub last_attempt: DispatchAttempt,
}

impl DispatchState {
    /// Whether the run is over.
    pub open spec fn is_terminal(self) -> bool {
        !(self is Attempting)
    }

    /// The state that follows when `outcome` comes back for the attempt
    /// under way. A run that is over stays as it is.
    pub open spec fn after(self, outcome: Result<String, SendError>, max_retry: u64) -> DispatchState {
        match self {
            DispatchState::Attempting(n) => match outcome {
                Ok(message_id) => DispatchState::Succeeded(message_id),
                Err(error) => if n < max_retry {
                    DispatchState::Attempting((n + 1) as u64)
                } else {
                    DispatchState::ExhaustedRetries(error)
                },
            },
            _ => self,
        }
    }

    /// The state in which every run begins.
    pub fn start() -> (state: DispatchState)
        ensures
            state == DispatchState::Attempting(0),
    {
        DispatchState::Attempting(0)
    }

    /// Takes the outcome of the attempt under way and gives the next state.
    pub fn advance(self, outcome: Result<String, SendError>, max_retry: u64) -> (next:
        DispatchState)
        ensures
            next == self.after(outcome, max_retry),
    {
        match self {
            DispatchState::Attempting(n) => match outcome {
                Ok(message_id) => DispatchState::Succeeded(message_id),
                Err(error) => if n < max_retry {
                    DispatchState::Attempting(n + 1)
                } else {
                    DispatchState::ExhaustedRetries(error)
                },
            },
            DispatchState::Succeeded(message_id) => DispatchState::Succeeded(message_id),
            DispatchState::ExhaustedRetries(error) => DispatchState::ExhaustedRetries(error),
        }
    }

    /// The number of the attempt that is due, while there is one.
    pub fn attempt_number(&self) -> (n: Option<u64>)
        ensures
            n == match *self {
                DispatchState::Attempting(k) => Some(k),
                _ => None,
            },
    {
        match self {
            DispatchState::Attempting(k) => Some(*k),
            _ => None,
        }
    }
}

impl DispatchReport {
    /// How many attempts the run took.
    pub open spec fn attempts_made(self) -> nat {
        (self.last_attempt.attempt_number + 1) as nat
    }

    /// The state in which the run ended.
    pub open spec fn final_state(self) -> DispatchState {
        match self.result {
            Ok(message_id) => DispatchState::Succeeded(message_id),
            Err(error) => DispatchState::ExhaustedRetries(error),
        }
    }
}

/// The step of the state machine under the bound `max_retry`, as a value.
pub open spec fn step_fn(max_retry: u64) -> spec_fn(
    DispatchState,
    Result<String, SendError>,
) -> DispatchState {
    |state: DispatchState, outcome: Result<String, SendError>| state.after(outcome, max_retry)
}

/// The state of a run after the given outcomes, the earliest first.
pub open spec fn run(max_retry: u64, outcomes: Seq<Result<String, SendError>>) -> DispatchState {
    outcomes.fold_left(DispatchState::Attempting(0), step_fn(max_retry))
}

/// When a payload is issued: at the reading of the clock, unless an earlier
/// payload of the run bears a later time, which is then kept.
pub open spec fn issuance_time(previous: Option<i64>, now: i64) -> i64 {
    match previous {
        Some(earlier) => if earlier > now {
            earlier
        } else {
            now
        },
        None => now,
    }
}

/// The times at which the payloads of a run are issued, given what the
/// clock read before each attempt.
pub open spec fn issuance_times(clock: Seq<i64>) -> Seq<i64>
    decreases clock.len(),
{
    if clock.len() == 0 {
        Seq::empty()
    } else {
        let before = issuance_times(clock.drop_last());
        let previous = if before.len() == 0 {
            None
        } else {
            Some(before.last())
        };
        before.push(issuance_time(previous, clock.last()))
    }
}

/// The upgrade intent for `args`, sent by `graph_account` and issued at
/// `nonce`.
pub open spec fn intent_message(
    args: UpgradePresyncArg,
    graph_account: Seq<char>,
    nonce: i64,
) -> UpgradeIntentMessageView {
    UpgradeIntentMessageView {
        subgraph_id: args.subgraph_id@,
        new_hash: args.new_hash@,
        nonce,
        graph_account,
    }
}

/// Builds the attempt with the given number: a payload of its own, issued
/// at `now` or, should the clock have gone back, at the time of the attempt
/// before it.
pub fn prepare_attempt(
    args: &UpgradePresyncArg,
    graph_account: &String,
    attempt_number: u64,
    previous: Option<i64>,
    now: i64,
) -> (attempt: DispatchAttempt)
    ensures
        attempt.attempt_number == attempt_number,
        attempt.sent_at == issuance_time(previous, now),
        attempt.sent_at >= now,
        previous matches Some(earlier) ==> attempt.sent_at >= earlier,
        attempt.payload@ == intent_message(*args, graph_account@, attempt.sent_at),
{
    let sent_at: i64 = match previous {
        Some(earlier) => if earlier > now {
            earlier
        } else {
            now
        },
        None => now,
    };
    let payload = UpgradeIntentMessage::build(
        args.subgraph_id.clone(),
        args.new_hash.clone(),
        sent_at,
        graph_account.clone(),
    );
    DispatchAttempt { attempt_number, payload, sent_at }
}

/// A run that is over takes no notice of further outcomes.
pub proof fn lemma_terminal_state_stays(
    state: DispatchState,
    outcome: Result<String, SendError>,
    max_retry: u64,
)
    requires
        state.is_terminal(),
    ensures
        state.after(outcome, max_retry) == state,
{
}

/// While every attempt fails and the bound is not used up, the run goes on:
/// after `k` failures, `k` no greater than the bound, attempt `k` is due.
pub proof fn lemma_failures_keep_attempting(
    max_retry: u64,
    outcomes: Seq<Result<String, SendError>>,
)
    requires
        outcomes.len() <= max_retry,
        forall|i: int| 0 <= i < outcomes.len() ==> (#[trigger] outcomes[i]) is Err,
    ensures
        run(max_retry, outcomes) == DispatchState::Attempting(outcomes.len() as u64),
    decreases outcomes.len(),
{
    if outcomes.len() > 0 {
        let shorter = outcomes.drop_last();
        assert forall|i: int| 0 <= i < shorter.len() implies (#[trigger] shorter[i]) is Err by {}
        lemma_failures_keep_attempting(max_retry, shorter);
    }
}

/// With a bound of `max_retry` and a send that always fails, the run makes
/// `max_retry + 1` attempts, neither more nor fewer: before each of them an
/// attempt is due, and the failure of the last one ends the run with its
/// error.
pub proof fn lemma_always_failing_exhausts(
    max_retry: u64,
    outcomes: Seq<Result<String, SendError>>,
)
    requires
        outcomes.len() == max_retry + 1,
        forall|i: int| 0 <= i < outcomes.len() ==> (#[trigger] outcomes[i]) is Err,
    ensures
        forall|k: int|
            0 <= k <= max_retry ==> #[trigger] run(max_retry, outcomes.take(k))
                == DispatchState::Attempting(k as u64),
        run(max_retry, outcomes) == DispatchState::ExhaustedRetries(outcomes.last()->Err_0),
{
    assert forall|k: int| 0 <= k <= max_retry implies #[trigger] run(max_retry, outcomes.take(k))
        == DispatchState::Attempting(k as u64) by {
        let prefix = outcomes.take(k);
        assert forall|i: int| 0 <= i < prefix.len() implies (#[trigger] prefix[i]) is Err by {}
        lemma_failures_keep_attempting(max_retry, prefix);
    }
    assert(run(max_retry, outcomes.take(max_retry as int)) == DispatchState::Attempting(max_retry));
}

/// With a bound of `max_retry` and a send that first succeeds on attempt
/// `k`, `k` no greater than the bound, the run makes `k + 1` attempts,
/// neither more nor fewer, and ends with the message id of attempt `k`.
pub proof fn lemma_success_ends_run(
    max_retry: u64,
    outcomes: Seq<Result<String, SendError>>,
    k: int,
)
    requires
        0 <= k <= max_retry,
        outcomes.len() == k + 1,
        forall|i: int| 0 <= i < k ==> (#[trigger] outcomes[i]) is Err,
        outcomes[k] is Ok,
    ensures
        forall|j: int|
            0 <= j <= k ==> #[trigger] run(max_retry, outcomes.take(j))
                == DispatchState::Attempting(j as u64),
        run(max_retry, outcomes) == DispatchState::Succeeded(outcomes[k]->Ok_0),
{
    assert forall|j: int| 0 <= j <= k implies #[trigger] run(max_retry, outcomes.take(j))
        == DispatchState::Attempting(j as u64) by {
        let prefix = outcomes.take(j);
        assert forall|i: int| 0 <= i < prefix.len() implies (#[trigger] prefix[i]) is Err by {}
        lemma_failures_keep_attempting(max_retry, prefix);
    }
    assert(run(max_retry, outcomes.take(k)) == DispatchState::Attempting(k as u64));
}

/// Whatever the clock reads, the payloads of a run are issued in order:
/// none earlier than the one before it, and none earlier than the clock
/// read when it was built.
pub proof fn lemma_issuance_times_never_go_back(clock: Seq<i64>)
    ensures
        issuance_times(clock).len() == clock.len(),
        forall|i: int| 0 <= i < clock.len() ==> (#[trigger] issuance_times(clock)[i]) >= clock[i],
        forall|i: int, j: int|
            0 <= i <= j < clock.len() ==> (#[trigger] issuance_times(clock)[i]) <= (
            #[trigger] issuance_times(clock)[j]),
    decreases clock.len(),
{
    if clock.len() > 0 {
        let shorter = clock.drop_last();
        lemma_issuance_times_never_go_back(shorter);
        let times = issuance_times(clock);
        assert forall|i: int| 0 <= i < clock.len() implies (#[trigger] times[i]) >= clock[i] by {}
        assert forall|i: int, j: int| 0 <= i <= j < clock.len() implies (#[trigger] times[i]) <= (
        #[trigger] times[j]) by {}
    }
}

} // verus!
