use vstd::prelude::*;

verus! {

/// The number of attempts a download gets.
pub const MAX_ATTEMPTS: u32 = 3;

/// How one download attempt ended.
#[derive(Debug, Clone, PartialEq, Eq)]
pub enum AttemptOutcome {
    /// The server answered with this HTTP status, and the body was stored where the status
    /// was a success.
    Response(u16),
    /// The request failed below HTTP; the text describes why.
    NetworkError(String),
}

/// Why an attempt failed.
#[derive(Debug, Clone, PartialEq, Eq)]
pub enum FailureReason {
    HttpStatus(u16),
    Network(String),
}

/// What to do after an attempt.
#[derive(Debug, Clone, PartialEq, Eq)]
pub enum DownloadAction {
    /// The file is stored; stop.
    Done,
    /// Wait this many seconds, then try again.
    Retry { wait_secs: u64 },
    /// Every attempt failed; the download fails for this last reason.
    GiveUp(FailureReason),
}

pub open spec fn status_is_success(code: u16) -> bool {
    200 <= code <= 299
}

/// The failure an outcome stands for, or `None` for a success.
pub open spec fn failure_of(o: AttemptOutcome) -> Option<FailureReason> {
    match o {
        AttemptOutcome::Response(code) => if status_is_success(code) {
            None
        } else {
            Some(FailureReason::HttpStatus(code))
        },
        AttemptOutcome::NetworkError(e) => Some(FailureReason::Network(e)),
    }
}

/// The action once attempt number `attempt` (counted from 1) ended with `o`: a failed
/// attempt `n` before the last waits `2n` seconds.
pub open spec fn action_after(attempt: nat, o: AttemptOutcome) -> DownloadAction {
    match failure_of(o) {
        None => DownloadAction::Done,
        Some(f) => if attempt < MAX_ATTEMPTS {
            DownloadAction::Retry { wait_secs: (2 * attempt) as u64 }
        } else {
            DownloadAction::GiveUp(f)
        },
    }
}

/// Drives the retry policy over the outcomes that successive attempts would have, after
/// `done` attempts; gives the number of attempts made and the final action (`None` where
/// the outcomes ran out first).
pub open spec fn run_attempts(done: nat, outcomes: Seq<AttemptOutcome>) -> (nat, Option<DownloadAction>)
    decreases outcomes.len(),
{
    if outcomes.len() == 0 {
        (done, None)
    } else {
        let a = action_after(done + 1, outcomes[0]);
        if a is Retry {
            run_attempts(done + 1, outcomes.drop_first())
        } else {
            (done + 1, Some(a))
        }
    }
}

/// Whether an HTTP status counts as success (2xx).
pub fn is_success_status(code: u16) -> (r: bool)
    ensures
        r == status_is_success(code),
{
    200 <= code && code <= 299
}

/// The retry state of one download.
#[derive(Debug, Clone)]
pub struct DownloadRetry {
    /// Attempts made so far.
    pub attempts: u32,
    /// Why the latest failed attempt failed.
    pub last_failure: Option<FailureReason>,
}

impl DownloadRetry {
    pub open spec fn wf(&self) -> bool {
        self.attempts <= MAX_ATTEMPTS
    }

    /// A download before its first attempt.
    pub fn new() -> (r: DownloadRetry)
        ensures
            r.wf(),
            r.attempts == 0,
            r.last_failure is None,
    {
        DownloadRetry { attempts: 0, last_failure: None }
    }

    /// Whether the policy has stopped: a further attempt is not allowed.
    pub fn finished(&self) -> (r: bool)
        ensures
            r == (self.attempts >= MAX_ATTEMPTS),
    {
        self.attempts >= MAX_ATTEMPTS
    }

    /// Records how the next attempt ended and says what to do: stop on success; wait `2n`
    /// seconds after a failed attempt `n` while attempts are left; else give up with the
    /// reason of this last failure.
    pub fn record(&mut self, outcome: AttemptOutcome) -> (a: DownloadAction)
        requires
            old(self).attempts < MAX_ATTEMPTS,
        ensures
            final(self).wf(),
            final(self).attempts == old(self).attempts + 1,
            final(self).last_failure == match failure_of(outcome) {
                Some(f) => Some(f),
                None => old(self).last_failure,
            },
            a == action_after(final(self).attempts as nat, outcome),
    {
        self.attempts = self.attempts + 1;
        let (kept, failure) = match outcome {
            AttemptOutcome::Response(code) => {
                if is_success_status(code) {
                    return DownloadAction::Done;
                }
                (FailureReason::HttpStatus(code), FailureReason::HttpStatus(code))
            },
            AttemptOutcome::NetworkError(e) => (FailureReason::Network(e.clone()), FailureReason::Network(e)),
        };
        self.last_failure = Some(kept);
        if self.attempts < MAX_ATTEMPTS {
            DownloadAction::Retry { wait_secs: 2 * (self.attempts as u64) }
        } else {
            DownloadAction::GiveUp(failure)
        }
    }
}

/// Under sustained failure a download is attempted exactly three times, and then fails
/// with the reason of the third attempt.
pub proof fn lemma_sustained_failure_gives_up(outcomes: Seq<AttemptOutcome>)
    requires
        outcomes.len() >= 3,
        forall|i: int| 0 <= i < 3 ==> (#[trigger] failure_of(outcomes[i])) is Some,
    ensures
        run_attempts(0, outcomes) == (3nat, Some(DownloadAction::GiveUp(failure_of(outcomes[2])->Some_0))),
{
    assert(failure_of(outcomes[0]) is Some);
    assert(failure_of(outcomes[1]) is Some);
    assert(failure_of(outcomes[2]) is Some);
    let o1 = outcomes.drop_first();
    let o2 = o1.drop_first();
    assert(o1[0] == outcomes[1]);
    assert(o2[0] == outcomes[2]);
    assert(run_attempts(2, o2) == (3nat, Some(DownloadAction::GiveUp(failure_of(outcomes[2])->Some_0))));
    assert(run_attempts(1, o1) == run_attempts(2, o2));
    assert(run_attempts(0, outcomes) == run_attempts(1, o1));
}

/// A download whose first attempt succeeds makes that one attempt only.
pub proof fn lemma_first_success_single_attempt(outcomes: Seq<AttemptOutcome>)
    requires
        outcomes.len() >= 1,
        failure_of(outcomes[0]) is None,
    ensures
        run_attempts(0, outcomes) == (1nat, Some(DownloadAction::Done)),
{
}

/// Whatever the outcomes, no download makes more than three attempts.
pub proof fn lemma_attempts_bounded(done: nat, outcomes: Seq<AttemptOutcome>)
    requires
        done < MAX_ATTEMPTS,
    ensures
        run_attempts(done, outcomes).0 <= MAX_ATTEMPTS,
    decreases outcomes.len(),
{
    if outcomes.len() > 0 && action_after(done + 1, outcomes[0]) is Retry {
        lemma_attempts_bounded(done + 1, outcomes.drop_first());
    }
}

} // verus!
