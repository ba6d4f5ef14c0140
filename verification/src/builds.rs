//! Build orchestration: independent builds of one release, each with its own
//! retry budget.

pub use crate::build_error::BuildError;
use crate::failure::FailureReason;
use crate::repro::BuildArtifact;
use crate::retry::{RetryDecision, RetryPolicy};
use vstd::prelude::*;
use vstd::string::*;

verus! {

/// Result type for build operations.
pub type BuildResult<T> = Result<T, BuildError>;

/// How the orchestrator treats what a build attempt reported.
#[derive(Debug, Clone, Copy, PartialEq, Eq, Structural)]
pub enum AttemptClass {
    /// The attempt produced an artifact.
    Success,
    /// The attempt failed in a way that may pass on resubmission.
    Retryable,
    /// The attempt failed for good: resubmission cannot help.
    Permanent,
}

/// Where one build environment stands.
#[derive(Debug)]
pub enum SlotState {
    /// No final outcome yet.
    Pending,
    /// The attempt succeeded, with this artifact.
    Succeeded(BuildArtifact),
    /// The attempt failed for good.
    Failed(FailureReason),
}

/// One independent build environment of a run.
#[derive(Debug)]
pub struct AttemptSlot {
    /// Resubmissions made so far.
    pub retries: u32,
    /// Current state.
    pub state: SlotState,
}

/// A request to build the release in one clean environment.
#[derive(Debug)]
pub struct BuildRequest {
    /// The release to build.
    pub release_id: u64,
    /// The environment to build in.
    pub environment: usize,
    /// The source reference to build from.
    pub source_ref: String,
    /// The build recipe.
    pub recipe: String,
    /// Seconds after which the attempt counts as timed out.
    pub timeout: u64,
}

/// What the caller does after an attempt's outcome was recorded.
#[derive(Debug, Clone, Copy, PartialEq, Eq, Structural)]
pub enum BuildAction {
    /// The outcome is final for that environment.
    Recorded,
    /// Submit the attempt of this environment again, after the delay.
    Resubmit { environment: usize, delay: u64 },
    /// The outcome was not recorded: no such environment, or its outcome is
    /// already final.
    Ignored,
}

/// The state of the build stage as a whole.
#[derive(Debug)]
pub enum BuildOutcome {
    /// Some attempt has no final outcome yet, and none has failed.
    Pending,
    /// Every attempt succeeded: the artifacts, one per environment in order.
    Succeeded(Vec<BuildArtifact>),
    /// An attempt failed for good.
    Failed(FailureReason),
}

/// The build attempts of one release.
#[derive(Debug)]
pub struct BuildRun {
    /// The release being built.
    pub release_id: u64,
    /// One slot per environment.
    pub slots: Vec<AttemptSlot>,
}

/// Drives the independent builds of a release.
#[derive(Debug, Clone, Copy)]
pub struct BuildService {
    attempts: usize,
    retry: RetryPolicy,
    attempt_timeout: u64,
}

/// Classification of a reported outcome: an artifact is a success, a
/// transient error is retryable, any other error is permanent.
pub open spec fn spec_classify(result: Result<BuildArtifact, BuildError>) -> AttemptClass {
    match result {
        Ok(_) => AttemptClass::Success,
        Err(e) => if e.reason().is_retryable() {
            AttemptClass::Retryable
        } else {
            AttemptClass::Permanent
        },
    }
}

/// Classifies what a build attempt reported.
pub fn classify(result: &Result<BuildArtifact, BuildError>) -> (class: AttemptClass)
    ensures
        class == spec_classify(*result),
{
    match result {
        Ok(_) => AttemptClass::Success,
        Err(e) => if e.reason().is_retryable() {
            AttemptClass::Retryable
        } else {
            AttemptClass::Permanent
        },
    }
}

/// No slot before position `end` has failed.
pub open spec fn none_failed_up_to(slots: Seq<AttemptSlot>, end: int) -> bool {
    forall|i: int| 0 <= i < end ==> !((#[trigger] slots[i]).state is Failed)
}

/// Every slot before position `end` has succeeded.
pub open spec fn all_succeeded_up_to(slots: Seq<AttemptSlot>, end: int) -> bool {
    forall|i: int| 0 <= i < end ==> (#[trigger] slots[i]).state is Succeeded
}

impl BuildRun {
    /// The outcome of the stage, as a function of the slots:
    /// - failed, with the reason of the first failed slot, if any slot failed;
    /// - else pending, if any slot is pending;
    /// - else succeeded, with a copy of each slot's artifact in order.
    pub open spec fn outcome_holds(&self, outcome: BuildOutcome) -> bool {
        let slots = self.slots@;
        match outcome {
            BuildOutcome::Failed(reason) => exists|i: int|
                {
                    &&& 0 <= i < slots.len()
                    &&& none_failed_up_to(slots, i)
                    &&& (#[trigger] slots[i]).state matches SlotState::Failed(r)
                    &&& r == reason
                },
            BuildOutcome::Pending => {
                &&& none_failed_up_to(slots, slots.len() as int)
                &&& !all_succeeded_up_to(slots, slots.len() as int)
            },
            BuildOutcome::Succeeded(artifacts) => {
                &&& all_succeeded_up_to(slots, slots.len() as int)
                &&& artifacts@.len() == slots.len()
                &&& forall|i: int|
                    0 <= i < slots.len() ==> (
                    (#[trigger] slots[i]).state matches SlotState::Succeeded(a) && a@
                        == artifacts@[i]@)
            },
        }
    }

    /// The environments whose attempt has no final outcome yet, in
    /// ascending order: what a worker that resumes the run still has to
    /// wait for or submit; what is recorded is not run again.
    pub fn pending(&self) -> (open: Vec<usize>)
        ensures
            forall|k: int| 0 <= k < open@.len() ==> (#[trigger] open@[k]) < self.slots@.len(),
            forall|k: int|
                0 <= k < open@.len() ==> self.slots@[(#[trigger] open@[k]) as int].state
                    is Pending,
            forall|k: int, m: int| 0 <= k < m < open@.len() ==> open@[k] < open@[m],
            forall|i: int|
                0 <= i < self.slots@.len() && (#[trigger] self.slots@[i]).state is Pending
                    ==> open@.contains(i as usize),
    {
        let mut open: Vec<usize> = Vec::new();
        let mut i: usize = 0;
        while i < self.slots.len()
            invariant
                i <= self.slots@.len(),
                forall|k: int| 0 <= k < open@.len() ==> (#[trigger] open@[k]) < i,
                forall|k: int|
                    0 <= k < open@.len() ==> self.slots@[(#[trigger] open@[k]) as int].state
                        is Pending,
                forall|k: int, m: int| 0 <= k < m < open@.len() ==> open@[k] < open@[m],
                forall|j: int|
                    0 <= j < i && (#[trigger] self.slots@[j]).state is Pending ==> open@.contains(
                        j as usize,
                    ),
            decreases self.slots.len() - i,
        {
            if matches!(self.slots[i].state, SlotState::Pending) {
                let ghost before = open@;
                open.push(i);
                proof {
                    assert(open@[before.len() as int] == i);
                    assert forall|j: int|
                        0 <= j < i + 1 && (#[trigger] self.slots@[j]).state
                            is Pending implies open@.contains(j as usize) by {
                        if j < i {
                            let k = choose|k: int| 0 <= k < before.len() && before[k] == j as usize;
                            assert(open@[k] == j as usize);
                        }
                    }
                }
            }
            i = i + 1;
        }
        open
    }

    /// Reports where the build stage stands.
    pub fn collect(&self) -> (outcome: BuildOutcome)
        ensures
            self.outcome_holds(outcome),
    {
        let mut i: usize = 0;
        while i < self.slots.len()
            invariant
                i <= self.slots.len(),
                none_failed_up_to(self.slots@, i as int),
            decreases self.slots.len() - i,
        {
            match &self.slots[i].state {
                SlotState::Failed(reason) => {
                    return BuildOutcome::Failed(*reason);
                },
                _ => {},
            }
            i = i + 1;
        }
        let mut artifacts: Vec<BuildArtifact> = Vec::new();
        let mut k: usize = 0;
        while k < self.slots.len()
            invariant
                k <= self.slots.len(),
                none_failed_up_to(self.slots@, self.slots@.len() as int),
                all_succeeded_up_to(self.slots@, k as int),
                artifacts@.len() == k,
                forall|j: int|
                    0 <= j < k ==> ((#[trigger] self.slots@[j]).state matches SlotState::Succeeded(
                        a,
                    ) && a@ == artifacts@[j]@),
            decreases self.slots.len() - k,
        {
            match &self.slots[k].state {
                SlotState::Succeeded(a) => {
                    artifacts.push(a.duplicate());
                },
                _ => {
                    assert(!(self.slots@[k as int].state is Succeeded));
                    return BuildOutcome::Pending;
                },
            }
            k = k + 1;
        }
        BuildOutcome::Succeeded(artifacts)
    }
}

impl BuildService {
    /// The service is usable: it runs at least two independent builds.
    pub open spec fn wf(&self) -> bool {
        self.spec_attempts() >= 2
    }

    /// Number of independent builds per release.
    pub closed spec fn spec_attempts(&self) -> usize {
        self.attempts
    }

    /// Retry budget of each attempt.
    pub closed spec fn spec_retry(&self) -> RetryPolicy {
        self.retry
    }

    /// Seconds that one attempt may take.
    pub closed spec fn spec_attempt_timeout(&self) -> u64 {
        self.attempt_timeout
    }

    /// Create a build service with the default settings: two independent
    /// builds, each resubmitted at most twice, half an hour per attempt.
    #[must_use]
    pub fn new() -> (service: Self)
        ensures
            service.wf(),
            service.spec_attempts() == 2,
            service.spec_retry() == (RetryPolicy { max_retries: 2, base_delay: 5, max_delay: 300 }),
            service.spec_attempt_timeout() == 1800,
    {
        BuildService {
            attempts: 2,
            retry: RetryPolicy { max_retries: 2, base_delay: 5, max_delay: 300 },
            attempt_timeout: 1800,
        }
    }

    /// Create a build service that runs `attempts` independent builds.
    /// Fewer than two builds cannot show reproducibility and are refused.
    pub fn with_settings(attempts: usize, retry: RetryPolicy, attempt_timeout: u64) -> (result:
        Result<Self, BuildError>)
        ensures
            match result {
                Ok(service) => attempts >= 2 && service.wf() && service.spec_attempts()
                    == attempts && service.spec_retry() == retry
                    && service.spec_attempt_timeout() == attempt_timeout,
                Err(BuildError::InvalidConfig(detail)) => attempts < 2 && detail@
                    == "at least two independent builds are required"@,
                Err(_) => false,
            },
    {
        if attempts < 2 {
            Err(
                BuildError::InvalidConfig(
                    String::from_str("at least two independent builds are required"),
                ),
            )
        } else {
            Ok(BuildService { attempts, retry, attempt_timeout })
        }
    }

    /// Number of independent builds per release.
    #[verifier::when_used_as_spec(spec_attempts)]
    pub fn attempts(&self) -> (n: usize)
        ensures
            n == self.spec_attempts(),
    {
        self.attempts
    }

    /// Retry budget of each attempt.
    #[verifier::when_used_as_spec(spec_retry)]
    pub fn retry(&self) -> (p: RetryPolicy)
        ensures
            p == self.spec_retry(),
    {
        self.retry
    }

    /// Seconds that one attempt may take.
    #[verifier::when_used_as_spec(spec_attempt_timeout)]
    pub fn attempt_timeout(&self) -> (t: u64)
        ensures
            t == self.spec_attempt_timeout(),
    {
        self.attempt_timeout
    }

    /// Whether an attempt submitted at `submitted_at` has run out of time at
    /// `now`.
    pub fn timed_out(&self, submitted_at: u64, now: u64) -> (expired: bool)
        ensures
            expired == (now - submitted_at >= self.attempt_timeout()),
    {
        now >= submitted_at && now - submitted_at >= self.attempt_timeout
    }

    /// What to record for an attempt that was polled at `now`: what it
    /// reported, if it has reported; a timeout, if it has not and its time has
    /// run out; nothing yet otherwise.
    pub fn polled(
        &self,
        reported: Option<Result<BuildArtifact, BuildError>>,
        submitted_at: u64,
        now: u64,
    ) -> (result: Option<Result<BuildArtifact, BuildError>>)
        ensures
            result == match reported {
                Some(r) => Some(r),
                None => if now - submitted_at >= self.attempt_timeout() {
                    Some(
                        Err::<BuildArtifact, BuildError>(
                            BuildError::Timeout(self.attempt_timeout()),
                        ),
                    )
                } else {
                    None
                },
            },
    {
        match reported {
            Some(r) => Some(r),
            None => if self.timed_out(submitted_at, now) {
                Some(Err(self.timeout_error()))
            } else {
                None
            },
        }
    }

    /// The error to record for an attempt that has run out of time.
    pub fn timeout_error(&self) -> (error: BuildError)
        ensures
            error == BuildError::Timeout(self.attempt_timeout()),
    {
        BuildError::Timeout(self.attempt_timeout)
    }

    /// What starting the builds of a release yields: a run in which every
    /// environment is pending, and one request per environment, each for its
    /// own environment and all with the same source reference, recipe and
    /// timeout.
    pub open spec fn starts(
        &self,
        release_id: u64,
        source_ref: Seq<char>,
        recipe: Seq<char>,
        started: (BuildRun, Vec<BuildRequest>),
    ) -> bool {
        &&& started.0.release_id == release_id
        &&& started.0.slots@.len() == self.attempts()
        &&& forall|i: int|
            0 <= i < self.attempts() ==> {
                &&& (#[trigger] started.0.slots@[i]).retries == 0
                &&& started.0.slots@[i].state is Pending
            }
        &&& started.1@.len() == self.attempts()
        &&& forall|i: int|
            0 <= i < self.attempts() ==> {
                &&& (#[trigger] started.1@[i]).release_id == release_id
                &&& started.1@[i].environment == i
                &&& started.1@[i].source_ref@ == source_ref
                &&& started.1@[i].recipe@ == recipe
                &&& started.1@[i].timeout == self.attempt_timeout()
            }
    }

    /// Starts the builds of a release: one request per environment, all with
    /// the same source reference and recipe, and a run in which every
    /// environment is pending.
    pub fn start_builds(&self, release_id: u64, source_ref: &str, recipe: &str) -> (started: (
        BuildRun,
        Vec<BuildRequest>,
    ))
        ensures
            self.starts(release_id, source_ref@, recipe@, started),
    {
        let mut slots: Vec<AttemptSlot> = Vec::new();
        let mut requests: Vec<BuildRequest> = Vec::new();
        let mut i: usize = 0;
        while i < self.attempts
            invariant
                i <= self.attempts,
                slots@.len() == i,
                requests@.len() == i,
                forall|j: int|
                    0 <= j < i ==> {
                        &&& (#[trigger] slots@[j]).retries == 0
                        &&& slots@[j].state is Pending
                    },
                forall|j: int|
                    0 <= j < i ==> {
                        &&& (#[trigger] requests@[j]).release_id == release_id
                        &&& requests@[j].environment == j
                        &&& requests@[j].source_ref@ == source_ref@
                        &&& requests@[j].recipe@ == recipe@
                        &&& requests@[j].timeout == self.attempt_timeout
                    },
            decreases self.attempts - i,
        {
            slots.push(AttemptSlot { retries: 0, state: SlotState::Pending });
            requests.push(
                BuildRequest {
                    release_id,
                    environment: i,
                    source_ref: String::from_str(source_ref),
                    recipe: String::from_str(recipe),
                    timeout: self.attempt_timeout,
                },
            );
            i = i + 1;
        }
        (BuildRun { release_id, slots }, requests)
    }

    /// What recording `result` for `environment` does to a slot, and what the
    /// caller does next:
    /// - an artifact makes the slot succeed;
    /// - a retryable error, while the slot's budget lasts, counts one more
    ///   retry and asks for resubmission of that attempt only;
    /// - any other error, or a retryable one with the budget used up, fails
    ///   the slot with the error's reason.
    pub open spec fn spec_record(
        &self,
        slot: AttemptSlot,
        environment: usize,
        result: Result<BuildArtifact, BuildError>,
    ) -> (AttemptSlot, BuildAction) {
        match result {
            Ok(artifact) => (
                AttemptSlot { retries: slot.retries, state: SlotState::Succeeded(artifact) },
                BuildAction::Recorded,
            ),
            Err(e) => match (spec_classify(result), self.retry().spec_decide(slot.retries)) {
                (AttemptClass::Retryable, RetryDecision::RetryAfter(delay)) => (
                    AttemptSlot { retries: (slot.retries + 1) as u32, state: SlotState::Pending },
                    BuildAction::Resubmit { environment, delay },
                ),
                _ => (
                    AttemptSlot { retries: slot.retries, state: SlotState::Failed(e.reason()) },
                    BuildAction::Recorded,
                ),
            },
        }
    }

    /// Records what the attempt of `environment` reported. An outcome for an
    /// unknown environment, or for one whose outcome is already final, is
    /// ignored and leaves the run unchanged.
    pub fn record(
        &self,
        run: &mut BuildRun,
        environment: usize,
        result: Result<BuildArtifact, BuildError>,
    ) -> (action: BuildAction)
        ensures
            final(run).release_id == old(run).release_id,
            environment < old(run).slots@.len() && old(run).slots@[environment as int].state
                is Pending ==> {
                let expected = self.spec_record(
                    old(run).slots@[environment as int],
                    environment,
                    result,
                );
                &&& final(run).slots@ == old(run).slots@.update(environment as int, expected.0)
                &&& action == expected.1
            },
            !(environment < old(run).slots@.len() && old(run).slots@[environment as int].state
                is Pending) ==> {
                &&& *final(run) == *old(run)
                &&& action == BuildAction::Ignored
            },
    {
        if environment >= run.slots.len() {
            return BuildAction::Ignored;
        }
        if !matches!(run.slots[environment].state, SlotState::Pending) {
            return BuildAction::Ignored;
        }
        let retries = run.slots[environment].retries;
        let class = classify(&result);
        let (slot, action) = match result {
            Ok(artifact) => (
                AttemptSlot { retries, state: SlotState::Succeeded(artifact) },
                BuildAction::Recorded,
            ),
            Err(e) => {
                let reason = e.reason();
                let decision = self.retry.decide(retries);
                match (class, decision) {
                    (AttemptClass::Retryable, RetryDecision::RetryAfter(delay)) => (
                        AttemptSlot { retries: retries + 1, state: SlotState::Pending },
                        BuildAction::Resubmit { environment, delay },
                    ),
                    _ => (
                        AttemptSlot { retries, state: SlotState::Failed(reason) },
                        BuildAction::Recorded,
                    ),
                }
            },
        };
        run.slots.set(environment, slot);
        action
    }
}

impl Default for BuildService {
    fn default() -> (service: Self)
        ensures
            service.wf(),
            service.spec_attempts() == 2,
            service.spec_retry() == (RetryPolicy { max_retries: 2, base_delay: 5, max_delay: 300 }),
            service.spec_attempt_timeout() == 1800,
    {
        Self::new()
    }
}

} // verus!
