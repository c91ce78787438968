use crate::interrupt::Interruption;
use crate::report::{after_push, holds_key, Entry, Report, StepResult};
use vstd::prelude::*;

verus! {

/// Settings that hold for the whole run.
#[derive(Debug, Clone, Copy, PartialEq, Eq, Structural)]
pub struct RunOptions {
    /// Never offer to retry a failed step, unless the user interrupted it.
    pub no_retry: bool,
    pub verbose: bool,
    /// Record the steps that declined to run.
    pub show_skipped: bool,
}

/// What the configuration says of one step.
#[derive(Debug, Clone, Copy, PartialEq, Eq, Structural)]
pub struct StepPolicy {
    /// The step is enabled at all.
    pub should_run: bool,
    /// A failure of the step is recorded as `Ignored` and fails nothing.
    pub ignore_failure: bool,
}

/// How one invocation of a step's action ended.
#[derive(Debug, PartialEq, Eq)]
pub enum Attempt {
    /// The action did its work.
    Completed,
    /// The run only simulates: the action did nothing real.
    SimulatedOnly,
    /// A precondition was not met, and the action declined to run.
    DeclinedToRun(String),
    /// The action failed; the text describes the error.
    Failed(String),
}

/// What happened since the runner last decided.
#[derive(Debug, PartialEq, Eq)]
pub enum Event {
    /// The step is about to be executed.
    Begin,
    /// The action ran; `interrupted` says whether the user had interrupted
    /// the run by then (read only after a failure).
    Attempted { attempt: Attempt, interrupted: bool },
    /// The user answered the offer to retry.
    Answered { retry: bool },
}

/// What the caller does next for the current step.
#[derive(Debug, PartialEq, Eq)]
pub enum Next {
    /// Invoke the step's action (again).
    Run,
    /// Show the failure and ask the user whether to retry, saying whether the
    /// run was interrupted; then report the answer.
    AskRetry { interrupted: bool, detail: String },
    /// The step is done.
    Finished,
}

/// A failed attempt leads to an offer to retry when the user interrupted
/// the run, or when neither the run forbids retries nor the step's failures
/// are ignored.
pub open spec fn prompt_offered(o: RunOptions, p: StepPolicy, interrupted: bool) -> bool {
    interrupted || !(o.no_retry || p.ignore_failure)
}

/// The outcome of a step that failed and is not retried.
pub open spec fn given_up(p: StepPolicy) -> StepResult {
    if p.ignore_failure {
        StepResult::Ignored
    } else {
        StepResult::Failure
    }
}

/// The outcome that `e` has the runner record, if any.
pub open spec fn recorded(o: RunOptions, p: StepPolicy, e: Event) -> Option<StepResult> {
    match e {
        Event::Begin => None,
        Event::Attempted { attempt, interrupted } => match attempt {
            Attempt::Completed => Some(StepResult::Success),
            Attempt::SimulatedOnly => None,
            Attempt::DeclinedToRun(reason) => {
                if o.verbose || o.show_skipped {
                    Some(StepResult::Skipped(reason))
                } else {
                    None
                }
            },
            Attempt::Failed(_) => {
                if prompt_offered(o, p, interrupted) {
                    None
                } else {
                    Some(given_up(p))
                }
            },
        },
        Event::Answered { retry } => {
            if retry {
                None
            } else {
                Some(given_up(p))
            }
        },
    }
}

/// What the runner has the caller do after `e`.
pub open spec fn next(o: RunOptions, p: StepPolicy, e: Event) -> Next {
    match e {
        Event::Begin => {
            if p.should_run {
                Next::Run
            } else {
                Next::Finished
            }
        },
        Event::Attempted { attempt, interrupted } => match attempt {
            Attempt::Failed(detail) => {
                if prompt_offered(o, p, interrupted) {
                    Next::AskRetry { interrupted, detail }
                } else {
                    Next::Finished
                }
            },
            _ => Next::Finished,
        },
        Event::Answered { retry } => {
            if retry {
                Next::Run
            } else {
                Next::Finished
            }
        },
    }
}

/// The report entry for an outcome under `key`.
pub open spec fn keyed(key: String, r: Option<StepResult>) -> Option<Entry> {
    match r {
        Some(x) => Some((key, x)),
        None => None,
    }
}

/// Executes steps one at a time and records the outcome of each.
///
/// For each step the caller reports what happened (`Event`) and the runner
/// answers with what to do next (`Next`), until the step is `Finished`. The
/// runner records at most one outcome per step, when it finishes.
pub struct Runner {
    options: RunOptions,
    report: Report,
}

impl Runner {
    pub closed spec fn spec_options(&self) -> RunOptions {
        self.options
    }

    pub closed spec fn spec_report(&self) -> Report {
        self.report
    }

    /// Whether an outcome may be recorded under `key`.
    pub open spec fn admits_key(&self, key: Seq<char>) -> bool {
        self.spec_report().checks_keys() ==> !holds_key(self.spec_report().entries(), key)
    }

    /// A runner with an empty report that accepts repeated keys.
    pub fn new(options: RunOptions) -> (r: Self)
        ensures
            r.spec_options() == options,
            r.spec_report().entries() == Seq::<Entry>::empty(),
            !r.spec_report().checks_keys(),
    {
        Runner { options, report: Report::new() }
    }

    /// A runner with an empty report that demands unique keys.
    pub fn with_key_checks(options: RunOptions) -> (r: Self)
        ensures
            r.spec_options() == options,
            r.spec_report().entries() == Seq::<Entry>::empty(),
            r.spec_report().checks_keys(),
    {
        Runner { options, report: Report::with_key_checks() }
    }

    pub fn options(&self) -> (r: RunOptions)
        ensures
            r == self.spec_options(),
    {
        self.options
    }

    pub fn report(&self) -> (r: &Report)
        ensures
            *r == self.spec_report(),
    {
        &self.report
    }

    /// Decides what follows `event` for the step `key` under `policy`, and
    /// records the step's outcome when it is settled.
    pub fn advance(&mut self, policy: &StepPolicy, key: &String, event: Event) -> (r: Next)
        requires
            old(self).admits_key(key@),
        ensures
            r == next(old(self).spec_options(), *policy, event),
            final(self).spec_report().entries() == after_push(
                old(self).spec_report().entries(),
                keyed(*key, recorded(old(self).spec_options(), *policy, event)),
            ),
            final(self).spec_report().checks_keys() == old(self).spec_report().checks_keys(),
            final(self).spec_options() == old(self).spec_options(),
    {
        let o = self.options;
        match event {
            Event::Begin => {
                if policy.should_run {
                    Next::Run
                } else {
                    Next::Finished
                }
            },
            Event::Attempted { attempt, interrupted } => match attempt {
                Attempt::Completed => {
                    self.report.push_result(Some((key.clone(), StepResult::Success)));
                    Next::Finished
                },
                Attempt::SimulatedOnly => Next::Finished,
                Attempt::DeclinedToRun(reason) => {
                    if o.verbose || o.show_skipped {
                        self.report.push_result(Some((key.clone(), StepResult::Skipped(reason))));
                    }
                    Next::Finished
                },
                Attempt::Failed(detail) => {
                    let ask = interrupted || !(o.no_retry || policy.ignore_failure);
                    if ask {
                        Next::AskRetry { interrupted, detail }
                    } else {
                        self.give_up(policy, key);
                        Next::Finished
                    }
                },
            },
            Event::Answered { retry } => {
                if retry {
                    Next::Run
                } else {
                    self.give_up(policy, key);
                    Next::Finished
                }
            },
        }
    }

    fn give_up(&mut self, policy: &StepPolicy, key: &String)
        requires
            old(self).admits_key(key@),
        ensures
            final(self).spec_report().entries() == old(self).spec_report().entries().push(
                (*key, given_up(*policy)),
            ),
            final(self).spec_report().checks_keys() == old(self).spec_report().checks_keys(),
            final(self).spec_options() == old(self).spec_options(),
    {
        let result = if policy.ignore_failure {
            StepResult::Ignored
        } else {
            StepResult::Failure
        };
        self.report.push_result(Some((key.clone(), result)));
    }

    /// Takes the outcome of one invocation of the step's action. After a
    /// failure it reads and clears the interruption flag, and decides as
    /// `advance` does on what was read; after any other outcome the flag is
    /// left alone.
    pub fn attempt_finished(
        &mut self,
        policy: &StepPolicy,
        key: &String,
        attempt: Attempt,
        interruption: &Interruption,
    ) -> (r: Next)
        requires
            old(self).admits_key(key@),
        ensures
            exists|interrupted: bool|
                {
                    &&& (!(attempt is Failed) ==> !interrupted)
                    &&& r == next(
                        old(self).spec_options(),
                        *policy,
                        (Event::Attempted { attempt, interrupted }),
                    )
                    &&& final(self).spec_report().entries() == after_push(
                        old(self).spec_report().entries(),
                        keyed(
                            *key,
                            recorded(
                                old(self).spec_options(),
                                *policy,
                                (Event::Attempted { attempt, interrupted }),
                            ),
                        ),
                    )
                },
            final(self).spec_report().checks_keys() == old(self).spec_report().checks_keys(),
            final(self).spec_options() == old(self).spec_options(),
    {
        let interrupted = match &attempt {
            Attempt::Failed(_) => interruption.take(),
            _ => false,
        };
        self.advance(policy, key, Event::Attempted { attempt, interrupted })
    }
}

/// A step that the configuration disables is finished before its action
/// runs, and leaves nothing in the report.
pub proof fn lemma_disabled_step_invisible(o: RunOptions, p: StepPolicy)
    requires
        !p.should_run,
    ensures
        next(o, p, Event::Begin) == Next::Finished,
        recorded(o, p, Event::Begin) == None::<StepResult>,
{
}

/// An action that completes records exactly one `Success` and finishes the
/// step, whatever the retry settings and the interruption flag.
pub proof fn lemma_success_recorded_once(o: RunOptions, p: StepPolicy, interrupted: bool)
    ensures
        recorded(o, p, Event::Attempted { attempt: Attempt::Completed, interrupted })
            == Some(StepResult::Success),
        next(o, p, Event::Attempted { attempt: Attempt::Completed, interrupted })
            == Next::Finished,
{
}

/// An action that only simulated its work records nothing and is never
/// offered a retry.
pub proof fn lemma_simulation_silent(o: RunOptions, p: StepPolicy, interrupted: bool)
    ensures
        recorded(o, p, Event::Attempted { attempt: Attempt::SimulatedOnly, interrupted })
            == None::<StepResult>,
        next(o, p, Event::Attempted { attempt: Attempt::SimulatedOnly, interrupted })
            == Next::Finished,
{
}

/// An action that declined to run records `Skipped` with its reason exactly
/// when the run is verbose or shows skipped steps, and nothing otherwise; it
/// is never offered a retry.
pub proof fn lemma_skip_shown_when_asked(
    o: RunOptions,
    p: StepPolicy,
    reason: String,
    interrupted: bool,
)
    ensures
        (recorded(o, p, Event::Attempted { attempt: Attempt::DeclinedToRun(reason), interrupted })
            == Some(StepResult::Skipped(reason))) <==> (o.verbose || o.show_skipped),
        !(o.verbose || o.show_skipped) ==> recorded(
            o,
            p,
            Event::Attempted { attempt: Attempt::DeclinedToRun(reason), interrupted },
        ) == None::<StepResult>,
        next(o, p, Event::Attempted { attempt: Attempt::DeclinedToRun(reason), interrupted })
            == Next::Finished,
{
}

/// Without an interruption, a failure of a step whose failures are ignored
/// records `Ignored` at once, with no offer to retry.
pub proof fn lemma_ignored_failure_not_offered(o: RunOptions, p: StepPolicy, detail: String)
    requires
        p.ignore_failure,
    ensures
        recorded(o, p, Event::Attempted { attempt: Attempt::Failed(detail), interrupted: false })
            == Some(StepResult::Ignored),
        next(o, p, Event::Attempted { attempt: Attempt::Failed(detail), interrupted: false })
            == Next::Finished,
{
}

/// A failure that is not retried, whether the retry was declined or never
/// offered, records `Failure` for a step whose failures are not ignored.
pub proof fn lemma_declined_retry_fails(
    o: RunOptions,
    p: StepPolicy,
    detail: String,
    interrupted: bool,
)
    requires
        !p.ignore_failure,
    ensures
        recorded(o, p, Event::Answered { retry: false }) == Some(StepResult::Failure),
        next(o, p, Event::Answered { retry: false }) == Next::Finished,
        !prompt_offered(o, p, interrupted) ==> recorded(
            o,
            p,
            Event::Attempted { attempt: Attempt::Failed(detail), interrupted },
        ) == Some(StepResult::Failure),
{
}

/// A failure after the user interrupted the run is always offered a retry,
/// whatever the retry settings, and records nothing until it is answered.
pub proof fn lemma_interruption_offers_retry(o: RunOptions, p: StepPolicy, detail: String)
    ensures
        next(o, p, Event::Attempted { attempt: Attempt::Failed(detail), interrupted: true })
            == (Next::AskRetry { interrupted: true, detail }),
        recorded(o, p, Event::Attempted { attempt: Attempt::Failed(detail), interrupted: true })
            == None::<StepResult>,
{
}

/// An outcome is recorded only by the event that finishes the step, so a
/// step that is driven until it finishes leaves at most one entry.
pub proof fn lemma_recorded_only_when_finished(o: RunOptions, p: StepPolicy, e: Event)
    ensures
        recorded(o, p, e) is Some ==> next(o, p, e) == Next::Finished,
{
}

} // verus!
