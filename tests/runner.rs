use step_runner::interrupt::Interruption;
use step_runner::report::StepResult;
use step_runner::runner::{Attempt, Event, Next, RunOptions, Runner, StepPolicy};

fn options(no_retry: bool, verbose: bool, show_skipped: bool) -> RunOptions {
    RunOptions { no_retry, verbose, show_skipped }
}

fn policy(should_run: bool, ignore_failure: bool) -> StepPolicy {
    StepPolicy { should_run, ignore_failure }
}

fn attempted(attempt: Attempt, interrupted: bool) -> Event {
    Event::Attempted { attempt, interrupted }
}

#[test]
fn runner_records_success_and_failure() {
    let mut runner = Runner::new(options(true, false, false));
    let bin = policy(true, false);

    let ok = "ok".to_string();
    assert_eq!(runner.advance(&bin, &ok, Event::Begin), Next::Run);
    assert_eq!(runner.advance(&bin, &ok, attempted(Attempt::Completed, false)), Next::Finished);
    let fail = "fail".to_string();
    assert_eq!(runner.advance(&bin, &fail, Event::Begin), Next::Run);
    let next = runner.advance(&bin, &fail, attempted(Attempt::Failed("boom".to_string()), false));
    assert_eq!(next, Next::Finished);

    let mut seen_ok = false;
    let mut seen_fail = false;
    for (k, v) in runner.report().data() {
        if k == "ok" {
            assert!(matches!(v, StepResult::Success));
            seen_ok = true;
        }
        if k == "fail" {
            assert!(matches!(v, StepResult::Failure | StepResult::Ignored));
            seen_fail = true;
        }
    }
    assert!(seen_ok);
    assert!(seen_fail);
}

#[test]
fn disabled_step_is_never_run_nor_recorded() {
    let mut runner = Runner::new(options(false, true, true));
    let off = policy(false, false);
    let key = "off".to_string();
    assert_eq!(runner.advance(&off, &key, Event::Begin), Next::Finished);
    assert!(runner.report().data().is_empty());
}

#[test]
fn success_is_recorded_once_under_any_retry_setting() {
    for no_retry in [false, true] {
        for ignore in [false, true] {
            let mut runner = Runner::new(options(no_retry, false, false));
            let p = policy(true, ignore);
            let key = "ok".to_string();
            let next = runner.advance(&p, &key, attempted(Attempt::Completed, true));
            assert_eq!(next, Next::Finished);
            assert_eq!(runner.report().data(), &vec![("ok".to_string(), StepResult::Success)]);
        }
    }
}

#[test]
fn step_ok_reports_exactly_success() {
    let mut runner = Runner::new(options(false, false, false));
    let p = policy(true, false);
    let key = "ok".to_string();
    assert_eq!(runner.advance(&p, &key, Event::Begin), Next::Run);
    assert_eq!(runner.advance(&p, &key, attempted(Attempt::Completed, false)), Next::Finished);
    assert_eq!(runner.report().data(), &vec![("ok".to_string(), StepResult::Success)]);
}

#[test]
fn simulation_records_nothing_and_never_asks() {
    for interrupted in [false, true] {
        let mut runner = Runner::new(options(false, true, true));
        let p = policy(true, false);
        let key = "dry".to_string();
        let next = runner.advance(&p, &key, attempted(Attempt::SimulatedOnly, interrupted));
        assert_eq!(next, Next::Finished);
        assert!(runner.report().data().is_empty());
    }
}

#[test]
fn skip_recorded_only_when_verbose_or_shown() {
    for (verbose, show) in [(false, false), (true, false), (false, true), (true, true)] {
        let mut runner = Runner::new(options(false, verbose, show));
        let p = policy(true, false);
        let key = "skip".to_string();
        let next = runner.advance(&p, &key, attempted(Attempt::DeclinedToRun("no tool".to_string()), false));
        assert_eq!(next, Next::Finished);
        if verbose || show {
            assert_eq!(
                runner.report().data(),
                &vec![("skip".to_string(), StepResult::Skipped("no tool".to_string()))]
            );
        } else {
            assert!(runner.report().data().is_empty());
        }
    }
}

#[test]
fn ignored_failure_recorded_without_prompt() {
    for no_retry in [false, true] {
        let mut runner = Runner::new(options(no_retry, false, false));
        let p = policy(true, true);
        let key = "fail".to_string();
        let next = runner.advance(&p, &key, attempted(Attempt::Failed("boom".to_string()), false));
        assert_eq!(next, Next::Finished);
        assert_eq!(runner.report().data(), &vec![("fail".to_string(), StepResult::Ignored)]);
        assert!(!runner.report().data()[0].1.failed());
    }
}

#[test]
fn declined_retry_records_failure() {
    let mut runner = Runner::new(options(false, false, false));
    let p = policy(true, false);
    let key = "fail".to_string();
    let next = runner.advance(&p, &key, attempted(Attempt::Failed("boom".to_string()), false));
    assert_eq!(next, Next::AskRetry { interrupted: false, detail: "boom".to_string() });
    assert!(runner.report().data().is_empty());
    assert_eq!(runner.advance(&p, &key, Event::Answered { retry: false }), Next::Finished);
    assert_eq!(runner.report().data(), &vec![("fail".to_string(), StepResult::Failure)]);
    assert!(runner.report().data()[0].1.failed());
}

#[test]
fn no_retry_failure_records_failure_at_once() {
    let mut runner = Runner::new(options(true, false, false));
    let p = policy(true, false);
    let key = "fail".to_string();
    let next = runner.advance(&p, &key, attempted(Attempt::Failed("boom".to_string()), false));
    assert_eq!(next, Next::Finished);
    assert_eq!(runner.report().data(), &vec![("fail".to_string(), StepResult::Failure)]);
}

#[test]
fn accepted_retry_runs_again_until_success() {
    let mut runner = Runner::new(options(false, false, false));
    let p = policy(true, false);
    let key = "flaky".to_string();
    let next = runner.advance(&p, &key, attempted(Attempt::Failed("boom".to_string()), false));
    assert!(matches!(next, Next::AskRetry { .. }));
    assert_eq!(runner.advance(&p, &key, Event::Answered { retry: true }), Next::Run);
    assert!(runner.report().data().is_empty());
    assert_eq!(runner.advance(&p, &key, attempted(Attempt::Completed, false)), Next::Finished);
    assert_eq!(runner.report().data(), &vec![("flaky".to_string(), StepResult::Success)]);
}

#[test]
fn ignored_step_declining_retry_after_interrupt_is_ignored() {
    let mut runner = Runner::new(options(true, false, false));
    let p = policy(true, true);
    let key = "fail".to_string();
    let next = runner.advance(&p, &key, attempted(Attempt::Failed("boom".to_string()), true));
    assert_eq!(next, Next::AskRetry { interrupted: true, detail: "boom".to_string() });
    assert_eq!(runner.advance(&p, &key, Event::Answered { retry: false }), Next::Finished);
    assert_eq!(runner.report().data(), &vec![("fail".to_string(), StepResult::Ignored)]);
}

#[test]
fn interruption_forces_prompt_and_is_cleared() {
    let flag = Interruption::new();
    flag.set();
    assert!(flag.interrupted());
    let mut runner = Runner::new(options(true, false, false));
    let p = policy(true, false);
    let key = "fail".to_string();
    let next = runner.attempt_finished(&p, &key, Attempt::Failed("boom".to_string()), &flag);
    assert_eq!(next, Next::AskRetry { interrupted: true, detail: "boom".to_string() });
    assert!(!flag.interrupted());
    assert!(runner.report().data().is_empty());
}

#[test]
fn interruption_left_alone_after_success() {
    let flag = Interruption::new();
    flag.set();
    let mut runner = Runner::new(options(true, false, false));
    let p = policy(true, false);
    let key = "ok".to_string();
    let next = runner.attempt_finished(&p, &key, Attempt::Completed, &flag);
    assert_eq!(next, Next::Finished);
    assert!(flag.interrupted());
    assert_eq!(runner.report().data(), &vec![("ok".to_string(), StepResult::Success)]);
}

#[test]
fn failure_without_interruption_reads_clear_flag() {
    let flag = Interruption::new();
    let mut runner = Runner::new(options(true, false, false));
    let p = policy(true, false);
    let key = "fail".to_string();
    let next = runner.attempt_finished(&p, &key, Attempt::Failed("boom".to_string()), &flag);
    assert_eq!(next, Next::Finished);
    assert!(!flag.interrupted());
    assert_eq!(runner.report().data(), &vec![("fail".to_string(), StepResult::Failure)]);
}

#[test]
fn take_clears_a_set_flag() {
    let flag = Interruption::new();
    assert!(!flag.take());
    flag.set();
    assert!(flag.take());
    assert!(!flag.interrupted());
    flag.set();
    flag.unset_interrupted();
    assert!(!flag.interrupted());
}

#[test]
fn steps_are_reported_in_execution_order() {
    let mut runner = Runner::with_key_checks(options(true, false, true));
    let p = policy(true, false);
    for (name, attempt) in [
        ("a", Attempt::Completed),
        ("b", Attempt::DeclinedToRun("off".to_string())),
        ("c", Attempt::Failed("boom".to_string())),
    ] {
        let key = name.to_string();
        assert!(!runner.report().has_key(&key));
        assert_eq!(runner.advance(&p, &key, Event::Begin), Next::Run);
        assert_eq!(runner.advance(&p, &key, attempted(attempt, false)), Next::Finished);
    }
    assert_eq!(
        runner.report().data(),
        &vec![
            ("a".to_string(), StepResult::Success),
            ("b".to_string(), StepResult::Skipped("off".to_string())),
            ("c".to_string(), StepResult::Failure),
        ]
    );
    assert!(runner.report().key_checks());
    assert_eq!(runner.options(), options(true, false, true));
}
