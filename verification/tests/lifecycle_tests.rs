use guest_launcher::lifecycle::{
    ExitStatus, InstanceState, ProcessState, TeardownReport, TeardownRequest, TeardownStep,
    WaitPlan,
};

const KILLED: ExitStatus = ExitStatus { raw: 9 };
const CLEAN: ExitStatus = ExitStatus { raw: 0 };

#[test]
fn started_instance_runs_with_open_console() {
    let instance = InstanceState::started();
    assert_eq!(instance.process, ProcessState::Running);
    assert!(instance.console_open);
    assert_eq!(instance.wait(), WaitPlan::AwaitExit);
}

#[test]
fn kill_shuts_console_then_ends_process_then_waits() {
    let (mut teardown, request) = InstanceState::started().kill();
    assert_eq!(request, TeardownRequest::ShutdownConsole);
    assert_eq!(teardown.step, TeardownStep::ClosingConsole);
    assert_eq!(teardown.advance(TeardownReport::Done), TeardownRequest::RequestTermination);
    assert!(!teardown.instance.console_open);
    assert_eq!(teardown.advance(TeardownReport::Done), TeardownRequest::AwaitExit);
    assert_eq!(teardown.status(), None);
    assert_eq!(teardown.advance(TeardownReport::Exited(KILLED)), TeardownRequest::Return(KILLED));
    assert_eq!(teardown.step, TeardownStep::Done(KILLED));
    assert!(teardown.step.is_terminal());
    assert_eq!(teardown.status(), Some(KILLED));
}

#[test]
fn wait_after_kill_returns_the_same_status() {
    let (mut teardown, _) = InstanceState::started().kill();
    teardown.advance(TeardownReport::Done);
    teardown.advance(TeardownReport::Done);
    let returned = teardown.advance(TeardownReport::Exited(KILLED));
    assert_eq!(returned, TeardownRequest::Return(KILLED));
    assert_eq!(teardown.instance.wait(), WaitPlan::Ended(KILLED));
    assert_eq!(teardown.instance.wait(), WaitPlan::Ended(KILLED));
    assert_eq!(teardown.instance.record_exit(CLEAN), KILLED);
    assert_eq!(teardown.instance.wait(), WaitPlan::Ended(KILLED));
    assert_eq!(teardown.advance(TeardownReport::Exited(CLEAN)), TeardownRequest::Return(KILLED));
}

#[test]
fn wait_is_repeatable_once_the_process_has_ended() {
    let mut instance = InstanceState::started();
    assert_eq!(instance.record_exit(CLEAN), CLEAN);
    assert_eq!(instance.process, ProcessState::Exited(CLEAN));
    assert_eq!(instance.wait(), WaitPlan::Ended(CLEAN));
    assert_eq!(instance.wait(), WaitPlan::Ended(CLEAN));
    assert_eq!(instance.record_exit(KILLED), CLEAN);
    assert_eq!(instance.wait(), WaitPlan::Ended(CLEAN));
}

#[test]
fn kill_of_an_ended_process_is_no_error() {
    let mut instance = InstanceState::started();
    instance.record_exit(CLEAN);
    let (mut teardown, request) = instance.kill();
    assert_eq!(request, TeardownRequest::ShutdownConsole);
    assert_eq!(teardown.advance(TeardownReport::Done), TeardownRequest::Return(CLEAN));
    assert_eq!(teardown.step, TeardownStep::Done(CLEAN));
    assert!(!teardown.instance.console_open);
}

#[test]
fn process_that_ends_while_it_is_told_to_end_is_no_error() {
    let (mut teardown, _) = InstanceState::started().kill();
    teardown.advance(TeardownReport::Done);
    assert_eq!(teardown.advance(TeardownReport::Exited(CLEAN)), TeardownRequest::Return(CLEAN));
    assert_eq!(teardown.step, TeardownStep::Done(CLEAN));
}

#[test]
fn failed_step_fails_the_kill() {
    let (mut teardown, _) = InstanceState::started().kill();
    assert_eq!(teardown.advance(TeardownReport::Failed), TeardownRequest::Fail);
    assert_eq!(teardown.step, TeardownStep::Failed);
    assert!(teardown.instance.console_open);
    assert_eq!(teardown.status(), None);

    let (mut teardown, _) = InstanceState::started().kill();
    teardown.advance(TeardownReport::Done);
    assert_eq!(teardown.advance(TeardownReport::Failed), TeardownRequest::Fail);

    let (mut teardown, _) = InstanceState::started().kill();
    teardown.advance(TeardownReport::Done);
    teardown.advance(TeardownReport::Done);
    assert_eq!(teardown.advance(TeardownReport::Failed), TeardownRequest::Fail);
    assert_eq!(teardown.advance(TeardownReport::Exited(CLEAN)), TeardownRequest::Fail);
    assert_eq!(teardown.step, TeardownStep::Failed);
}

#[test]
fn unexpected_reports_fail_the_kill() {
    let (mut teardown, _) = InstanceState::started().kill();
    assert_eq!(teardown.advance(TeardownReport::Exited(CLEAN)), TeardownRequest::Fail);

    let (mut teardown, _) = InstanceState::started().kill();
    teardown.advance(TeardownReport::Done);
    teardown.advance(TeardownReport::Done);
    assert_eq!(teardown.advance(TeardownReport::Done), TeardownRequest::Fail);
}

#[test]
fn teardown_that_is_over_stays_over() {
    let (mut teardown, _) = InstanceState::started().kill();
    teardown.advance(TeardownReport::Done);
    teardown.advance(TeardownReport::Done);
    teardown.advance(TeardownReport::Exited(KILLED));
    for report in [TeardownReport::Done, TeardownReport::Failed, TeardownReport::Exited(CLEAN)] {
        assert_eq!(teardown.advance(report), TeardownRequest::Return(KILLED));
        assert_eq!(teardown.step, TeardownStep::Done(KILLED));
    }
}
