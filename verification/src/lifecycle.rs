//! The life of a launched guest instance: running, then exited, and the
//! teardown that ends it.
//!
//! The host owns the process handle and the sockets. What is kept here is
//! what the host knows of the process, and the order of the steps by which
//! an instance is killed. Killing takes the instance by value, so an
//! instance is killed at most once.

use vstd::prelude::*;

verus! {

/// The status with which the monitor process ended, as the operating
/// system reports it.
#[derive(Debug, Clone, Copy, PartialEq, Eq, Structural)]
pub struct ExitStatus {
    pub raw: i32,
}

/// What the host knows of the monitor process.
#[derive(Debug, Clone, Copy, PartialEq, Eq, Structural)]
pub enum ProcessState {
    /// The process has not been seen to end.
    Running,
    /// The process has ended with this status.
    Exited(ExitStatus),
}

/// What a caller who waits for the instance has to do.
#[derive(Debug, Clone, Copy, PartialEq, Eq, Structural)]
pub enum WaitPlan {
    /// The process has ended: this is its status.
    Ended(ExitStatus),
    /// The process may still run: wait for it to end, then record its
    /// status.
    AwaitExit,
}

/// How far a teardown has come.
#[derive(Debug, Clone, Copy, PartialEq, Eq, Structural)]
pub enum TeardownStep {
    /// The console socket is being shut down.
    ClosingConsole,
    /// The process is being told to end.
    Terminating,
    /// The end of the process is being waited for.
    Reaping,
    /// The instance is gone; the process ended with this status.
    Done(ExitStatus),
    /// A step failed. The host discards the instance, which ends the
    /// process.
    Failed,
}

/// What the host is to do next to take an instance down.
#[derive(Debug, Clone, Copy, PartialEq, Eq, Structural)]
pub enum TeardownRequest {
    /// Shut down both directions of the console socket.
    ShutdownConsole,
    /// Ask for the process to be ended by force.
    RequestTermination,
    /// Wait until the process has ended.
    AwaitExit,
    /// Nothing more: hand this status to the caller.
    Return(ExitStatus),
    /// Nothing more: hand an error to the caller.
    Fail,
}

/// What became of the step that was asked for last.
#[derive(Debug, Clone, Copy, PartialEq, Eq, Structural)]
pub enum TeardownReport {
    /// The step was carried out.
    Done,
    /// The process has ended with this status.
    Exited(ExitStatus),
    /// The step failed.
    Failed,
}

/// What the host knows of a launched instance.
#[derive(Debug, PartialEq, Eq)]
pub struct InstanceState {
    /// What is known of the process.
    pub process: ProcessState,
    /// Whether the console socket is still open in both directions.
    pub console_open: bool,
}

/// The teardown of one instance.
#[derive(Debug, PartialEq, Eq)]
pub struct Teardown {
    /// The instance that is taken down.
    pub instance: InstanceState,
    /// How far the teardown has come.
    pub step: TeardownStep,
}

impl TeardownStep {
    /// Whether the teardown is over.
    pub open spec fn spec_is_terminal(self) -> bool {
        self is Done || self is Failed
    }

    /// Whether the teardown is over.
    #[verifier::when_used_as_spec(spec_is_terminal)]
    pub fn is_terminal(self) -> (over: bool)
        ensures
            over == self.spec_is_terminal(),
    {
        match self {
            TeardownStep::Done(_) | TeardownStep::Failed => true,
            _ => false,
        }
    }

    /// An upper bound on the number of reports that the teardown can still
    /// take before it is over.
    pub open spec fn remaining(self) -> nat {
        match self {
            TeardownStep::ClosingConsole => 3,
            TeardownStep::Terminating => 2,
            TeardownStep::Reaping => 1,
            TeardownStep::Done(_) => 0,
            TeardownStep::Failed => 0,
        }
    }
}

impl InstanceState {
    /// The instance after it was learnt that the process ended with
    /// `status`. A process ends once: the status that was learnt first
    /// stays.
    pub open spec fn after_exit(self, status: ExitStatus) -> InstanceState {
        match self.process {
            ProcessState::Running => InstanceState {
                process: ProcessState::Exited(status),
                ..self
            },
            ProcessState::Exited(_) => self,
        }
    }

    /// What a caller who waits has to do.
    pub open spec fn wait_plan(self) -> WaitPlan {
        match self.process {
            ProcessState::Exited(status) => WaitPlan::Ended(status),
            ProcessState::Running => WaitPlan::AwaitExit,
        }
    }

    /// The state of an instance whose process was just created.
    pub fn started() -> (instance: InstanceState)
        ensures
            instance.process == ProcessState::Running,
            instance.console_open,
    {
        InstanceState { process: ProcessState::Running, console_open: true }
    }

    /// What a caller who waits for the instance has to do: nothing where
    /// the process is known to have ended, however often it is asked.
    pub fn wait(&self) -> (plan: WaitPlan)
        ensures
            plan == self.wait_plan(),
    {
        match self.process {
            ProcessState::Exited(status) => WaitPlan::Ended(status),
            ProcessState::Running => WaitPlan::AwaitExit,
        }
    }

    /// Records that the process ended with `status`, and returns the status
    /// that the instance ended with.
    pub fn record_exit(&mut self, status: ExitStatus) -> (recorded: ExitStatus)
        ensures
            *final(self) == old(self).after_exit(status),
            final(self).process == ProcessState::Exited(recorded),
    {
        match self.process {
            ProcessState::Running => {
                self.process = ProcessState::Exited(status);
                status
            },
            ProcessState::Exited(first) => first,
        }
    }

    /// Begins to take the instance down. The console is shut down first.
    pub fn kill(self) -> (begun: (Teardown, TeardownRequest))
        ensures
            begun.0.instance == self,
            begun.0.step == TeardownStep::ClosingConsole,
            begun.1 == TeardownRequest::ShutdownConsole,
    {
        (Teardown { instance: self, step: TeardownStep::ClosingConsole }, TeardownRequest::ShutdownConsole)
    }
}

impl Teardown {
    /// The teardown at another step.
    pub open spec fn at(self, step: TeardownStep) -> Teardown {
        Teardown { step, ..self }
    }

    /// The teardown ends in failure.
    pub open spec fn fail(self) -> (Teardown, TeardownRequest) {
        (self.at(TeardownStep::Failed), TeardownRequest::Fail)
    }

    /// The teardown ends with the status of the process.
    pub open spec fn finish(self, status: ExitStatus) -> (Teardown, TeardownRequest) {
        let instance = self.instance.after_exit(status);
        let recorded = instance.process->Exited_0;
        (
            Teardown { instance, step: TeardownStep::Done(recorded) },
            TeardownRequest::Return(recorded),
        )
    }

    /// The console is shut down. A process that is known to have ended
    /// needs no more; any other is told to end.
    pub open spec fn console_closed(self) -> (Teardown, TeardownRequest) {
        let instance = InstanceState { console_open: false, ..self.instance };
        match instance.process {
            ProcessState::Exited(status) => (
                Teardown { instance, step: TeardownStep::Done(status) },
                TeardownRequest::Return(status),
            ),
            ProcessState::Running => (
                Teardown { instance, step: TeardownStep::Terminating },
                TeardownRequest::RequestTermination,
            ),
        }
    }

    /// The teardown after `report`, and what the host is to do next.
    ///
    /// A teardown that is over stays as it is. Before that a step that
    /// failed ends it in failure; a process that turns out to have ended
    /// ends it with that status, whatever step was under way.
    pub open spec fn next(self, report: TeardownReport) -> (Teardown, TeardownRequest) {
        match self.step {
            TeardownStep::Done(status) => (self, TeardownRequest::Return(status)),
            TeardownStep::Failed => (self, TeardownRequest::Fail),
            _ => match report {
                TeardownReport::Failed => self.fail(),
                TeardownReport::Exited(status) => match self.step {
                    TeardownStep::ClosingConsole => self.fail(),
                    _ => self.finish(status),
                },
                TeardownReport::Done => match self.step {
                    TeardownStep::ClosingConsole => self.console_closed(),
                    TeardownStep::Terminating => (
                        self.at(TeardownStep::Reaping),
                        TeardownRequest::AwaitExit,
                    ),
                    _ => self.fail(),
                },
            },
        }
    }

    /// Takes what became of the last step and answers with the next one.
    pub fn advance(&mut self, report: TeardownReport) -> (request: TeardownRequest)
        ensures
            (*final(self), request) == old(self).next(report),
    {
        match self.step {
            TeardownStep::Done(status) => {
                return TeardownRequest::Return(status);
            },
            TeardownStep::Failed => {
                return TeardownRequest::Fail;
            },
            _ => {},
        }
        match report {
            TeardownReport::Failed => {
                self.step = TeardownStep::Failed;
                TeardownRequest::Fail
            },
            TeardownReport::Exited(status) => match self.step {
                TeardownStep::ClosingConsole => {
                    self.step = TeardownStep::Failed;
                    TeardownRequest::Fail
                },
                _ => {
                    let recorded = self.instance.record_exit(status);
                    self.step = TeardownStep::Done(recorded);
                    TeardownRequest::Return(recorded)
                },
            },
            TeardownReport::Done => match self.step {
                TeardownStep::ClosingConsole => {
                    self.instance.console_open = false;
                    match self.instance.process {
                        ProcessState::Exited(status) => {
                            self.step = TeardownStep::Done(status);
                            TeardownRequest::Return(status)
                        },
                        ProcessState::Running => {
                            self.step = TeardownStep::Terminating;
                            TeardownRequest::RequestTermination
                        },
                    }
                },
                TeardownStep::Terminating => {
                    self.step = TeardownStep::Reaping;
                    TeardownRequest::AwaitExit
                },
                _ => {
                    self.step = TeardownStep::Failed;
                    TeardownRequest::Fail
                },
            },
        }
    }

    /// The status that the teardown ended with, once it has.
    pub fn status(&self) -> (status: Option<ExitStatus>)
        ensures
            status == (match self.step {
                TeardownStep::Done(s) => Some(s),
                _ => None,
            }),
    {
        match self.step {
            TeardownStep::Done(s) => Some(s),
            _ => None,
        }
    }
}

/// Once the process is known to have ended, its status does not change:
/// every wait gives that status and asks for nothing, and a later report
/// of another status is not taken.
pub proof fn law_exit_status_is_stable(
    instance: InstanceState,
    status: ExitStatus,
    later: ExitStatus,
)
    requires
        instance.process == ProcessState::Exited(status),
    ensures
        instance.wait_plan() == WaitPlan::Ended(status),
        instance.after_exit(later) == instance,
        instance.after_exit(later).wait_plan() == WaitPlan::Ended(status),
{
}

/// The status that a kill returns is the status that the instance holds
/// from then on: whoever waits after the kill gets the same status, however
/// often.
pub proof fn law_wait_after_kill_agrees(teardown: Teardown, report: TeardownReport)
    requires
        teardown.next(report).1 is Return,
    ensures
        ({
            let (after, request) = teardown.next(report);
            &&& after.step == TeardownStep::Done(request->Return_0)
            &&& (!teardown.step.is_terminal() ==> after.instance.wait_plan() == WaitPlan::Ended(
                request->Return_0,
            ))
            &&& after.next(report) == (after, request)
        }),
{
}

/// Killing an instance whose process has already ended is no error: once
/// the console is shut down the status is returned, and the process is not
/// asked to end again.
pub proof fn law_kill_of_ended_process(instance: InstanceState, status: ExitStatus)
    requires
        instance.process == ProcessState::Exited(status),
    ensures
        ({
            let begun = Teardown { instance, step: TeardownStep::ClosingConsole };
            let (after, request) = begun.next(TeardownReport::Done);
            &&& request == TeardownRequest::Return(status)
            &&& after.step == TeardownStep::Done(status)
            &&& !after.instance.console_open
        }),
{
}

/// The steps of a teardown come in one order: the process is told to end
/// only after the console is shut down, and waited for only after it was
/// told to end.
pub proof fn law_teardown_order(teardown: Teardown, report: TeardownReport)
    ensures
        !(teardown.next(report).1 is ShutdownConsole),
        teardown.next(report).1 is RequestTermination ==> teardown.step is ClosingConsole
            && report is Done && !teardown.next(report).0.instance.console_open,
        teardown.next(report).1 is AwaitExit ==> teardown.step is Terminating && report is Done,
{
}

/// Each report brings a teardown that is not over closer to its end: never
/// more than three reports, and it is over.
pub proof fn law_teardown_ends(teardown: Teardown, report: TeardownReport)
    requires
        !teardown.step.is_terminal(),
    ensures
        teardown.next(report).0.step.remaining() < teardown.step.remaining(),
        teardown.step.remaining() <= 3,
        teardown.next(report).0.step.remaining() == 0 <==> teardown.next(
            report,
        ).0.step.is_terminal(),
{
}

} // verus!
