use vstd::prelude::*;

use crate::runtime::{Script, bootstrap_script_spec, user_agent_spec};

verus! {

/// Where a worker stands on its way from a new engine to a worker ready for
/// tasks.
#[derive(Debug, Clone, Copy, PartialEq, Eq, Structural)]
pub enum BootStep {
    CreatingRuntime,
    Bootstrapping,
    ExtractingTriggers,
    LoadingModule,
    RunningEventLoop,
    AwaitingEvaluation,
    Ready,
    /// Stopped on a broken runtime: the host gives up on the process.
    Aborted,
    /// Stopped on an error of the worker's module, which the host reports.
    Failed,
}

/// What the host saw when it did what the last command asked.
#[derive(Debug, Clone, Copy, PartialEq, Eq, Structural)]
pub enum BootEvent {
    RuntimeCreated,
    BootstrapFinished { ok: bool },
    /// Whether the bootstrap gave back an object, and whether that object
    /// holds the `fetch` and the `scheduled` trigger functions.
    TriggersExtracted { is_object: bool, fetch: bool, scheduled: bool },
    ModuleLoaded { ok: bool },
    EventLoopFinished { ok: bool },
    EvaluationFinished { ok: bool },
}

/// Why the runtime itself is broken.
#[derive(Debug, Clone, Copy, PartialEq, Eq, Structural)]
pub enum BootAbort {
    BootstrapFailed,
    TriggersNotObject,
    FetchTriggerMissing,
    ScheduledTriggerMissing,
}

/// What the host is to do next.
#[derive(Debug, Clone, Copy, PartialEq, Eq, Structural)]
pub enum BootCommand {
    /// Run the bootstrap script of the worker.
    ExecuteBootstrap,
    /// Take the trigger functions out of what the bootstrap returned.
    ExtractTriggers,
    /// Load the worker's main module.
    LoadMainModule,
    /// Start evaluating the module and run the event loop.
    RunEventLoop,
    /// Wait for the module's evaluation to finish.
    AwaitEvaluation,
    /// The worker is ready.
    Finish,
    /// Stop the process: the runtime is broken.
    Abort(BootAbort),
    /// Return the error of the module to the caller.
    Fail,
    /// The event does not belong to this step: nothing to do.
    Ignore,
}

/// How the engine is to be created.
#[derive(Debug, Clone, Copy, PartialEq, Eq, Structural)]
pub struct RuntimeSetup {
    /// Install the extensions without their sources.
    pub strip_extension_sources: bool,
    /// Start the engine from the startup snapshot.
    pub use_startup_snapshot: bool,
}

pub open spec fn is_terminal(step: BootStep) -> bool {
    step == BootStep::Ready || step == BootStep::Aborted || step == BootStep::Failed
}

/// One step of the worker's start: the next step and the command for the host.
pub open spec fn boot_next(step: BootStep, event: BootEvent) -> (BootStep, BootCommand) {
    match (step, event) {
        (BootStep::CreatingRuntime, BootEvent::RuntimeCreated) => (
            BootStep::Bootstrapping,
            BootCommand::ExecuteBootstrap,
        ),
        (BootStep::Bootstrapping, BootEvent::BootstrapFinished { ok }) => if ok {
            (BootStep::ExtractingTriggers, BootCommand::ExtractTriggers)
        } else {
            (BootStep::Aborted, BootCommand::Abort(BootAbort::BootstrapFailed))
        },
        (
            BootStep::ExtractingTriggers,
            BootEvent::TriggersExtracted { is_object, fetch, scheduled },
        ) => if !is_object {
            (BootStep::Aborted, BootCommand::Abort(BootAbort::TriggersNotObject))
        } else if !fetch {
            (BootStep::Aborted, BootCommand::Abort(BootAbort::FetchTriggerMissing))
        } else if !scheduled {
            (BootStep::Aborted, BootCommand::Abort(BootAbort::ScheduledTriggerMissing))
        } else {
            (BootStep::LoadingModule, BootCommand::LoadMainModule)
        },
        (BootStep::LoadingModule, BootEvent::ModuleLoaded { ok }) => if ok {
            (BootStep::RunningEventLoop, BootCommand::RunEventLoop)
        } else {
            (BootStep::Failed, BootCommand::Fail)
        },
        (BootStep::RunningEventLoop, BootEvent::EventLoopFinished { ok }) => if ok {
            (BootStep::AwaitingEvaluation, BootCommand::AwaitEvaluation)
        } else {
            (BootStep::Failed, BootCommand::Fail)
        },
        (BootStep::AwaitingEvaluation, BootEvent::EvaluationFinished { ok }) => if ok {
            (BootStep::Ready, BootCommand::Finish)
        } else {
            (BootStep::Failed, BootCommand::Fail)
        },
        _ => (step, BootCommand::Ignore),
    }
}

/// The step reached from `step` after the host saw `events`, one after the other.
pub open spec fn boot_run(step: BootStep, events: Seq<BootEvent>) -> BootStep
    decreases events.len(),
{
    if events.len() == 0 {
        step
    } else {
        boot_run(boot_next(step, events[0]).0, events.drop_first())
    }
}

/// The position of a step on the way to a ready worker; -1 for a stopped start.
pub open spec fn stage(step: BootStep) -> int {
    match step {
        BootStep::CreatingRuntime => 0,
        BootStep::Bootstrapping => 1,
        BootStep::ExtractingTriggers => 2,
        BootStep::LoadingModule => 3,
        BootStep::RunningEventLoop => 4,
        BootStep::AwaitingEvaluation => 5,
        BootStep::Ready => 6,
        _ => -1,
    }
}

/// The event by which the start leaves stage `k` towards a ready worker.
pub open spec fn success_event(k: int) -> BootEvent {
    if k == 0 {
        BootEvent::RuntimeCreated
    } else if k == 1 {
        BootEvent::BootstrapFinished { ok: true }
    } else if k == 2 {
        BootEvent::TriggersExtracted { is_object: true, fetch: true, scheduled: true }
    } else if k == 3 {
        BootEvent::ModuleLoaded { ok: true }
    } else if k == 4 {
        BootEvent::EventLoopFinished { ok: true }
    } else {
        BootEvent::EvaluationFinished { ok: true }
    }
}

/// A stopped or finished start stays as it is, whatever the host reports.
pub proof fn law_terminal_steps_absorb(step: BootStep, event: BootEvent)
    requires
        is_terminal(step),
    ensures
        boot_next(step, event) == (step, BootCommand::Ignore),
{
}

/// The host is told to stop the process only while the engine itself is
/// being set up (bootstrap and triggers), and to return an error only for
/// the worker's module; each stops the start.
pub proof fn law_abort_and_fail_split(step: BootStep, event: BootEvent)
    ensures
        boot_next(step, event).1 is Abort <==> boot_next(step, event).0 == BootStep::Aborted
            && step != BootStep::Aborted,
        boot_next(step, event).1 is Abort ==> step == BootStep::Bootstrapping || step
            == BootStep::ExtractingTriggers,
        boot_next(step, event).1 == BootCommand::Fail <==> boot_next(step, event).0
            == BootStep::Failed && step != BootStep::Failed,
        boot_next(step, event).1 == BootCommand::Fail ==> step == BootStep::LoadingModule || step
            == BootStep::RunningEventLoop || step == BootStep::AwaitingEvaluation,
{
}

/// One step either ignores the event, stops the start, or moves one stage on,
/// and only on the event that succeeds at that stage.
proof fn lemma_boot_next_moves_one_stage(step: BootStep, event: BootEvent)
    ensures
        ({
            let next = boot_next(step, event).0;
            ||| next == step
            ||| next == BootStep::Aborted
            ||| next == BootStep::Failed
            ||| (0 <= stage(step) < 6 && stage(next) == stage(step) + 1 && event == success_event(
                stage(step),
            ))
        }),
{
}

/// A stopped start stays stopped.
proof fn lemma_stopped_stays(step: BootStep, events: Seq<BootEvent>)
    requires
        step == BootStep::Aborted || step == BootStep::Failed,
    ensures
        boot_run(step, events) == step,
    decreases events.len(),
{
    if events.len() > 0 {
        lemma_stopped_stays(step, events.drop_first());
    }
}

proof fn lemma_ready_passes_stage(step: BootStep, events: Seq<BootEvent>, k: int)
    requires
        boot_run(step, events) == BootStep::Ready,
        0 <= stage(step) <= k < 6,
    ensures
        events.contains(success_event(k)),
    decreases events.len(),
{
    if events.len() == 0 {
    } else {
        let next = boot_next(step, events[0]).0;
        let rest = events.drop_first();
        lemma_boot_next_moves_one_stage(step, events[0]);
        if next == BootStep::Aborted || next == BootStep::Failed {
            lemma_stopped_stays(next, rest);
        } else if next == step {
            lemma_ready_passes_stage(step, rest, k);
            let i = choose|i: int| 0 <= i < rest.len() && rest[i] == success_event(k);
            assert(events[i + 1] == success_event(k));
        } else if k == stage(step) {
            assert(events[0] == success_event(k));
        } else {
            lemma_ready_passes_stage(next, rest, k);
            let i = choose|i: int| 0 <= i < rest.len() && rest[i] == success_event(k);
            assert(events[i + 1] == success_event(k));
        }
    }
}

/// A worker is ready only if the host saw every step succeed: the engine
/// created, the bootstrap run, both triggers found, the module loaded, the
/// event loop run and the module evaluated.
pub proof fn law_ready_only_after_every_step_succeeded(events: Seq<BootEvent>)
    requires
        boot_run(BootStep::CreatingRuntime, events) == BootStep::Ready,
    ensures
        forall|k: int| 0 <= k < 6 ==> events.contains(#[trigger] success_event(k)),
{
    assert forall|k: int| 0 <= k < 6 implies events.contains(#[trigger] success_event(k)) by {
        lemma_ready_passes_stage(BootStep::CreatingRuntime, events, k);
    }
}

/// The start of a worker: where it stands, and the bootstrap script it runs.
#[derive(Debug, Clone)]
pub struct WorkerBoot {
    pub step: BootStep,
    pub bootstrap: String,
}

impl WorkerBoot {
    /// Begins the start of a worker for `script`; `snapshot_present` says
    /// whether the runtime carries a startup snapshot.
    pub fn start(script: &Script, snapshot_present: bool) -> (r: (WorkerBoot, RuntimeSetup))
        ensures
            r.0.step == BootStep::CreatingRuntime,
            r.0.bootstrap@ == bootstrap_script_spec(user_agent_spec(), script.env.deep_view()),
            r.1 == (RuntimeSetup {
                strip_extension_sources: snapshot_present,
                use_startup_snapshot: snapshot_present,
            }),
    {
        let boot = WorkerBoot { step: BootStep::CreatingRuntime, bootstrap: script.bootstrap_script() };
        let setup = RuntimeSetup {
            strip_extension_sources: snapshot_present,
            use_startup_snapshot: snapshot_present,
        };
        (boot, setup)
    }

    /// Takes in what the host saw and says what it is to do next.
    pub fn on_event(&mut self, event: BootEvent) -> (cmd: BootCommand)
        ensures
            (final(self).step, cmd) == boot_next(old(self).step, event),
            final(self).bootstrap == old(self).bootstrap,
    {
        let (step, cmd) = match (self.step, event) {
            (BootStep::CreatingRuntime, BootEvent::RuntimeCreated) => (
                BootStep::Bootstrapping,
                BootCommand::ExecuteBootstrap,
            ),
            (BootStep::Bootstrapping, BootEvent::BootstrapFinished { ok }) => if ok {
                (BootStep::ExtractingTriggers, BootCommand::ExtractTriggers)
            } else {
                (BootStep::Aborted, BootCommand::Abort(BootAbort::BootstrapFailed))
            },
            (
                BootStep::ExtractingTriggers,
                BootEvent::TriggersExtracted { is_object, fetch, scheduled },
            ) => if !is_object {
                (BootStep::Aborted, BootCommand::Abort(BootAbort::TriggersNotObject))
            } else if !fetch {
                (BootStep::Aborted, BootCommand::Abort(BootAbort::FetchTriggerMissing))
            } else if !scheduled {
                (BootStep::Aborted, BootCommand::Abort(BootAbort::ScheduledTriggerMissing))
            } else {
                (BootStep::LoadingModule, BootCommand::LoadMainModule)
            },
            (BootStep::LoadingModule, BootEvent::ModuleLoaded { ok }) => if ok {
                (BootStep::RunningEventLoop, BootCommand::RunEventLoop)
            } else {
                (BootStep::Failed, BootCommand::Fail)
            },
            (BootStep::RunningEventLoop, BootEvent::EventLoopFinished { ok }) => if ok {
                (BootStep::AwaitingEvaluation, BootCommand::AwaitEvaluation)
            } else {
                (BootStep::Failed, BootCommand::Fail)
            },
            (BootStep::AwaitingEvaluation, BootEvent::EvaluationFinished { ok }) => if ok {
                (BootStep::Ready, BootCommand::Finish)
            } else {
                (BootStep::Failed, BootCommand::Fail)
            },
            _ => (self.step, BootCommand::Ignore),
        };
        self.step = step;
        cmd
    }
}

} // verus!
