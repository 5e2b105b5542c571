use vstd::prelude::*;

verus! {

// ---------------------------------------------------------------------------
// The control state machine: sandbox, installer, stream, runner, outcome.
// ---------------------------------------------------------------------------

/// Why a run failed.
#[derive(Clone, Copy, PartialEq, Eq, Debug, Structural)]
pub enum Reason {
    /// The sandbox directories could not be created.
    EnvironmentSetupFailure,
    /// A subprocess could not be started.
    SpawnFailure,
    /// Reading the installer's diagnostic stream failed.
    StreamReadFailure,
    /// The installer exited with a non-zero status.
    InstallFailed,
    /// The launched binary exited with a non-zero status.
    RunFailed,
}

/// What the outside world reports to the control machine. A `bool` payload
/// reports success or failure of the step.
#[derive(Clone, Copy, PartialEq, Eq, Debug, Structural)]
pub enum Event {
    /// The sandbox was created, or could not be.
    SandboxCreated(bool),
    /// The installer subprocess was spawned, or could not be.
    InstallerSpawned(bool),
    /// One diagnostic line was read.
    LineRead,
    /// The diagnostic stream ended normally.
    StreamEnded,
    /// Reading the diagnostic stream failed.
    StreamFailed,
    /// The installer exited; the payload is whether its status was success.
    InstallerExited(bool),
    /// The installed binary could not be started.
    RunnerFailedToStart,
    /// The installed binary exited; the payload is whether its status was success.
    RunnerExited(bool),
}

/// Where one run stands.
#[derive(Clone, Copy, PartialEq, Eq, Debug, Structural)]
pub enum DriverState {
    /// Nothing happened yet; the sandbox is about to be created.
    Init,
    /// The sandbox exists; the installer is about to be spawned.
    SandboxReady,
    /// The installer runs and its diagnostic stream is being read.
    Streaming,
    /// The stream failed; the installer is still awaited, then the run fails.
    Reaping,
    /// The stream ended; the installer's exit status is awaited.
    AwaitingInstaller,
    /// The installer succeeded; the binary is about to be launched.
    ReadyToRun,
    /// The binary ran and succeeded.
    Done,
    /// The run failed for the carried reason.
    Failed(Reason),
}

/// What the caller must do next in a given state.
#[derive(Clone, Copy, PartialEq, Eq, Debug, Structural)]
pub enum Action {
    CreateSandbox,
    SpawnInstaller,
    ReadLine,
    WaitInstaller,
    LaunchBinary,
    Stop,
}

/// The transition function of the control machine: one event moves one
/// state to the next. An event that makes no sense in a state is ignored.
pub open spec fn spec_next(s: DriverState, e: Event) -> DriverState {
    match (s, e) {
        (DriverState::Init, Event::SandboxCreated(ok)) => {
            if ok {
                DriverState::SandboxReady
            } else {
                DriverState::Failed(Reason::EnvironmentSetupFailure)
            }
        },
        (DriverState::SandboxReady, Event::InstallerSpawned(ok)) => {
            if ok {
                DriverState::Streaming
            } else {
                DriverState::Failed(Reason::SpawnFailure)
            }
        },
        (DriverState::Streaming, Event::LineRead) => DriverState::Streaming,
        (DriverState::Streaming, Event::StreamEnded) => DriverState::AwaitingInstaller,
        (DriverState::Streaming, Event::StreamFailed) => DriverState::Reaping,
        (DriverState::Reaping, Event::InstallerExited(_)) => DriverState::Failed(
            Reason::StreamReadFailure,
        ),
        (DriverState::AwaitingInstaller, Event::InstallerExited(ok)) => {
            if ok {
                DriverState::ReadyToRun
            } else {
                DriverState::Failed(Reason::InstallFailed)
            }
        },
        (DriverState::ReadyToRun, Event::RunnerFailedToStart) => DriverState::Failed(
            Reason::SpawnFailure,
        ),
        (DriverState::ReadyToRun, Event::RunnerExited(ok)) => {
            if ok {
                DriverState::Done
            } else {
                DriverState::Failed(Reason::RunFailed)
            }
        },
        _ => s,
    }
}

/// Applies one event to the control machine.
pub fn next(s: DriverState, e: Event) -> (r: DriverState)
    ensures
        r == spec_next(s, e),
{
    match (s, e) {
        (DriverState::Init, Event::SandboxCreated(ok)) => {
            if ok {
                DriverState::SandboxReady
            } else {
                DriverState::Failed(Reason::EnvironmentSetupFailure)
            }
        },
        (DriverState::SandboxReady, Event::InstallerSpawned(ok)) => {
            if ok {
                DriverState::Streaming
            } else {
                DriverState::Failed(Reason::SpawnFailure)
            }
        },
        (DriverState::Streaming, Event::LineRead) => DriverState::Streaming,
        (DriverState::Streaming, Event::StreamEnded) => DriverState::AwaitingInstaller,
        (DriverState::Streaming, Event::StreamFailed) => DriverState::Reaping,
        (DriverState::Reaping, Event::InstallerExited(_)) => DriverState::Failed(
            Reason::StreamReadFailure,
        ),
        (DriverState::AwaitingInstaller, Event::InstallerExited(ok)) => {
            if ok {
                DriverState::ReadyToRun
            } else {
                DriverState::Failed(Reason::InstallFailed)
            }
        },
        (DriverState::ReadyToRun, Event::RunnerFailedToStart) => DriverState::Failed(
            Reason::SpawnFailure,
        ),
        (DriverState::ReadyToRun, Event::RunnerExited(ok)) => {
            if ok {
                DriverState::Done
            } else {
                DriverState::Failed(Reason::RunFailed)
            }
        },
        (other, _) => other,
    }
}

/// The outside work owed in a state.
pub open spec fn spec_action(s: DriverState) -> Action {
    match s {
        DriverState::Init => Action::CreateSandbox,
        DriverState::SandboxReady => Action::SpawnInstaller,
        DriverState::Streaming => Action::ReadLine,
        DriverState::Reaping => Action::WaitInstaller,
        DriverState::AwaitingInstaller => Action::WaitInstaller,
        DriverState::ReadyToRun => Action::LaunchBinary,
        DriverState::Done => Action::Stop,
        DriverState::Failed(_) => Action::Stop,
    }
}

/// What the caller must do next in state `s`.
pub fn next_action(s: DriverState) -> (a: Action)
    ensures
        a == spec_action(s),
{
    match s {
        DriverState::Init => Action::CreateSandbox,
        DriverState::SandboxReady => Action::SpawnInstaller,
        DriverState::Streaming => Action::ReadLine,
        DriverState::Reaping => Action::WaitInstaller,
        DriverState::AwaitingInstaller => Action::WaitInstaller,
        DriverState::ReadyToRun => Action::LaunchBinary,
        DriverState::Done => Action::Stop,
        DriverState::Failed(_) => Action::Stop,
    }
}

/// The state after a whole sequence of events, applied in order from `s`.
pub open spec fn spec_run(s: DriverState, evs: Seq<Event>) -> DriverState
    decreases evs.len(),
{
    if evs.len() == 0 {
        s
    } else {
        spec_run(spec_next(s, evs[0]), evs.subrange(1, evs.len() as int))
    }
}

// ---------------------------------------------------------------------------
// Laws of the control machine.
// ---------------------------------------------------------------------------

/// Law: a failed installer always fails the run, and the binary is not
/// launched: the machine moves to a state whose action is `Stop`.
pub proof fn lemma_install_failure_stops()
    ensures
        spec_next(DriverState::AwaitingInstaller, Event::InstallerExited(false))
            == DriverState::Failed(Reason::InstallFailed),
        spec_action(DriverState::Failed(Reason::InstallFailed)) == Action::Stop,
{
}

/// Law: the only way into `ReadyToRun` — the one state whose action launches
/// the binary — is the installer exiting successfully.
pub proof fn lemma_launch_needs_install_success(s: DriverState, e: Event)
    ensures
        spec_action(spec_next(s, e)) == Action::LaunchBinary && s != DriverState::ReadyToRun
            ==> s == DriverState::AwaitingInstaller && e == Event::InstallerExited(true),
{
}

/// Law: a run that launches the binary, or finishes, saw the installer exit
/// successfully at some point.
pub proof fn lemma_success_saw_install(s: DriverState, evs: Seq<Event>)
    requires
        s != DriverState::ReadyToRun,
        s != DriverState::Done,
    ensures
        spec_run(s, evs) == DriverState::ReadyToRun || spec_run(s, evs) == DriverState::Done
            ==> evs.contains(Event::InstallerExited(true)),
    decreases evs.len(),
{
    if evs.len() > 0 {
        let s1 = spec_next(s, evs[0]);
        let rest = evs.subrange(1, evs.len() as int);
        if s1 == DriverState::ReadyToRun || s1 == DriverState::Done {
            assert(evs[0] == Event::InstallerExited(true));
            assert(evs.contains(Event::InstallerExited(true)));
        } else {
            lemma_success_saw_install(s1, rest);
            if spec_run(s, evs) == DriverState::ReadyToRun || spec_run(s, evs)
                == DriverState::Done {
                assert(rest.contains(Event::InstallerExited(true)));
                let i = choose|i: int|
                    0 <= i < rest.len() && rest[i] == Event::InstallerExited(true);
                assert(evs[i + 1] == Event::InstallerExited(true));
                assert(evs.contains(Event::InstallerExited(true)));
            }
        }
    }
}

/// Law: once the installer has succeeded, a failing binary yields `RunFailed`.
pub proof fn lemma_runner_failure_reported()
    ensures
        spec_next(DriverState::ReadyToRun, Event::RunnerExited(false)) == DriverState::Failed(
            Reason::RunFailed,
        ),
        spec_next(DriverState::ReadyToRun, Event::RunnerExited(true)) == DriverState::Done,
{
}

} // verus!
