//! The launcher as a state machine. The caller does what touches the world
//! (reads the environment and the command line, asks the file system,
//! starts and awaits the child) and reports each result as an [`Event`];
//! [`step`] answers with the next [`State`] and the [`Action`] to perform.

use vstd::prelude::*;
use vstd::string::*;
use crate::config::{Config, ConfigView};
use crate::error::{LaunchError, LaunchErrorView, FAILURE_EXIT_CODE};
use crate::locate::{binary_location_of, candidate_location, validate_location, FileProbe};
use crate::platform::{is_supported, platform_key, platform_key_of};
use crate::text::texts_of;

verus! {

/// How the child ended.
#[derive(Debug, Clone, Copy, PartialEq, Eq, Structural)]
pub enum ChildStatus {
    /// It exited by itself, with this code.
    Exited(i32),
    /// It was terminated by this signal.
    Signaled(i32),
}

/// How the launcher itself ends.
#[derive(Debug, Clone, PartialEq, Eq)]
pub enum Outcome {
    /// It exits with the child's code.
    Code(i32),
    /// It terminates itself by the signal that ended the child.
    Signal(i32),
    /// It reports the error and exits with [`FAILURE_EXIT_CODE`].
    Failed(LaunchError),
}

pub ghost enum OutcomeView {
    Code(i32),
    Signal(i32),
    Failed(LaunchErrorView),
}

impl View for Outcome {
    type V = OutcomeView;

    open spec fn view(&self) -> OutcomeView {
        match self {
            Outcome::Code(code) => OutcomeView::Code(*code),
            Outcome::Signal(signal) => OutcomeView::Signal(*signal),
            Outcome::Failed(error) => OutcomeView::Failed(error@),
        }
    }
}

/// Where a run stands.
#[derive(Debug, Clone, PartialEq, Eq)]
pub enum State {
    /// Nothing has been done yet.
    Idle,
    /// The configuration is known, and the arguments for the child.
    ConfigResolved { config: Config, args: Vec<String> },
    /// The host's key is known and has a binary, expected at `path`.
    PlatformKeyComputed { key: String, path: String, args: Vec<String> },
    /// The file at `path` exists and can be executed.
    PathValidated { path: String },
    /// The child runs.
    ChildSpawned,
    /// The child exited by itself.
    ChildExited { code: i32 },
    /// The child was terminated by a signal.
    ChildSignaled { signal: i32 },
    /// The launcher ends.
    ProcessExit { outcome: Outcome },
}

pub ghost enum StateView {
    Idle,
    ConfigResolved { config: ConfigView, args: Seq<Seq<char>> },
    PlatformKeyComputed { key: Seq<char>, path: Seq<char>, args: Seq<Seq<char>> },
    PathValidated { path: Seq<char> },
    ChildSpawned,
    ChildExited { code: i32 },
    ChildSignaled { signal: i32 },
    ProcessExit { outcome: OutcomeView },
}

impl View for State {
    type V = StateView;

    open spec fn view(&self) -> StateView {
        match self {
            State::Idle => StateView::Idle,
            State::ConfigResolved { config, args } => StateView::ConfigResolved {
                config: config@,
                args: texts_of(args@),
            },
            State::PlatformKeyComputed { key, path, args } => StateView::PlatformKeyComputed {
                key: key@,
                path: path@,
                args: texts_of(args@),
            },
            State::PathValidated { path } => StateView::PathValidated { path: path@ },
            State::ChildSpawned => StateView::ChildSpawned,
            State::ChildExited { code } => StateView::ChildExited { code: *code },
            State::ChildSignaled { signal } => StateView::ChildSignaled { signal: *signal },
            State::ProcessExit { outcome } => StateView::ProcessExit { outcome: outcome@ },
        }
    }
}

/// What the caller reports.
#[derive(Debug, Clone, PartialEq, Eq)]
pub enum Event {
    /// The configuration was resolved; `argv` is the command line with
    /// which the launcher itself was started, its own name first.
    Configured { config: Config, argv: Vec<String> },
    /// The runtime named the host's operating system and architecture.
    PlatformDetected { os: String, arch: String },
    /// The file system was asked about the expected path.
    FileProbed { probe: FileProbe },
    /// The child was started.
    Spawned,
    /// The operating system refused to start the child.
    SpawnFailed { reason: String },
    /// The launcher received an interrupt.
    Interrupted,
    /// The child ended.
    ChildFinished { status: ChildStatus },
    /// Waiting for the child failed.
    WaitFailed { reason: String },
    /// The handle of the ended child was given up.
    ChildReleased,
}

pub ghost enum EventView {
    Configured { config: ConfigView, argv: Seq<Seq<char>> },
    PlatformDetected { os: Seq<char>, arch: Seq<char> },
    FileProbed { probe: FileProbe },
    Spawned,
    SpawnFailed { reason: Seq<char> },
    Interrupted,
    ChildFinished { status: ChildStatus },
    WaitFailed { reason: Seq<char> },
    ChildReleased,
}

impl View for Event {
    type V = EventView;

    open spec fn view(&self) -> EventView {
        match self {
            Event::Configured { config, argv } => EventView::Configured {
                config: config@,
                argv: texts_of(argv@),
            },
            Event::PlatformDetected { os, arch } => EventView::PlatformDetected {
                os: os@,
                arch: arch@,
            },
            Event::FileProbed { probe } => EventView::FileProbed { probe: *probe },
            Event::Spawned => EventView::Spawned,
            Event::SpawnFailed { reason } => EventView::SpawnFailed { reason: reason@ },
            Event::Interrupted => EventView::Interrupted,
            Event::ChildFinished { status } => EventView::ChildFinished { status: *status },
            Event::WaitFailed { reason } => EventView::WaitFailed { reason: reason@ },
            Event::ChildReleased => EventView::ChildReleased,
        }
    }
}

/// What the caller is to do next.
#[derive(Debug, Clone, PartialEq, Eq)]
pub enum Action {
    /// Ask the runtime for the host's operating system and architecture.
    DetectPlatform,
    /// Ask the file system whether `path` exists and can be executed.
    ProbeFile { path: String },
    /// Start the file at `path` as a child, with exactly the arguments
    /// `args` and the launcher's own standard streams.
    Spawn { path: String, args: Vec<String> },
    /// Wait until the child ends or an interrupt arrives.
    AwaitChild,
    /// Send the child a termination signal, then go on waiting.
    ForwardInterrupt,
    /// Give up the handle of the ended child.
    ReleaseChild,
    /// End the launcher as `outcome` says.
    Terminate { outcome: Outcome },
    /// Nothing: the event has no meaning in this state.
    Ignore,
}

pub ghost enum ActionView {
    DetectPlatform,
    ProbeFile { path: Seq<char> },
    Spawn { path: Seq<char>, args: Seq<Seq<char>> },
    AwaitChild,
    ForwardInterrupt,
    ReleaseChild,
    Terminate { outcome: OutcomeView },
    Ignore,
}

impl View for Action {
    type V = ActionView;

    open spec fn view(&self) -> ActionView {
        match self {
            Action::DetectPlatform => ActionView::DetectPlatform,
            Action::ProbeFile { path } => ActionView::ProbeFile { path: path@ },
            Action::Spawn { path, args } => ActionView::Spawn {
                path: path@,
                args: texts_of(args@),
            },
            Action::AwaitChild => ActionView::AwaitChild,
            Action::ForwardInterrupt => ActionView::ForwardInterrupt,
            Action::ReleaseChild => ActionView::ReleaseChild,
            Action::Terminate { outcome } => ActionView::Terminate { outcome: outcome@ },
            Action::Ignore => ActionView::Ignore,
        }
    }
}

/// One move of the machine: the state it reaches and the action it asks for.
#[derive(Debug, Clone, PartialEq, Eq)]
pub struct Transition {
    pub state: State,
    pub action: Action,
}

pub ghost struct TransitionView {
    pub state: StateView,
    pub action: ActionView,
}

impl View for Transition {
    type V = TransitionView;

    open spec fn view(&self) -> TransitionView {
        TransitionView { state: self.state@, action: self.action@ }
    }
}

/// The end of a run that failed with `error`.
pub open spec fn aborted(error: LaunchErrorView) -> TransitionView {
    TransitionView {
        state: StateView::ProcessExit { outcome: OutcomeView::Failed(error) },
        action: ActionView::Terminate { outcome: OutcomeView::Failed(error) },
    }
}

/// The end of a run whose child ended: the launcher ends as the child did.
pub open spec fn concluded(outcome: OutcomeView) -> TransitionView {
    TransitionView {
        state: StateView::ProcessExit { outcome },
        action: ActionView::Terminate { outcome },
    }
}

/// An event without meaning in `state` changes nothing.
pub open spec fn ignored(state: StateView) -> TransitionView {
    TransitionView { state, action: ActionView::Ignore }
}

/// The machine's rules.
pub open spec fn step_of(state: StateView, event: EventView) -> TransitionView {
    match state {
        StateView::Idle => match event {
            EventView::Configured { config, argv } => TransitionView {
                state: StateView::ConfigResolved { config, args: child_arguments_of(argv) },
                action: ActionView::DetectPlatform,
            },
            _ => ignored(state),
        },
        StateView::ConfigResolved { config, args } => match event {
            EventView::PlatformDetected { os, arch } => {
                let key = platform_key_of(os, arch);
                if is_supported(key) {
                    let path = binary_location_of(config, key);
                    TransitionView {
                        state: StateView::PlatformKeyComputed { key, path, args },
                        action: ActionView::ProbeFile { path },
                    }
                } else {
                    aborted(LaunchErrorView::UnsupportedPlatform { key })
                }
            },
            _ => ignored(state),
        },
        StateView::PlatformKeyComputed { key, path, args } => match event {
            EventView::FileProbed { probe } => match probe {
                FileProbe::Ready => TransitionView {
                    state: StateView::PathValidated { path },
                    action: ActionView::Spawn { path, args },
                },
                FileProbe::Missing => aborted(LaunchErrorView::BinaryNotFound { path }),
                FileProbe::Inaccessible => aborted(LaunchErrorView::BinaryNotAccessible { path }),
            },
            _ => ignored(state),
        },
        StateView::PathValidated { path } => match event {
            EventView::Spawned => TransitionView {
                state: StateView::ChildSpawned,
                action: ActionView::AwaitChild,
            },
            EventView::SpawnFailed { reason } => aborted(
                LaunchErrorView::ChildSpawnFailure { reason },
            ),
            _ => ignored(state),
        },
        StateView::ChildSpawned => match event {
            EventView::Interrupted => TransitionView {
                state: StateView::ChildSpawned,
                action: ActionView::ForwardInterrupt,
            },
            EventView::ChildFinished { status } => match status {
                ChildStatus::Exited(code) => TransitionView {
                    state: StateView::ChildExited { code },
                    action: ActionView::ReleaseChild,
                },
                ChildStatus::Signaled(signal) => TransitionView {
                    state: StateView::ChildSignaled { signal },
                    action: ActionView::ReleaseChild,
                },
            },
            EventView::WaitFailed { reason } => aborted(
                LaunchErrorView::ChildWaitFailure { reason },
            ),
            _ => ignored(state),
        },
        StateView::ChildExited { code } => match event {
            EventView::ChildReleased => concluded(propagated(ChildStatus::Exited(code))),
            _ => ignored(state),
        },
        StateView::ChildSignaled { signal } => match event {
            EventView::ChildReleased => concluded(propagated(ChildStatus::Signaled(signal))),
            _ => ignored(state),
        },
        StateView::ProcessExit { outcome } => ignored(state),
    }
}

/// How the launcher ends after its child ended: with the child's own code,
/// or by the signal that ended the child.
pub open spec fn propagated(status: ChildStatus) -> OutcomeView {
    match status {
        ChildStatus::Exited(code) => OutcomeView::Code(code),
        ChildStatus::Signaled(signal) => OutcomeView::Signal(signal),
    }
}

/// The exit code that an outcome asks for, if it asks for one: a launcher
/// that ends by a signal has none.
pub open spec fn exit_code_of(outcome: OutcomeView) -> Option<i32> {
    match outcome {
        OutcomeView::Code(code) => Some(code),
        OutcomeView::Signal(_) => None,
        OutcomeView::Failed(_) => Some(FAILURE_EXIT_CODE),
    }
}

/// The arguments handed on to the child: all but the launcher's own name.
pub open spec fn child_arguments_of(argv: Seq<Seq<char>>) -> Seq<Seq<char>> {
    if argv.len() == 0 {
        argv
    } else {
        argv.skip(1)
    }
}

impl ChildStatus {
    /// How the launcher ends after a child that ended this way.
    pub fn propagate(self) -> (outcome: Outcome)
        ensures
            outcome@ == propagated(self),
    {
        match self {
            ChildStatus::Exited(code) => Outcome::Code(code),
            ChildStatus::Signaled(signal) => Outcome::Signal(signal),
        }
    }
}

impl Outcome {
    /// The code to exit with, or `None` where the launcher is to end by a
    /// signal instead.
    pub fn exit_code(&self) -> (code: Option<i32>)
        ensures
            code == exit_code_of(self@),
    {
        match self {
            Outcome::Code(code) => Some(*code),
            Outcome::Signal(_) => None,
            Outcome::Failed(_) => Some(FAILURE_EXIT_CODE),
        }
    }

    /// A copy of this outcome.
    pub fn duplicate(&self) -> (copy: Outcome)
        ensures
            copy@ == self@,
    {
        match self {
            Outcome::Code(code) => Outcome::Code(*code),
            Outcome::Signal(signal) => Outcome::Signal(*signal),
            Outcome::Failed(error) => Outcome::Failed(error.duplicate()),
        }
    }
}

impl State {
    /// The state in which every run begins.
    pub fn new() -> (state: State)
        ensures
            state@ == StateView::Idle,
    {
        State::Idle
    }

    /// Whether the run is over.
    pub fn is_final(&self) -> (r: bool)
        ensures
            r == (self@ is ProcessExit),
    {
        match self {
            State::ProcessExit { .. } => true,
            _ => false,
        }
    }
}

/// Ends the run with `error`.
fn abort(error: LaunchError) -> (next: Transition)
    ensures
        next@ == aborted(error@),
{
    let outcome = Outcome::Failed(error.duplicate());
    Transition {
        state: State::ProcessExit { outcome: Outcome::Failed(error) },
        action: Action::Terminate { outcome },
    }
}

/// Ends the run as the child ended.
fn conclude(status: ChildStatus) -> (next: Transition)
    ensures
        next@ == concluded(propagated(status)),
{
    Transition {
        state: State::ProcessExit { outcome: status.propagate() },
        action: Action::Terminate { outcome: status.propagate() },
    }
}

/// Moves the machine by one event. The state and the action are those of
/// [`step_of`], for every state and every event: an event that has no meaning
/// in a state leaves it as it is and asks for nothing.
pub fn step(state: State, event: Event) -> (next: Transition)
    ensures
        next@ == step_of(state@, event@),
{
    match (state, event) {
        (State::Idle, Event::Configured { config, argv }) => Transition {
            state: State::ConfigResolved { config, args: child_arguments(&argv) },
            action: Action::DetectPlatform,
        },
        (State::ConfigResolved { config, args }, Event::PlatformDetected { os, arch }) => {
            let key = platform_key(os.as_str(), arch.as_str());
            match candidate_location(&config, key.as_str()) {
                Ok(path) => Transition {
                    action: Action::ProbeFile { path: path.clone() },
                    state: State::PlatformKeyComputed { key, path, args },
                },
                Err(error) => abort(error),
            }
        },
        (State::PlatformKeyComputed { key, path, args }, Event::FileProbed { probe }) => {
            match validate_location(path, probe) {
                Ok(path) => Transition {
                    action: Action::Spawn { path: path.clone(), args },
                    state: State::PathValidated { path },
                },
                Err(error) => abort(error),
            }
        },
        (State::PathValidated { path }, Event::Spawned) => Transition {
            state: State::ChildSpawned,
            action: Action::AwaitChild,
        },
        (State::PathValidated { path }, Event::SpawnFailed { reason }) => abort(
            LaunchError::ChildSpawnFailure { reason },
        ),
        (State::ChildSpawned, Event::Interrupted) => Transition {
            state: State::ChildSpawned,
            action: Action::ForwardInterrupt,
        },
        (State::ChildSpawned, Event::ChildFinished { status }) => match status {
            ChildStatus::Exited(code) => Transition {
                state: State::ChildExited { code },
                action: Action::ReleaseChild,
            },
            ChildStatus::Signaled(signal) => Transition {
                state: State::ChildSignaled { signal },
                action: Action::ReleaseChild,
            },
        },
        (State::ChildSpawned, Event::WaitFailed { reason }) => abort(
            LaunchError::ChildWaitFailure { reason },
        ),
        (State::ChildExited { code }, Event::ChildReleased) => conclude(ChildStatus::Exited(code)),
        (State::ChildSignaled { signal }, Event::ChildReleased) => conclude(
            ChildStatus::Signaled(signal),
        ),
        (state, _) => Transition { state, action: Action::Ignore },
    }
}

/// The arguments for the child: the launcher's own, in order, without the
/// first, which is the launcher's name. An empty list stays empty.
pub fn child_arguments(argv: &Vec<String>) -> (args: Vec<String>)
    ensures
        texts_of(args@) == child_arguments_of(texts_of(argv@)),
{
    let mut args: Vec<String> = Vec::new();
    let mut i: usize = 1;
    while i < argv.len()
        invariant
            1 <= i,
            argv.len() > 0 ==> i <= argv.len(),
            argv.len() > 0 ==> args@.len() == i - 1,
            argv.len() == 0 ==> args@.len() == 0,
            forall|k: int| 0 <= k < args@.len() ==> args@[k]@ == argv@[k + 1]@,
        decreases argv.len() - i,
    {
        args.push(argv[i].clone());
        i = i + 1;
    }
    assert(texts_of(args@) =~= child_arguments_of(texts_of(argv@)));
    args
}

} // verus!
