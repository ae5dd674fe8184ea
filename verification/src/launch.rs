//! The launch of the backend as a state machine.
//!
//! A launch asks the outside world a few questions, one at a time, and ends
//! with an outcome. The machine here decides what is asked next; the caller
//! does what is asked and reports back. Nothing is spawned before both the
//! backend's directory and its entry file were found.

use vstd::prelude::*;
use crate::guard::{list_holders, listed, GuardPolicy, TARGET_PORT};
use crate::paths::{Location, LocationView, ENTRY_FILE};

verus! {

/// The program that runs the backend's entry file.
pub const RUNTIME: &'static str = "node";

/// How a launch ended.
#[derive(Debug, PartialEq, Eq)]
pub enum Outcome<H, E> {
    /// The backend is running; this is its handle.
    Started(H),
    /// The backend's directory does not exist.
    MissingDirectory,
    /// The directory is there, the entry file is not.
    MissingEntry,
    /// The operating system refused to start the process.
    SpawnFailed(E),
}

/// The stream on which an outcome is reported.
#[derive(Clone, Copy, Debug, PartialEq, Eq, Structural)]
pub enum Stream {
    /// Standard output, for good news.
    Standard,
    /// Standard error, for everything else.
    Error,
}

impl<H, E> Outcome<H, E> {
    /// The handle that the launch produced: present after a start, absent
    /// after every failure.
    pub open spec fn handle(self) -> Option<H> {
        match self {
            Outcome::Started(h) => Some(h),
            _ => None,
        }
    }

    /// The stream that the message about this outcome belongs on.
    pub open spec fn stream(self) -> Stream {
        match self {
            Outcome::Started(_) => Stream::Standard,
            _ => Stream::Error,
        }
    }

    /// Gives up the outcome for the handle that goes into the slot.
    pub fn into_handle(self) -> (handle: Option<H>)
        ensures
            handle == self.handle(),
    {
        match self {
            Outcome::Started(h) => Some(h),
            _ => None,
        }
    }

    /// Says where the message about this outcome is written.
    pub fn report_stream(&self) -> (stream: Stream)
        ensures
            stream == self.stream(),
    {
        match self {
            Outcome::Started(_) => Stream::Standard,
            _ => Stream::Error,
        }
    }
}

/// How the backend process is to be started.
#[derive(Debug, PartialEq, Eq)]
pub struct SpawnPlan {
    /// The program to run.
    pub program: String,
    /// Its single argument: the entry file, relative to `working_dir`.
    pub argument: String,
    /// The directory in which the process runs.
    pub working_dir: String,
    /// Whether standard output and standard error of the child are piped to
    /// the parent instead of being inherited.
    pub capture_output: bool,
}

/// A spawn plan as plain text.
pub struct SpawnPlanView {
    pub program: Seq<char>,
    pub argument: Seq<char>,
    pub working_dir: Seq<char>,
    pub capture_output: bool,
}

impl View for SpawnPlan {
    type V = SpawnPlanView;

    open spec fn view(&self) -> SpawnPlanView {
        SpawnPlanView {
            program: self.program@,
            argument: self.argument@,
            working_dir: self.working_dir@,
            capture_output: self.capture_output,
        }
    }
}

/// The plan for a backend at `location`: the runtime on the entry file,
/// inside the backend's directory, with its output captured.
pub open spec fn plan_for(location: LocationView) -> SpawnPlanView {
    SpawnPlanView {
        program: RUNTIME@,
        argument: ENTRY_FILE@,
        working_dir: location.dir,
        capture_output: true,
    }
}

/// Writes the spawn plan for a location.
pub fn spawn_plan(location: &Location) -> (plan: SpawnPlan)
    ensures
        plan@ == plan_for(location@),
{
    SpawnPlan {
        program: RUNTIME.to_owned(),
        argument: ENTRY_FILE.to_owned(),
        working_dir: location.dir.clone(),
        capture_output: true,
    }
}

/// What the caller reports back to the machine.
#[derive(Debug, PartialEq, Eq)]
pub enum Event<H, E> {
    /// Whether the path that was to be probed exists.
    Probed(bool),
    /// What the query for listeners on the port printed, or nothing where
    /// the query could not be made.
    Listeners(Option<Vec<u8>>),
    /// A kill was attempted; whether it worked does not matter.
    Killed,
    /// What came of starting the process.
    Spawned(Result<H, E>),
}

/// An event with its text as a sequence.
pub enum EventView<H, E> {
    Probed(bool),
    Listeners(Option<Seq<u8>>),
    Killed,
    Spawned(Result<H, E>),
}

impl<H, E> View for Event<H, E> {
    type V = EventView<H, E>;

    open spec fn view(&self) -> EventView<H, E> {
        match *self {
            Event::Probed(exists) => EventView::Probed(exists),
            Event::Listeners(Some(text)) => EventView::Listeners(Some(text@)),
            Event::Listeners(None) => EventView::Listeners(None),
            Event::Killed => EventView::Killed,
            Event::Spawned(result) => EventView::Spawned(result),
        }
    }
}

/// What the machine asks the caller to do next.
#[derive(Debug, PartialEq, Eq)]
pub enum Action<H, E> {
    /// Find out whether this directory exists.
    ProbeDirectory(String),
    /// Find out whether this file exists.
    ProbeEntry(String),
    /// Ask the operating system who listens on this port.
    QueryPort(u16),
    /// Forcefully stop the process with this id.
    Kill(u32),
    /// Start the backend as the plan says.
    Spawn(SpawnPlan),
    /// The launch is over.
    Finish(Outcome<H, E>),
    /// The event was not the answer the machine was waiting for. It comes
    /// back untouched and the machine has not moved.
    Unexpected(Event<H, E>),
}

/// An action with its texts as sequences.
pub enum ActionView<H, E> {
    ProbeDirectory(Seq<char>),
    ProbeEntry(Seq<char>),
    QueryPort(u16),
    Kill(u32),
    Spawn(SpawnPlanView),
    Finish(Outcome<H, E>),
    Unexpected(EventView<H, E>),
}

impl<H, E> View for Action<H, E> {
    type V = ActionView<H, E>;

    open spec fn view(&self) -> ActionView<H, E> {
        match *self {
            Action::ProbeDirectory(dir) => ActionView::ProbeDirectory(dir@),
            Action::ProbeEntry(entry) => ActionView::ProbeEntry(entry@),
            Action::QueryPort(port) => ActionView::QueryPort(port),
            Action::Kill(pid) => ActionView::Kill(pid),
            Action::Spawn(plan) => ActionView::Spawn(plan@),
            Action::Finish(outcome) => ActionView::Finish(outcome),
            Action::Unexpected(event) => ActionView::Unexpected(event@),
        }
    }
}

/// The answer that a launch is waiting for.
pub enum Stage {
    /// Whether the backend's directory exists.
    AwaitDirectory,
    /// Whether the entry file exists.
    AwaitEntry,
    /// Who listens on the port.
    AwaitListeners,
    /// That a kill was attempted; `pending` are the processes still to be
    /// stopped after that one.
    AwaitKill { pending: Seq<u32> },
    /// What came of the spawn.
    AwaitSpawn,
    /// Nothing: the launch is over.
    Finished,
}

/// A launch as a mathematical value.
pub struct LaunchView {
    pub policy: GuardPolicy,
    pub location: LocationView,
    pub stage: Stage,
}

/// The stage that follows when `pids` are the processes left to stop: the
/// first of them is being stopped, or, with none left, the spawn is awaited.
pub open spec fn stage_clearing(pids: Seq<u32>) -> Stage {
    if pids.len() == 0 {
        Stage::AwaitSpawn
    } else {
        Stage::AwaitKill { pending: pids.skip(1) }
    }
}

/// What is asked for when `pids` are the processes left to stop: a kill of
/// the first of them, or, with none left, the spawn.
pub open spec fn action_clearing<H, E>(location: LocationView, pids: Seq<u32>) -> ActionView<H, E> {
    if pids.len() == 0 {
        ActionView::Spawn(plan_for(location))
    } else {
        ActionView::Kill(pids[0])
    }
}

impl LaunchView {
    /// A launch that has asked its first question.
    pub open spec fn fresh(policy: GuardPolicy, location: LocationView) -> LaunchView {
        LaunchView { policy, location, stage: Stage::AwaitDirectory }
    }

    /// Whether `event` answers what the launch is waiting for.
    pub open spec fn expects<H, E>(self, event: EventView<H, E>) -> bool {
        match (self.stage, event) {
            (Stage::AwaitDirectory, EventView::Probed(_)) => true,
            (Stage::AwaitEntry, EventView::Probed(_)) => true,
            (Stage::AwaitListeners, EventView::Listeners(_)) => true,
            (Stage::AwaitKill { .. }, EventView::Killed) => true,
            (Stage::AwaitSpawn, EventView::Spawned(_)) => true,
            _ => false,
        }
    }

    /// The stage after `event`.
    pub open spec fn stage_after<H, E>(self, event: EventView<H, E>) -> Stage {
        match (self.stage, event) {
            (Stage::AwaitDirectory, EventView::Probed(true)) => Stage::AwaitEntry,
            (Stage::AwaitDirectory, EventView::Probed(false)) => Stage::Finished,
            (Stage::AwaitEntry, EventView::Probed(true)) => match self.policy {
                GuardPolicy::Active => Stage::AwaitListeners,
                GuardPolicy::Inactive => Stage::AwaitSpawn,
            },
            (Stage::AwaitEntry, EventView::Probed(false)) => Stage::Finished,
            (Stage::AwaitListeners, EventView::Listeners(answer)) => stage_clearing(
                listed(answer),
            ),
            (Stage::AwaitKill { pending }, EventView::Killed) => stage_clearing(pending),
            (Stage::AwaitSpawn, EventView::Spawned(_)) => Stage::Finished,
            (stage, _) => stage,
        }
    }

    /// The launch after `event`: policy and location never change.
    pub open spec fn after<H, E>(self, event: EventView<H, E>) -> LaunchView {
        LaunchView { policy: self.policy, location: self.location, stage: self.stage_after(event) }
    }

    /// What the launch asks for in answer to `event`.
    pub open spec fn reaction<H, E>(self, event: EventView<H, E>) -> ActionView<H, E> {
        match (self.stage, event) {
            (Stage::AwaitDirectory, EventView::Probed(true)) => ActionView::ProbeEntry(
                self.location.entry,
            ),
            (Stage::AwaitDirectory, EventView::Probed(false)) => ActionView::Finish(
                Outcome::MissingDirectory,
            ),
            (Stage::AwaitEntry, EventView::Probed(true)) => match self.policy {
                GuardPolicy::Active => ActionView::QueryPort(TARGET_PORT),
                GuardPolicy::Inactive => ActionView::Spawn(plan_for(self.location)),
            },
            (Stage::AwaitEntry, EventView::Probed(false)) => ActionView::Finish(
                Outcome::MissingEntry,
            ),
            (Stage::AwaitListeners, EventView::Listeners(answer)) => action_clearing(
                self.location,
                listed(answer),
            ),
            (Stage::AwaitKill { pending }, EventView::Killed) => action_clearing(
                self.location,
                pending,
            ),
            (Stage::AwaitSpawn, EventView::Spawned(Ok(handle))) => ActionView::Finish(
                Outcome::Started(handle),
            ),
            (Stage::AwaitSpawn, EventView::Spawned(Err(error))) => ActionView::Finish(
                Outcome::SpawnFailed(error),
            ),
            (_, event) => ActionView::Unexpected(event),
        }
    }
}

/// The answer that a running launch is waiting for.
enum Phase {
    AwaitDirectory,
    AwaitEntry,
    AwaitListeners,
    AwaitKill { pending: Vec<u32> },
    AwaitSpawn,
    Finished,
}

impl Phase {
    spec fn stage(self) -> Stage {
        match self {
            Phase::AwaitDirectory => Stage::AwaitDirectory,
            Phase::AwaitEntry => Stage::AwaitEntry,
            Phase::AwaitListeners => Stage::AwaitListeners,
            Phase::AwaitKill { pending } => Stage::AwaitKill { pending: pending@ },
            Phase::AwaitSpawn => Stage::AwaitSpawn,
            Phase::Finished => Stage::Finished,
        }
    }
}

/// One launch of the backend, from the first probe to its outcome.
///
/// The fields are private: a launch can only be begun at its first question
/// and moved by `step`, so it cannot reach the spawn by another road.
pub struct Launch {
    policy: GuardPolicy,
    location: Location,
    phase: Phase,
}

impl View for Launch {
    type V = LaunchView;

    closed spec fn view(&self) -> LaunchView {
        LaunchView { policy: self.policy, location: self.location@, stage: self.phase.stage() }
    }
}

impl Launch {
    /// Begins a launch for a backend at `location` and asks the first
    /// question: whether the backend's directory exists.
    pub fn begin<H, E>(policy: GuardPolicy, location: Location) -> (started: (
        Launch,
        Action<H, E>,
    ))
        ensures
            started.0@ == LaunchView::fresh(policy, location@),
            started.1@ == ActionView::<H, E>::ProbeDirectory(location.dir@),
    {
        let first = Action::ProbeDirectory(location.dir.clone());
        (Launch { policy, location, phase: Phase::AwaitDirectory }, first)
    }

    /// The place where this launch looks for the backend.
    pub fn location(&self) -> (location: &Location)
        ensures
            location@ == self@.location,
    {
        &self.location
    }

    /// Whether the launch is over.
    pub fn is_finished(&self) -> (b: bool)
        ensures
            b == (self@.stage is Finished),
    {
        match self.phase {
            Phase::Finished => true,
            _ => false,
        }
    }

    /// Either the next kill, with the rest kept for later, or the spawn.
    fn clear_or_spawn<H, E>(policy: GuardPolicy, location: Location, pids: Vec<u32>) -> (next: (
        Launch,
        Action<H, E>,
    ))
        ensures
            next.0@ == (LaunchView { policy, location: location@, stage: stage_clearing(pids@) }),
            next.1@ == action_clearing::<H, E>(location@, pids@),
    {
        let mut pending = pids;
        if pending.len() == 0 {
            let plan = spawn_plan(&location);
            (Launch { policy, location, phase: Phase::AwaitSpawn }, Action::Spawn(plan))
        } else {
            let pid = pending.remove(0);
            (Launch { policy, location, phase: Phase::AwaitKill { pending } }, Action::Kill(pid))
        }
    }

    /// Moves the launch by one event and says what to do next.
    ///
    /// An event that does not answer the pending question changes nothing
    /// and is handed back inside `Action::Unexpected`.
    pub fn step<H, E>(self, event: Event<H, E>) -> (next: (Launch, Action<H, E>))
        ensures
            next.0@ == self@.after(event@),
            next.1@ == self@.reaction(event@),
    {
        let Launch { policy, location, phase } = self;
        match (phase, event) {
            (Phase::AwaitDirectory, Event::Probed(exists)) => {
                if exists {
                    let ask = Action::ProbeEntry(location.entry.clone());
                    (Launch { policy, location, phase: Phase::AwaitEntry }, ask)
                } else {
                    (
                        Launch { policy, location, phase: Phase::Finished },
                        Action::Finish(Outcome::MissingDirectory),
                    )
                }
            },
            (Phase::AwaitEntry, Event::Probed(exists)) => {
                if !exists {
                    (
                        Launch { policy, location, phase: Phase::Finished },
                        Action::Finish(Outcome::MissingEntry),
                    )
                } else {
                    match policy {
                        GuardPolicy::Active => (
                            Launch { policy, location, phase: Phase::AwaitListeners },
                            Action::QueryPort(TARGET_PORT),
                        ),
                        GuardPolicy::Inactive => {
                            let plan = spawn_plan(&location);
                            (
                                Launch { policy, location, phase: Phase::AwaitSpawn },
                                Action::Spawn(plan),
                            )
                        },
                    }
                }
            },
            (Phase::AwaitListeners, Event::Listeners(answer)) => {
                let pids = list_holders(answer);
                Self::clear_or_spawn(policy, location, pids)
            },
            (Phase::AwaitKill { pending }, Event::Killed) => Self::clear_or_spawn(
                policy,
                location,
                pending,
            ),
            (Phase::AwaitSpawn, Event::Spawned(result)) => {
                let outcome = match result {
                    Ok(handle) => Outcome::Started(handle),
                    Err(error) => Outcome::SpawnFailed(error),
                };
                (Launch { policy, location, phase: Phase::Finished }, Action::Finish(outcome))
            },
            (phase, event) => (Launch { policy, location, phase }, Action::Unexpected(event)),
        }
    }
}

/// An event that the launch does not expect changes nothing and comes
/// back; an event that it expects never comes back.
pub proof fn law_unexpected_events_change_nothing<H, E>(launch: LaunchView, event: EventView<H, E>)
    ensures
        !launch.expects(event) ==> launch.after(event) == launch && launch.reaction(event)
            == ActionView::Unexpected(event),
        launch.expects(event) ==> !(launch.reaction(event) is Unexpected),
{
}

/// A finished launch expects nothing more, and a launch finishes exactly
/// when it says so: the closing action and the final stage come together.
pub proof fn law_finish_is_final<H, E>(launch: LaunchView, event: EventView<H, E>)
    ensures
        launch.stage is Finished ==> !launch.expects(event),
        launch.reaction(event) is Finish <==> launch.expects(event) && launch.after(
            event,
        ).stage is Finished,
{
}

/// Each action that touches the outside world is asked for on entering the
/// stage that waits for its result: a query of the port, a kill and a spawn
/// are never asked for without the machine moving on to await them.
pub proof fn law_requests_are_awaited<H, E>(launch: LaunchView, event: EventView<H, E>)
    ensures
        launch.reaction(event) is ProbeEntry ==> launch.after(event).stage is AwaitEntry,
        launch.reaction(event) is QueryPort ==> launch.after(event).stage is AwaitListeners,
        launch.reaction(event) is Kill ==> launch.after(event).stage is AwaitKill,
        launch.reaction(event) is Spawn ==> launch.after(event).stage is AwaitSpawn,
        !(launch.reaction(event) is ProbeDirectory),
{
}

} // verus!
