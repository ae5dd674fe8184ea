//! The course of a whole launch: what the machine asks for, from the first
//! probe to the outcome, when every request is answered truthfully.

use vstd::prelude::*;
use crate::guard::{listed, GuardPolicy, TARGET_PORT};
use crate::launch::{
    action_clearing, plan_for, stage_clearing, ActionView, EventView, LaunchView, Outcome, Stage,
};
use crate::paths::LocationView;

verus! {

/// What the outside world holds at the time of a launch.
pub struct World<H, E> {
    /// Whether the backend's directory exists.
    pub directory_exists: bool,
    /// Whether the entry file exists.
    pub entry_exists: bool,
    /// What the query for listeners prints, absent where it cannot be made.
    pub listeners: Option<Seq<u8>>,
    /// What comes of starting the process.
    pub spawn: Result<H, E>,
}

impl<H, E> World<H, E> {
    /// The event with which this world answers a request. The two closing
    /// actions ask for nothing and get no answer.
    pub open spec fn answer(self, asked: ActionView<H, E>) -> Option<EventView<H, E>> {
        match asked {
            ActionView::ProbeDirectory(_) => Some(EventView::Probed(self.directory_exists)),
            ActionView::ProbeEntry(_) => Some(EventView::Probed(self.entry_exists)),
            ActionView::QueryPort(_) => Some(EventView::Listeners(self.listeners)),
            ActionView::Kill(_) => Some(EventView::Killed),
            ActionView::Spawn(_) => Some(EventView::Spawned(self.spawn)),
            ActionView::Finish(_) => None,
            ActionView::Unexpected(_) => None,
        }
    }

    /// The outcome of a spawn that was made.
    pub open spec fn ending(self) -> Outcome<H, E> {
        match self.spawn {
            Ok(handle) => Outcome::Started(handle),
            Err(error) => Outcome::SpawnFailed(error),
        }
    }
}

/// How far a stage is from the end of the launch.
pub open spec fn rank(stage: Stage) -> nat {
    match stage {
        Stage::AwaitDirectory => 5,
        Stage::AwaitEntry => 4,
        Stage::AwaitListeners => 3,
        Stage::AwaitKill { .. } => 2,
        Stage::AwaitSpawn => 1,
        Stage::Finished => 0,
    }
}

/// The number of processes that a stage still has to stop after the one
/// that is being stopped.
pub open spec fn backlog(stage: Stage) -> nat {
    match stage {
        Stage::AwaitKill { pending } => pending.len(),
        _ => 0,
    }
}

/// Every action of a launch in `world`, starting with `asked`, which the
/// machine in state `launch` has just asked for. The course ends with the
/// first action that gets no answer, or whose answer the machine does not
/// expect.
pub open spec fn course<H, E>(
    launch: LaunchView,
    asked: ActionView<H, E>,
    world: World<H, E>,
) -> Seq<ActionView<H, E>>
    decreases rank(launch.stage), backlog(launch.stage),
{
    match world.answer(asked) {
        Some(event) => if launch.expects(event) {
            seq![asked] + course(launch.after(event), launch.reaction(event), world)
        } else {
            seq![asked]
        },
        None => seq![asked],
    }
}

/// One kill for each of the given processes, in order.
pub open spec fn kills<H, E>(pids: Seq<u32>) -> Seq<ActionView<H, E>> {
    Seq::new(pids.len(), |i: int| ActionView::Kill(pids[i]))
}

/// The part of a launch that frees the port: nothing where the guard is
/// inactive; else the query, then a kill for every listener it named.
pub open spec fn guard_part<H, E>(policy: GuardPolicy, listeners: Option<Seq<u8>>) -> Seq<
    ActionView<H, E>,
> {
    match policy {
        GuardPolicy::Active => seq![ActionView::QueryPort(TARGET_PORT)] + kills(listed(listeners)),
        GuardPolicy::Inactive => Seq::empty(),
    }
}

/// The end of a launch whose assets were found: the spawn and its outcome.
pub open spec fn spawn_part<H, E>(location: LocationView, world: World<H, E>) -> Seq<
    ActionView<H, E>,
> {
    seq![ActionView::Spawn(plan_for(location)), ActionView::Finish(world.ending())]
}

/// The whole launch, written out: the directory is probed; if it is there,
/// the entry file is probed; if that is there too, the port is freed and
/// the backend is spawned. A missing asset ends the launch on the spot.
pub open spec fn itinerary<H, E>(
    policy: GuardPolicy,
    location: LocationView,
    world: World<H, E>,
) -> Seq<ActionView<H, E>> {
    if !world.directory_exists {
        seq![
            ActionView::ProbeDirectory(location.dir),
            ActionView::Finish(Outcome::MissingDirectory),
        ]
    } else if !world.entry_exists {
        seq![
            ActionView::ProbeDirectory(location.dir),
            ActionView::ProbeEntry(location.entry),
            ActionView::Finish(Outcome::MissingEntry),
        ]
    } else {
        seq![ActionView::ProbeDirectory(location.dir), ActionView::ProbeEntry(location.entry)]
            + guard_part(policy, world.listeners) + spawn_part(location, world)
    }
}

/// The outcome with which a launch in `world` ends.
pub open spec fn conclusion<H, E>(world: World<H, E>) -> Outcome<H, E> {
    if !world.directory_exists {
        Outcome::MissingDirectory
    } else if !world.entry_exists {
        Outcome::MissingEntry
    } else {
        world.ending()
    }
}

/// A closing action is the whole of its course.
proof fn lemma_course_of_finish<H, E>(
    launch: LaunchView,
    outcome: Outcome<H, E>,
    world: World<H, E>,
)
    ensures
        course(launch, ActionView::Finish(outcome), world) == seq![ActionView::Finish(outcome)],
{
}

/// From the spawn onwards.
proof fn lemma_course_of_spawn<H, E>(
    policy: GuardPolicy,
    location: LocationView,
    world: World<H, E>,
)
    ensures
        course(
            LaunchView { policy, location, stage: Stage::AwaitSpawn },
            ActionView::Spawn(plan_for(location)),
            world,
        ) == spawn_part(location, world),
{
    let launch = LaunchView { policy, location, stage: Stage::AwaitSpawn };
    let event = EventView::Spawned(world.spawn);
    lemma_course_of_finish(launch.after(event), world.ending(), world);
}

/// From the moment at which `pids` are left to stop.
proof fn lemma_course_of_clearing<H, E>(
    policy: GuardPolicy,
    location: LocationView,
    pids: Seq<u32>,
    world: World<H, E>,
)
    ensures
        course(
            LaunchView { policy, location, stage: stage_clearing(pids) },
            action_clearing(location, pids),
            world,
        ) == kills::<H, E>(pids) + spawn_part(location, world),
    decreases pids.len(),
{
    if pids.len() == 0 {
        lemma_course_of_spawn(policy, location, world);
    } else {
        let rest = pids.skip(1);
        lemma_course_of_clearing(policy, location, rest, world);
    }
}

/// From the probe of the entry file onwards, in a world that has the file.
proof fn lemma_course_after_assets<H, E>(
    policy: GuardPolicy,
    location: LocationView,
    world: World<H, E>,
)
    requires
        world.entry_exists,
    ensures
        course(
            LaunchView { policy, location, stage: Stage::AwaitEntry },
            ActionView::ProbeEntry(location.entry),
            world,
        ) == seq![ActionView::ProbeEntry(location.entry)] + guard_part(policy, world.listeners)
            + spawn_part(location, world),
{
    match policy {
        GuardPolicy::Inactive => {
            lemma_course_of_spawn(policy, location, world);
        },
        GuardPolicy::Active => {
            let asking = LaunchView { policy, location, stage: Stage::AwaitListeners };
            let pids = listed(world.listeners);
            lemma_course_of_clearing(policy, location, pids, world);
            assert(course(asking, ActionView::QueryPort(TARGET_PORT), world) == seq![
                ActionView::QueryPort(TARGET_PORT),
            ] + (kills::<H, E>(pids) + spawn_part(location, world)));
        },
    }
}

/// The course of a launch is its itinerary: whatever the world holds, a
/// fresh launch whose requests are answered truthfully asks for exactly the
/// actions of the itinerary, in that order, and then stops.
pub proof fn law_course_follows_itinerary<H, E>(
    policy: GuardPolicy,
    location: LocationView,
    world: World<H, E>,
)
    ensures
        course(
            LaunchView::fresh(policy, location),
            ActionView::ProbeDirectory(location.dir),
            world,
        ) == itinerary(policy, location, world),
{
    let launch = LaunchView::fresh(policy, location);
    let told = EventView::<H, E>::Probed(world.directory_exists);
    if !world.directory_exists {
        lemma_course_of_finish(launch.after(told), Outcome::<H, E>::MissingDirectory, world);
    } else {
        let probing = LaunchView { policy, location, stage: Stage::AwaitEntry };
        let second = ActionView::<H, E>::ProbeEntry(location.entry);
        if !world.entry_exists {
            let missing = EventView::<H, E>::Probed(false);
            lemma_course_of_finish(
                probing.after(missing),
                Outcome::<H, E>::MissingEntry,
                world,
            );
            assert(course(probing, second, world) == seq![second] + seq![
                ActionView::<H, E>::Finish(Outcome::MissingEntry),
            ]);
        } else {
            lemma_course_after_assets(policy, location, world);
        }
    }
}

/// Without the backend's directory, or without its entry file, a launch
/// does nothing to the outside world: it asks for no query of the port, no
/// kill and no spawn, and it ends without a handle.
pub proof fn law_missing_assets_stop_the_launch<H, E>(
    policy: GuardPolicy,
    location: LocationView,
    world: World<H, E>,
)
    requires
        !world.directory_exists || !world.entry_exists,
    ensures
        ({
            let whole = course(
                LaunchView::fresh(policy, location),
                ActionView::ProbeDirectory(location.dir),
                world,
            );
            &&& forall|i: int|
                0 <= i < whole.len() ==> !(whole[i] is Spawn) && !(whole[i] is Kill) && !(
                whole[i] is QueryPort)
            &&& whole.last() == ActionView::Finish(conclusion(world))
            &&& conclusion(world).handle() is None
        }),
{
    law_course_follows_itinerary(policy, location, world);
}

/// Every launch comes to an end, whatever the world holds: after at most
/// five actions and one kill for each listener, the last action closes the
/// launch with its conclusion, and no action before it does. What the query
/// for listeners prints, or whether it can be made at all, never keeps a
/// launch from its end.
pub proof fn law_every_launch_ends<H, E>(
    policy: GuardPolicy,
    location: LocationView,
    world: World<H, E>,
)
    ensures
        ({
            let whole = course(
                LaunchView::fresh(policy, location),
                ActionView::ProbeDirectory(location.dir),
                world,
            );
            &&& 2 <= whole.len() <= 5 + listed(world.listeners).len()
            &&& whole.last() == ActionView::Finish(conclusion(world))
            &&& forall|i: int| 0 <= i < whole.len() - 1 ==> !(whole[i] is Finish)
        }),
{
    law_course_follows_itinerary(policy, location, world);
    if world.directory_exists && world.entry_exists {
        let probes = seq![
            ActionView::<H, E>::ProbeDirectory(location.dir),
            ActionView::<H, E>::ProbeEntry(location.entry),
        ];
        let freeing = guard_part::<H, E>(policy, world.listeners);
        let closing = spawn_part(location, world);
        assert(itinerary(policy, location, world) == probes + freeing + closing);
        assert(forall|i: int| 0 <= i < freeing.len() ==> !(#[trigger] freeing[i] is Finish));
        assert(closing.len() == 2 && !(closing[0] is Finish));
    }
}

/// In a world that has both assets, the backend is spawned exactly once,
/// as the plan for the location says, after every listener on the port was
/// sent a kill, and the launch ends with what came of the spawn.
pub proof fn law_assets_lead_to_one_spawn<H, E>(
    policy: GuardPolicy,
    location: LocationView,
    world: World<H, E>,
)
    requires
        world.directory_exists,
        world.entry_exists,
    ensures
        ({
            let whole = course(
                LaunchView::fresh(policy, location),
                ActionView::ProbeDirectory(location.dir),
                world,
            );
            let spawn_at = whole.len() - 2;
            &&& whole.len() >= 4
            &&& whole[spawn_at] == ActionView::<H, E>::Spawn(plan_for(location))
            &&& forall|i: int| 0 <= i < whole.len() && i != spawn_at ==> !(whole[i] is Spawn)
            &&& forall|i: int| spawn_at < i < whole.len() ==> !(whole[i] is Kill)
            &&& whole.last() == ActionView::Finish(world.ending())
            &&& (world.ending().handle() is Some <==> world.spawn is Ok)
        }),
{
    law_course_follows_itinerary(policy, location, world);
    let probes = seq![
        ActionView::<H, E>::ProbeDirectory(location.dir),
        ActionView::<H, E>::ProbeEntry(location.entry),
    ];
    let freeing = guard_part::<H, E>(policy, world.listeners);
    let closing = spawn_part(location, world);
    assert(itinerary(policy, location, world) == probes + freeing + closing);
    assert(forall|i: int| 0 <= i < freeing.len() ==> !(#[trigger] freeing[i] is Spawn));
    assert(closing.len() == 2 && closing[0] is Spawn && closing[1] is Finish);
}

/// The launch after a row of events, whatever they are and whoever sends
/// them.
pub open spec fn fed<H, E>(launch: LaunchView, events: Seq<EventView<H, E>>) -> LaunchView
    decreases events.len(),
{
    if events.len() == 0 {
        launch
    } else {
        fed(launch.after(events[0]), events.skip(1))
    }
}

/// The number of events that say that a probed path exists.
pub open spec fn affirmations<H, E>(events: Seq<EventView<H, E>>) -> nat
    decreases events.len(),
{
    if events.len() == 0 {
        0
    } else if events[0] == EventView::<H, E>::Probed(true) {
        1 + affirmations(events.skip(1))
    } else {
        affirmations(events.skip(1))
    }
}

/// Whether a stage lies behind the two probes: the port is being freed or
/// the spawn is under way.
pub open spec fn past_the_probes(stage: Stage) -> bool {
    stage is AwaitListeners || stage is AwaitKill || stage is AwaitSpawn
}

/// The number of affirmative probe answers that a stage still needs before
/// it can get past the probes.
pub open spec fn probes_owed(stage: Stage) -> nat {
    match stage {
        Stage::AwaitDirectory => 2,
        Stage::AwaitEntry => 1,
        _ => 0,
    }
}

/// From any stage, getting past the probes takes as many affirmative
/// answers as the stage still owes, and a finished launch never gets there.
proof fn lemma_probes_are_owed<H, E>(launch: LaunchView, events: Seq<EventView<H, E>>)
    requires
        past_the_probes(fed(launch, events).stage),
    ensures
        !(launch.stage is Finished),
        affirmations(events) >= probes_owed(launch.stage),
    decreases events.len(),
{
    if events.len() > 0 {
        lemma_probes_are_owed(launch.after(events[0]), events.skip(1));
    }
}

/// The machine cannot be talked into a spawn: whatever events a caller
/// feeds to a fresh launch, truthful or not, the launch gets past the
/// probes, and so to the freeing of the port and to the spawn, only if at
/// least two of the events said that a probed path exists.
pub proof fn law_no_spawn_without_two_affirmations<H, E>(
    policy: GuardPolicy,
    location: LocationView,
    events: Seq<EventView<H, E>>,
)
    requires
        past_the_probes(fed(LaunchView::fresh(policy, location), events).stage),
    ensures
        affirmations(events) >= 2,
{
    lemma_probes_are_owed(LaunchView::fresh(policy, location), events);
}

} // verus!
