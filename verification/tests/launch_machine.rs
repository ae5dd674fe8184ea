use backend_supervisor::guard::GuardPolicy;
use backend_supervisor::launch::{
    spawn_plan, Action, Event, Launch, Outcome, SpawnPlan, Stream, RUNTIME,
};
use backend_supervisor::paths::{resolve, BuildMode, Location};
use backend_supervisor::slot::Slot;

type Handle = u32;
type Failure = String;

struct FakeWorld {
    directory_exists: bool,
    entry_exists: bool,
    listeners: Option<Vec<u8>>,
    spawn: Result<Handle, Failure>,
}

fn location() -> Location {
    resolve(BuildMode::Development, Some("/p/client/src-tauri"), None)
}

fn plan() -> SpawnPlan {
    SpawnPlan {
        program: "node".to_string(),
        argument: "index.js".to_string(),
        working_dir: "/p/server".to_string(),
        capture_output: true,
    }
}

fn drive(policy: GuardPolicy, world: &FakeWorld) -> (Vec<Action<Handle, Failure>>, Launch) {
    let (mut launch, mut action) = Launch::begin::<Handle, Failure>(policy, location());
    let mut asked = Vec::new();
    for _ in 0..100 {
        let event = match &action {
            Action::ProbeDirectory(_) => Some(Event::Probed(world.directory_exists)),
            Action::ProbeEntry(_) => Some(Event::Probed(world.entry_exists)),
            Action::QueryPort(_) => Some(Event::Listeners(world.listeners.clone())),
            Action::Kill(_) => Some(Event::Killed),
            Action::Spawn(_) => Some(Event::Spawned(world.spawn.clone())),
            Action::Finish(_) => None,
            Action::Unexpected(_) => None,
        };
        asked.push(action);
        match event {
            Some(event) => {
                let (next, reaction) = launch.step(event);
                launch = next;
                action = reaction;
            }
            None => return (asked, launch),
        }
    }
    panic!("the launch did not come to an end");
}

#[test]
fn runtime_is_node() {
    assert_eq!(RUNTIME, "node");
}

#[test]
fn plan_runs_the_entry_file_inside_the_backend_directory() {
    assert_eq!(spawn_plan(&location()), plan());
    let elsewhere = resolve(BuildMode::Production, None, None);
    let expected = SpawnPlan {
        program: "node".to_string(),
        argument: "index.js".to_string(),
        working_dir: "server".to_string(),
        capture_output: true,
    };
    assert_eq!(spawn_plan(&elsewhere), expected);
}

#[test]
fn launch_begins_by_probing_the_directory() {
    let (launch, action) = Launch::begin::<Handle, Failure>(GuardPolicy::Active, location());
    assert_eq!(action, Action::ProbeDirectory("/p/server".to_string()));
    assert!(!launch.is_finished());
    assert_eq!(launch.location(), &location());
}

#[test]
fn missing_directory_ends_the_launch_at_once() {
    let world = FakeWorld {
        directory_exists: false,
        entry_exists: true,
        listeners: Some(b"77\n".to_vec()),
        spawn: Ok(1),
    };
    let (asked, launch) = drive(GuardPolicy::Active, &world);
    assert_eq!(
        asked,
        vec![
            Action::ProbeDirectory("/p/server".to_string()),
            Action::Finish(Outcome::MissingDirectory),
        ]
    );
    assert!(launch.is_finished());
}

#[test]
fn missing_entry_file_ends_the_launch_without_a_spawn() {
    let world = FakeWorld {
        directory_exists: true,
        entry_exists: false,
        listeners: Some(b"77\n".to_vec()),
        spawn: Ok(1),
    };
    let (asked, launch) = drive(GuardPolicy::Active, &world);
    assert_eq!(
        asked,
        vec![
            Action::ProbeDirectory("/p/server".to_string()),
            Action::ProbeEntry("/p/server/index.js".to_string()),
            Action::Finish(Outcome::MissingEntry),
        ]
    );
    assert!(launch.is_finished());
}

#[test]
fn inactive_guard_goes_straight_to_the_spawn() {
    let world = FakeWorld {
        directory_exists: true,
        entry_exists: true,
        listeners: Some(b"77\n".to_vec()),
        spawn: Ok(9),
    };
    let (asked, launch) = drive(GuardPolicy::Inactive, &world);
    assert_eq!(
        asked,
        vec![
            Action::ProbeDirectory("/p/server".to_string()),
            Action::ProbeEntry("/p/server/index.js".to_string()),
            Action::Spawn(plan()),
            Action::Finish(Outcome::Started(9)),
        ]
    );
    assert!(launch.is_finished());
}

#[test]
fn active_guard_with_free_port_queries_and_spawns() {
    let world = FakeWorld {
        directory_exists: true,
        entry_exists: true,
        listeners: Some(Vec::new()),
        spawn: Ok(9),
    };
    let (asked, _) = drive(GuardPolicy::Active, &world);
    assert_eq!(
        asked,
        vec![
            Action::ProbeDirectory("/p/server".to_string()),
            Action::ProbeEntry("/p/server/index.js".to_string()),
            Action::QueryPort(4000),
            Action::Spawn(plan()),
            Action::Finish(Outcome::Started(9)),
        ]
    );
}

#[test]
fn active_guard_kills_every_listener_before_the_spawn() {
    let world = FakeWorld {
        directory_exists: true,
        entry_exists: true,
        listeners: Some(b"501\n502\n503\n".to_vec()),
        spawn: Ok(9),
    };
    let (asked, _) = drive(GuardPolicy::Active, &world);
    assert_eq!(
        asked,
        vec![
            Action::ProbeDirectory("/p/server".to_string()),
            Action::ProbeEntry("/p/server/index.js".to_string()),
            Action::QueryPort(4000),
            Action::Kill(501),
            Action::Kill(502),
            Action::Kill(503),
            Action::Spawn(plan()),
            Action::Finish(Outcome::Started(9)),
        ]
    );
}

#[test]
fn failed_query_does_not_stop_the_launch() {
    let world = FakeWorld {
        directory_exists: true,
        entry_exists: true,
        listeners: None,
        spawn: Ok(9),
    };
    let (asked, _) = drive(GuardPolicy::Active, &world);
    assert_eq!(
        asked,
        vec![
            Action::ProbeDirectory("/p/server".to_string()),
            Action::ProbeEntry("/p/server/index.js".to_string()),
            Action::QueryPort(4000),
            Action::Spawn(plan()),
            Action::Finish(Outcome::Started(9)),
        ]
    );
}

#[test]
fn occupied_port_still_lets_the_launch_end() {
    let world = FakeWorld {
        directory_exists: true,
        entry_exists: true,
        listeners: Some(b"4242\n".to_vec()),
        spawn: Err("address already in use".to_string()),
    };
    let (asked, launch) = drive(GuardPolicy::Active, &world);
    assert_eq!(
        asked,
        vec![
            Action::ProbeDirectory("/p/server".to_string()),
            Action::ProbeEntry("/p/server/index.js".to_string()),
            Action::QueryPort(4000),
            Action::Kill(4242),
            Action::Spawn(plan()),
            Action::Finish(Outcome::SpawnFailed("address already in use".to_string())),
        ]
    );
    assert!(launch.is_finished());
}

#[test]
fn launch_needs_at_most_five_actions_and_one_kill_per_listener() {
    let answers: [&[u8]; 4] = [b"", b"1", b"1 2 3 4 5 6 7", b"x y z 3"];
    let kills = [0usize, 1, 7, 1];
    for (answer, kills) in answers.iter().zip(kills) {
        let world = FakeWorld {
            directory_exists: true,
            entry_exists: true,
            listeners: Some(answer.to_vec()),
            spawn: Ok(1),
        };
        let (asked, launch) = drive(GuardPolicy::Active, &world);
        assert_eq!(asked.len(), 5 + kills);
        assert!(launch.is_finished());
        assert!(matches!(asked.last(), Some(Action::Finish(Outcome::Started(1)))));
    }
}

#[test]
fn unexpected_event_comes_back_and_changes_nothing() {
    let (launch, _) = Launch::begin::<Handle, Failure>(GuardPolicy::Active, location());
    let (launch, action) = launch.step(Event::<Handle, Failure>::Spawned(Ok(5)));
    assert_eq!(action, Action::Unexpected(Event::Spawned(Ok(5))));
    let (launch, action) = launch.step(Event::<Handle, Failure>::Killed);
    assert_eq!(action, Action::Unexpected(Event::Killed));
    let (launch, action) = launch.step(Event::<Handle, Failure>::Listeners(Some(vec![49])));
    assert_eq!(action, Action::Unexpected(Event::Listeners(Some(vec![49]))));
    let (launch, action) = launch.step(Event::<Handle, Failure>::Probed(true));
    assert_eq!(action, Action::ProbeEntry("/p/server/index.js".to_string()));
    assert!(!launch.is_finished());
}

#[test]
fn spawn_cannot_be_reported_before_it_was_asked_for() {
    let (launch, _) = Launch::begin::<Handle, Failure>(GuardPolicy::Active, location());
    let (launch, _) = launch.step(Event::<Handle, Failure>::Probed(true));
    let (launch, action) = launch.step(Event::<Handle, Failure>::Probed(true));
    assert_eq!(action, Action::QueryPort(4000));
    let (launch, action) = launch.step(Event::<Handle, Failure>::Spawned(Ok(5)));
    assert_eq!(action, Action::Unexpected(Event::Spawned(Ok(5))));
    let (launch, action) = launch.step(Event::<Handle, Failure>::Listeners(Some(b"8 9".to_vec())));
    assert_eq!(action, Action::Kill(8));
    let (launch, action) = launch.step(Event::<Handle, Failure>::Probed(true));
    assert_eq!(action, Action::Unexpected(Event::Probed(true)));
    let (launch, action) = launch.step(Event::<Handle, Failure>::Killed);
    assert_eq!(action, Action::Kill(9));
    let (launch, action) = launch.step(Event::<Handle, Failure>::Killed);
    assert_eq!(action, Action::Spawn(plan()));
    let (launch, action) = launch.step(Event::<Handle, Failure>::Killed);
    assert_eq!(action, Action::Unexpected(Event::Killed));
    let (launch, action) = launch.step(Event::<Handle, Failure>::Spawned(Ok(5)));
    assert_eq!(action, Action::Finish(Outcome::Started(5)));
    assert!(launch.is_finished());
}

#[test]
fn finished_launch_accepts_nothing_more() {
    let (launch, _) = Launch::begin::<Handle, Failure>(GuardPolicy::Inactive, location());
    let (launch, action) = launch.step(Event::<Handle, Failure>::Probed(false));
    assert_eq!(action, Action::Finish(Outcome::MissingDirectory));
    let (launch, action) = launch.step(Event::<Handle, Failure>::Probed(true));
    assert_eq!(action, Action::Unexpected(Event::Probed(true)));
    let (launch, action) = launch.step(Event::<Handle, Failure>::Spawned(Ok(1)));
    assert_eq!(action, Action::Unexpected(Event::Spawned(Ok(1))));
    assert!(launch.is_finished());
}

#[test]
fn only_a_start_yields_a_handle() {
    assert_eq!(Outcome::<Handle, Failure>::Started(3).into_handle(), Some(3));
    assert_eq!(Outcome::<Handle, Failure>::MissingDirectory.into_handle(), None);
    assert_eq!(Outcome::<Handle, Failure>::MissingEntry.into_handle(), None);
    assert_eq!(Outcome::<Handle, Failure>::SpawnFailed("no".to_string()).into_handle(), None);
}

#[test]
fn only_a_start_is_reported_on_standard_output() {
    assert_eq!(Outcome::<Handle, Failure>::Started(3).report_stream(), Stream::Standard);
    assert_eq!(Outcome::<Handle, Failure>::MissingDirectory.report_stream(), Stream::Error);
    assert_eq!(Outcome::<Handle, Failure>::MissingEntry.report_stream(), Stream::Error);
    assert_eq!(
        Outcome::<Handle, Failure>::SpawnFailed("no".to_string()).report_stream(),
        Stream::Error
    );
}

#[test]
fn started_launch_fills_the_slot_and_shutdown_empties_it() {
    let world = FakeWorld {
        directory_exists: true,
        entry_exists: true,
        listeners: None,
        spawn: Ok(64),
    };
    let (mut asked, _) = drive(GuardPolicy::Active, &world);
    let outcome = match asked.pop() {
        Some(Action::Finish(outcome)) => outcome,
        other => panic!("the launch ended with {:?}", other),
    };
    let mut slot = Slot::new(outcome.into_handle());
    assert!(slot.is_holding());
    assert_eq!(slot.terminate(), Some(64));
    assert!(!slot.is_holding());
    assert_eq!(slot.terminate(), None);
}

#[test]
fn aborted_launch_leaves_the_slot_vacant() {
    let world = FakeWorld {
        directory_exists: true,
        entry_exists: false,
        listeners: None,
        spawn: Ok(64),
    };
    let (mut asked, _) = drive(GuardPolicy::Inactive, &world);
    let outcome = match asked.pop() {
        Some(Action::Finish(outcome)) => outcome,
        other => panic!("the launch ended with {:?}", other),
    };
    let mut slot = Slot::new(outcome.into_handle());
    assert!(!slot.is_holding());
    assert!(!slot.is_closed());
    assert_eq!(slot.terminate(), None);
}
