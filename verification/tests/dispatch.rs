//! Tests of the hotkey dispatcher, the registry model and the launch-app
//! process tracker.

use sc_starter::dispatcher::{Dispatcher, DispatcherPhase, HotkeyRegistry, PollOutcome};
use sc_starter::settings::{Action, Binding, SettingsCollection};
use sc_starter::tracker::{LaunchProbe, LaunchState, LaunchStep};

fn declared() -> Vec<Binding> {
    SettingsCollection::default().keys_collection
}

#[test]
fn registers_six_declared_bindings_in_declared_order() {
    let bindings = declared();
    assert_eq!(bindings.len(), 6);
    let mut reg = HotkeyRegistry::new();
    let mut disp = Dispatcher::new();
    assert_eq!(disp.register_all(&mut reg, &bindings), Ok(()));
    assert_eq!(disp.phase, DispatcherPhase::Running);
    assert_eq!(disp.bindings, bindings);
    assert_eq!(reg.claimed.len(), 6);
    for (i, b) in bindings.iter().enumerate() {
        assert_eq!(reg.claimed[i], b.hotkey);
    }
}

#[test]
fn seventh_registration_on_claimed_combination_fails_and_leaves_six_active() {
    let bindings = declared();
    let mut reg = HotkeyRegistry::new();
    let mut disp = Dispatcher::new();
    assert_eq!(disp.register_all(&mut reg, &bindings), Ok(()));
    // a seventh registration on an already-claimed combination
    let seventh = Binding { action: Action::PinToScreen, hotkey: bindings[0].hotkey };
    let mut other = Dispatcher::new();
    assert_eq!(other.register_all(&mut reg, &vec![seventh]), Err(0));
    assert_eq!(other.phase, DispatcherPhase::Stopped);
    // the six prior bindings remain claimed and invocable
    assert_eq!(reg.claimed.len(), 6);
    let fired = disp.poll(false, Some(bindings[2].hotkey));
    assert_eq!(fired, PollOutcome::Dispatched(Action::PinToScreen));
}

#[test]
fn duplicate_declaration_fails_at_its_index() {
    let bindings = declared();
    let mut twice = Vec::new();
    twice.push(bindings[0]);
    twice.push(bindings[1]);
    twice.push(bindings[0]);
    let mut reg = HotkeyRegistry::new();
    let mut disp = Dispatcher::new();
    assert_eq!(disp.register_all(&mut reg, &twice), Err(2));
    assert_eq!(disp.phase, DispatcherPhase::Stopped);
    // the two registered before the failure stay claimed
    assert_eq!(reg.claimed.len(), 2);
}

#[test]
fn poll_dispatches_the_matching_binding() {
    let bindings = declared();
    let mut reg = HotkeyRegistry::new();
    let mut disp = Dispatcher::new();
    disp.register_all(&mut reg, &bindings).unwrap();
    assert_eq!(disp.poll(false, None), PollOutcome::Idle);
    let exit_combo = bindings[3].hotkey;
    assert_eq!(disp.poll(false, Some(exit_combo)), PollOutcome::Dispatched(Action::Exit));
    let mut unknown = bindings[0].hotkey;
    unknown.vkey = 0xFF;
    assert_eq!(disp.poll(false, Some(unknown)), PollOutcome::Idle);
}

#[test]
fn stop_exits_within_one_poll_and_unregisters_everything() {
    let bindings = declared();
    let mut reg = HotkeyRegistry::new();
    let mut disp = Dispatcher::new();
    disp.register_all(&mut reg, &bindings).unwrap();
    // the stop message is honoured by the very next poll
    assert_eq!(disp.poll(true, Some(bindings[0].hotkey)), PollOutcome::Stopping);
    assert_eq!(disp.phase, DispatcherPhase::Draining);
    disp.drain(&mut reg);
    assert_eq!(disp.phase, DispatcherPhase::Stopped);
    assert_eq!(reg.claimed.len(), 0);
    // a subsequent registration of the same combinations succeeds
    let mut again = Dispatcher::new();
    assert_eq!(again.register_all(&mut reg, &bindings), Ok(()));
    assert_eq!(again.phase, DispatcherPhase::Running);
}

#[test]
fn first_firing_spawns_once_and_second_reuses_the_tracked_process() {
    let mut state = LaunchState::new();
    let mut spawns = 0;
    let mut foregrounds = Vec::new();

    // first firing: nothing tracked, so the driver is told to spawn
    match state.fire_query() {
        LaunchProbe::SpawnNew => {
            spawns += 1;
            // the driver's spawn succeeded with pid 4242
            match state.on_spawn(Some(4242), 10) {
                LaunchStep::Foreground(pid) => foregrounds.push(pid),
                other => panic!("unexpected step: {:?}", other),
            }
        }
        other => panic!("unexpected probe: {:?}", other),
    }
    assert_eq!(spawns, 1);
    assert_eq!(state.tracked_pid, 4242);

    // second firing while the process is alive: no further spawn, exactly
    // one foreground request for the recorded pid
    match state.fire_query() {
        LaunchProbe::ProbeLiveness(pid) => {
            assert_eq!(pid, 4242);
            match state.on_liveness(true, 20) {
                LaunchStep::Foreground(p) => foregrounds.push(p),
                other => panic!("unexpected step: {:?}", other),
            }
        }
        LaunchProbe::SpawnNew => panic!("second firing must not spawn"),
    }
    assert_eq!(spawns, 1);
    assert_eq!(foregrounds, vec![4242, 4242]);
    assert_eq!(state.last_foreground_attempt, 20);
}

#[test]
fn dead_process_is_respawned() {
    let mut state = LaunchState::new();
    state.on_spawn(Some(77), 1);
    assert_eq!(state.fire_query(), LaunchProbe::ProbeLiveness(77));
    // the process died: the pid resets and the firing continues with a spawn
    assert_eq!(state.on_liveness(false, 2), LaunchStep::SpawnNew);
    assert_eq!(state.tracked_pid, 0);
    assert_eq!(state.on_spawn(Some(78), 3), LaunchStep::Foreground(78));
    assert_eq!(state.tracked_pid, 78);
}

#[test]
fn failed_spawn_is_swallowed() {
    let mut state = LaunchState::new();
    assert_eq!(state.on_spawn(None, 5), LaunchStep::Nothing);
    assert_eq!(state.tracked_pid, 0);
    assert_eq!(state.fire_query(), LaunchProbe::SpawnNew);
}
