use testnet_orchestrator::lifecycle::{describe, Action, Event, FleetError, Lifecycle, Stage};
use testnet_orchestrator::topology::ConfigurationError;

fn started(nodes: usize) -> Lifecycle {
    let mut run = Lifecycle::new();
    assert_eq!(run.current_action(), Action::AcquireTerminal);
    assert_eq!(run.step(Event::TerminalReady), Action::Plan);
    assert_eq!(run.step(Event::Planned(nodes)), Action::Spawn(0));
    run
}

fn running(nodes: usize) -> Lifecycle {
    let mut run = started(nodes);
    for i in 0..nodes {
        let next = run.step(Event::Spawned);
        if i + 1 < nodes {
            assert_eq!(next, Action::Spawn(i + 1));
        } else {
            assert_eq!(next, Action::RunDashboard);
        }
    }
    run
}

#[test]
fn a_clean_run() {
    let mut run = running(3);
    assert_eq!(run.spawned, 3);
    assert_eq!(run.step(Event::QuitRequested), Action::CloseChannels);
    assert_eq!(run.step(Event::ChannelsClosed), Action::Kill(0));
    assert_eq!(run.step(Event::Killed), Action::Kill(1));
    assert_eq!(run.step(Event::Killed), Action::Kill(2));
    assert_eq!(run.step(Event::Killed), Action::RestoreTerminal);
    assert_eq!(run.step(Event::TerminalRestored), Action::Exit(0, None));
    assert_eq!(run.killed, 3);
    assert!(!run.terminal_held);
    assert_eq!(run.stage, Stage::Done);
}

#[test]
fn spawn_failure_on_the_third_of_five_kills_the_first_two() {
    let mut run = started(5);
    assert_eq!(run.step(Event::Spawned), Action::Spawn(1));
    assert_eq!(run.step(Event::Spawned), Action::Spawn(2));
    assert_eq!(run.step(Event::SpawnFailed), Action::CloseChannels);
    assert_eq!(run.error, Some(FleetError::ProcessSpawn(2)));
    assert_eq!(run.step(Event::ChannelsClosed), Action::Kill(0));
    assert_eq!(run.step(Event::Killed), Action::Kill(1));
    assert_eq!(run.step(Event::Killed), Action::RestoreTerminal);
    assert_eq!(run.spawned, 2);
    assert_eq!(run.killed, 2);
    assert_eq!(
        run.step(Event::TerminalRestored),
        Action::Exit(1, Some(FleetError::ProcessSpawn(2)))
    );
}

#[test]
fn spawn_failure_on_the_first_node_kills_nothing() {
    let mut run = started(4);
    assert_eq!(run.step(Event::SpawnFailed), Action::CloseChannels);
    assert_eq!(run.step(Event::ChannelsClosed), Action::RestoreTerminal);
    assert_eq!(
        run.step(Event::TerminalRestored),
        Action::Exit(1, Some(FleetError::ProcessSpawn(0)))
    );
    assert_eq!(run.killed, 0);
}

#[test]
fn a_plan_that_fails_spawns_nothing() {
    let mut run = Lifecycle::new();
    run.step(Event::TerminalReady);
    assert_eq!(
        run.step(Event::PlanFailed(ConfigurationError::MissingGenesisMaterial)),
        Action::RestoreTerminal
    );
    assert_eq!(run.spawned, 0);
    assert_eq!(
        run.step(Event::TerminalRestored),
        Action::Exit(
            1,
            Some(FleetError::Configuration(ConfigurationError::MissingGenesisMaterial))
        )
    );
}

#[test]
fn a_plan_without_nodes_is_a_configuration_error() {
    let mut run = Lifecycle::new();
    run.step(Event::TerminalReady);
    assert_eq!(run.step(Event::Planned(0)), Action::RestoreTerminal);
    assert_eq!(
        run.step(Event::TerminalRestored),
        Action::Exit(1, Some(FleetError::Configuration(ConfigurationError::NoNodes)))
    );
}

#[test]
fn a_terminal_that_cannot_be_set_up_is_restored_and_reported() {
    let mut run = Lifecycle::new();
    assert_eq!(run.step(Event::TerminalFailed), Action::RestoreTerminal);
    assert_eq!(run.step(Event::TerminalRestored), Action::Exit(1, Some(FleetError::Terminal)));
}

#[test]
fn a_dashboard_failure_winds_the_fleet_down() {
    let mut run = running(2);
    assert_eq!(run.step(Event::DashboardFailed), Action::CloseChannels);
    assert_eq!(run.step(Event::ChannelsClosed), Action::Kill(0));
    assert_eq!(run.step(Event::Killed), Action::Kill(1));
    assert_eq!(run.step(Event::Killed), Action::RestoreTerminal);
    assert_eq!(run.step(Event::TerminalRestored), Action::Exit(1, Some(FleetError::Terminal)));
}

#[test]
fn a_failed_restoration_is_reported_after_a_clean_quit() {
    let mut run = running(1);
    run.step(Event::QuitRequested);
    run.step(Event::ChannelsClosed);
    assert_eq!(run.step(Event::Killed), Action::RestoreTerminal);
    assert_eq!(run.step(Event::RestoreFailed), Action::Exit(1, Some(FleetError::Terminal)));
}

#[test]
fn the_first_error_is_the_one_reported() {
    let mut run = started(3);
    run.step(Event::Spawned);
    run.step(Event::SpawnFailed);
    run.step(Event::ChannelsClosed);
    run.step(Event::Killed);
    assert_eq!(
        run.step(Event::RestoreFailed),
        Action::Exit(1, Some(FleetError::ProcessSpawn(1)))
    );
}

#[test]
fn reports_out_of_turn_change_nothing() {
    let mut run = running(2);
    let before = run;
    for event in [
        Event::TerminalReady,
        Event::Planned(9),
        Event::Spawned,
        Event::SpawnFailed,
        Event::ChannelsClosed,
        Event::Killed,
        Event::TerminalRestored,
    ] {
        assert_eq!(run.step(event), Action::RunDashboard);
        assert_eq!(run, before);
    }
    let mut fresh = Lifecycle::new();
    assert_eq!(fresh.step(Event::Killed), Action::AcquireTerminal);
    assert_eq!(fresh, Lifecycle::new());
}

#[test]
fn a_finished_run_stays_finished() {
    let mut run = running(1);
    run.step(Event::QuitRequested);
    run.step(Event::ChannelsClosed);
    run.step(Event::Killed);
    run.step(Event::TerminalRestored);
    for event in [Event::Spawned, Event::QuitRequested, Event::RestoreFailed] {
        assert_eq!(run.step(event), Action::Exit(0, None));
    }
}

#[test]
fn no_kill_comes_before_the_channels_are_closed() {
    for fail_at in 0..=4usize {
        let mut run = started(4);
        let mut action = Action::Spawn(0);
        let mut closed = false;
        let mut killed = Vec::new();
        let mut spawned = 0;
        loop {
            let event = match action {
                Action::Spawn(i) if i == fail_at => Event::SpawnFailed,
                Action::Spawn(_) => {
                    spawned += 1;
                    Event::Spawned
                }
                Action::RunDashboard => Event::QuitRequested,
                Action::CloseChannels => {
                    closed = true;
                    Event::ChannelsClosed
                }
                Action::Kill(i) => {
                    assert!(closed);
                    killed.push(i);
                    Event::Killed
                }
                Action::RestoreTerminal => {
                    assert_eq!(killed, (0..spawned).collect::<Vec<_>>());
                    Event::TerminalRestored
                }
                Action::Exit(code, error) => {
                    assert_eq!(code == 0, fail_at == 4);
                    assert_eq!(error.is_none(), fail_at == 4);
                    break;
                }
                other => panic!("unexpected {:?}", other),
            };
            action = run.step(event);
        }
        assert_eq!(killed.len(), spawned);
    }
}

#[test]
fn errors_are_described() {
    assert_eq!(
        describe(FleetError::ProcessSpawn(2)),
        "process spawn error: could not start node 2"
    );
    assert_eq!(describe(FleetError::Terminal), "terminal error");
    assert_eq!(
        describe(FleetError::Configuration(ConfigurationError::NoNodes)),
        "configuration error: no nodes were asked for"
    );
    assert_eq!(
        describe(FleetError::Configuration(ConfigurationError::MissingGenesisMaterial)),
        "configuration error: the genesis root lacks genesis data or baker credentials"
    );
}
