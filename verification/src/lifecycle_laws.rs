//! What holds of every run.

use vstd::prelude::*;
use crate::lifecycle::{exit_code, Action, Event, FleetError, Lifecycle, Stage};
use crate::topology::ConfigurationError;

verus! {

/// The state after the driver reported these events, one after the other.
pub open spec fn after_all(s: Lifecycle, events: Seq<Event>) -> Lifecycle
    decreases events.len(),
{
    if events.len() == 0 {
        s
    } else {
        after_all(s.after(events[0]), events.skip(1))
    }
}

/// `n` reports of a killed process.
pub open spec fn kills(n: nat) -> Seq<Event> {
    Seq::new(n, |i: int| Event::Killed)
}

/// Every report leaves a sound state sound.
pub proof fn lemma_step_keeps_wf(s: Lifecycle, event: Event)
    requires
        s.wf(),
    ensures
        s.after(event).wf(),
{
}

/// No process is killed before the channels are closed: a process is killed
/// next, or was killed, only in a state whose channels are closed.
pub proof fn lemma_channels_closed_before_kill(s: Lifecycle)
    requires
        s.wf(),
    ensures
        s.action() is Kill ==> s.channels_closed,
        s.killed > 0 ==> s.channels_closed,
{
}

/// No channel is read before the process that feeds it runs: the dashboard
/// runs only while every node of the plan has its process, and none is killed.
pub proof fn lemma_dashboard_runs_on_whole_fleet(s: Lifecycle)
    requires
        s.wf(),
        s.action() is RunDashboard,
    ensures
        s.spawned == s.node_count,
        s.killed == 0,
        !s.channels_closed,
        s.terminal_held,
{
}

/// No process is started once the wind-down began: while a process is
/// started next, none was killed and the channels are open.
pub proof fn lemma_no_spawn_while_winding_down(s: Lifecycle)
    requires
        s.wf(),
        s.action() is Spawn,
    ensures
        s.killed == 0,
        !s.channels_closed,
        s.error is None,
{
}

/// A run ends only after every process that was started is killed and the
/// terminal is given back, and its exit code is zero exactly if nothing went wrong.
pub proof fn lemma_exit_is_clean(s: Lifecycle)
    requires
        s.wf(),
        s.action() is Exit,
    ensures
        s.killed == s.spawned,
        !s.terminal_held,
        s.action() == Action::Exit(exit_code(s.error), s.error),
        exit_code(s.error) == 0 <==> s.error is None,
{
}

/// The first error of a run is the one it ends with.
pub proof fn lemma_first_error_stays(s: Lifecycle, event: Event)
    requires
        s.error is Some,
    ensures
        s.after(event).error == s.error,
{
}

/// Killing the processes that are left, one report after the other, leads
/// to the restoration of the terminal with all of them killed.
pub proof fn lemma_kills_reach_restoration(s: Lifecycle)
    requires
        s.wf(),
        s.stage is Killing,
    ensures
        after_all(s, kills((s.spawned - s.killed) as nat)) == (Lifecycle {
            stage: Stage::RestoringTerminal,
            killed: s.spawned,
            ..s
        }),
    decreases s.spawned - s.killed,
{
    let left = (s.spawned - s.killed) as nat;
    let t = s.after(Event::Killed);
    assert(kills(left)[0] == Event::Killed);
    assert(kills(left).skip(1) == kills((left - 1) as nat));
    assert(after_all(s, kills(left)) == after_all(t, kills((left - 1) as nat)));
    if t.stage is Killing {
        lemma_kills_reach_restoration(t);
    } else {
        assert(left == 1);
        assert(kills(0).len() == 0);
        assert(after_all(t, kills(0)) == t);
    }
}

/// What the reports of a wind-down are, for a run that started `spawned`
/// processes: the channels are closed, each process is killed, and the
/// terminal is restored.
pub open spec fn wind_down(spawned: nat) -> Seq<Event> {
    seq![Event::ChannelsClosed] + kills(spawned) + seq![Event::TerminalRestored]
}

/// From the closing of the channels a run reaches its end with every started
/// process killed, the terminal given back and its error unchanged.
pub proof fn lemma_wind_down_completes(s: Lifecycle)
    requires
        s.wf(),
        s.stage is ClosingChannels,
    ensures
        after_all(s, wind_down(s.spawned as nat)) == (Lifecycle {
            stage: Stage::Done,
            killed: s.spawned,
            channels_closed: true,
            terminal_held: false,
            ..s
        }),
{
    let events = wind_down(s.spawned as nat);
    let closed = s.after(Event::ChannelsClosed);
    assert(events[0] == Event::ChannelsClosed);
    let rest = events.skip(1);
    assert(rest == kills(s.spawned as nat) + seq![Event::TerminalRestored]);
    let killed = Lifecycle { stage: Stage::RestoringTerminal, killed: s.spawned, ..closed };
    if s.spawned > 0 {
        lemma_kills_reach_restoration(closed);
    } else {
        assert(kills(0).len() == 0);
    }
    assert(after_all(closed, kills(s.spawned as nat)) == killed);
    lemma_after_all_concat(closed, kills(s.spawned as nat), seq![Event::TerminalRestored]);
    let last = seq![Event::TerminalRestored];
    assert(last.skip(1).len() == 0);
    assert(after_all(killed, last) == after_all(killed.after(last[0]), last.skip(1)));
}

/// Reports taken in two runs lead where they lead when taken in one.
pub proof fn lemma_after_all_concat(s: Lifecycle, first: Seq<Event>, second: Seq<Event>)
    ensures
        after_all(s, first + second) == after_all(after_all(s, first), second),
    decreases first.len(),
{
    if first.len() == 0 {
        assert(first + second == second);
    } else {
        assert((first + second)[0] == first[0]);
        assert((first + second).skip(1) == first.skip(1) + second);
        lemma_after_all_concat(s.after(first[0]), first.skip(1), second);
    }
}

/// Where the process of node `k` cannot be started, the run ends after the
/// `k` processes that were started before it are killed, none is left, and
/// the error it reports is that spawn failure.
pub proof fn lemma_spawn_failure_rolls_back(s: Lifecycle, k: usize)
    requires
        s.wf(),
        s.stage == Stage::Spawning(k),
    ensures
        after_all(s.after(Event::SpawnFailed), wind_down(k as nat)).stage is Done,
        after_all(s.after(Event::SpawnFailed), wind_down(k as nat)).killed == k,
        after_all(s.after(Event::SpawnFailed), wind_down(k as nat)).spawned == k,
        after_all(s.after(Event::SpawnFailed), wind_down(k as nat)).action() == Action::Exit(
            1,
            Some(FleetError::ProcessSpawn(k)),
        ),
{
    lemma_wind_down_completes(s.after(Event::SpawnFailed));
}

/// Where the user quits the running dashboard, the run ends after every
/// node's process is killed, and its exit code is zero.
pub proof fn lemma_quit_kills_all(s: Lifecycle)
    requires
        s.wf(),
        s.stage is Running,
    ensures
        after_all(s.after(Event::QuitRequested), wind_down(s.node_count as nat)).stage is Done,
        after_all(s.after(Event::QuitRequested), wind_down(s.node_count as nat)).killed
            == s.node_count,
        after_all(s.after(Event::QuitRequested), wind_down(s.node_count as nat)).action()
            == Action::Exit(0, None),
{
    lemma_wind_down_completes(s.after(Event::QuitRequested));
}

/// Where no plan can be made, no process is started and no channel is
/// touched: the terminal is given back, and the run ends with that error.
pub proof fn lemma_plan_failure_spawns_nothing(s: Lifecycle, e: ConfigurationError)
    requires
        s.wf(),
        s.stage is Planning,
    ensures
        s.after(Event::PlanFailed(e)).action() == Action::RestoreTerminal,
        s.after(Event::PlanFailed(e)).spawned == 0,
        s.after(Event::PlanFailed(e)).after(Event::TerminalRestored).action() == Action::Exit(
            1,
            Some(FleetError::Configuration(e)),
        ),
{
}

/// Where the terminal cannot be set up, its restoration is tried all the
/// same before the run ends with the terminal's error.
pub proof fn lemma_terminal_failure_is_restored_first(s: Lifecycle, restored: bool)
    requires
        s.wf(),
        s.stage is AcquiringTerminal,
    ensures
        s.after(Event::TerminalFailed).action() == Action::RestoreTerminal,
        s.after(Event::TerminalFailed).after(
            if restored {
                Event::TerminalRestored
            } else {
                Event::RestoreFailed
            },
        ).action() == Action::Exit(1, Some(FleetError::Terminal)),
{
}

} // verus!
