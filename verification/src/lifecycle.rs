//! The life of one run, from taking the terminal to giving it back: what is
//! done next, given what happened last.
//!
//! The driver performs the action of the current stage and reports what came of
//! it; the lifecycle answers with the next action. Whatever goes wrong, the
//! channels are closed before any process is killed, every process that was
//! started is killed, and the terminal is given back before the run ends.

use vstd::prelude::*;
use vstd::string::StringExecFns;
use crate::text::{append_decimal, decimal};
use crate::topology::ConfigurationError;

verus! {

/// Why a run failed.
#[derive(Clone, Copy, Debug, PartialEq, Eq, Structural)]
pub enum FleetError {
    /// No plan could be made.
    Configuration(ConfigurationError),
    /// The process of this node could not be started.
    ProcessSpawn(usize),
    /// The terminal could not be set up, drawn to, read from or given back.
    Terminal,
}

/// Where a run stands.
#[derive(Clone, Copy, Debug, PartialEq, Eq, Structural)]
pub enum Stage {
    AcquiringTerminal,
    Planning,
    /// The nodes below this index run; this one is started next.
    Spawning(usize),
    Running,
    ClosingChannels,
    /// The nodes below this index are killed; this one is killed next.
    Killing(usize),
    RestoringTerminal,
    Done,
}

/// What the driver reports.
#[derive(Clone, Copy, Debug, PartialEq, Eq, Structural)]
pub enum Event {
    TerminalReady,
    TerminalFailed,
    /// A plan for this many nodes was made.
    Planned(usize),
    PlanFailed(ConfigurationError),
    Spawned,
    SpawnFailed,
    /// The user asked to quit.
    QuitRequested,
    /// The dashboard could not draw or read a key.
    DashboardFailed,
    ChannelsClosed,
    /// The process is gone, by the signal or because it had exited before.
    Killed,
    TerminalRestored,
    RestoreFailed,
}

/// What the driver does next.
#[derive(Clone, Copy, Debug, PartialEq, Eq, Structural)]
pub enum Action {
    AcquireTerminal,
    Plan,
    /// Start the process of this node and the task that reads its output.
    Spawn(usize),
    RunDashboard,
    CloseChannels,
    /// Kill the process of this node.
    Kill(usize),
    RestoreTerminal,
    /// End the run with this exit code, after printing the error if there is one.
    Exit(i32, Option<FleetError>),
}

/// The state of a run.
#[derive(Clone, Copy, Debug, PartialEq, Eq, Structural)]
pub struct Lifecycle {
    pub stage: Stage,
    /// How many nodes the plan has.
    pub node_count: usize,
    /// How many processes were started: those of the nodes below this index.
    pub spawned: usize,
    /// How many processes were killed: those of the nodes below this index.
    pub killed: usize,
    pub channels_closed: bool,
    /// Whether the terminal is in the dashboard's mode.
    pub terminal_held: bool,
    /// The first thing that went wrong.
    pub error: Option<FleetError>,
}

/// The exit code of a run that ends with this error, or without one.
pub open spec fn exit_code(error: Option<FleetError>) -> i32 {
    if error is None {
        0
    } else {
        1
    }
}

/// The error of a run after one more thing went wrong: the first one stays.
pub open spec fn first_error(error: Option<FleetError>, new: FleetError) -> Option<FleetError> {
    if error is Some {
        error
    } else {
        Some(new)
    }
}

impl Lifecycle {
    /// The state before anything was done.
    pub open spec fn initial() -> Lifecycle {
        Lifecycle {
            stage: Stage::AcquiringTerminal,
            node_count: 0,
            spawned: 0,
            killed: 0,
            channels_closed: false,
            terminal_held: false,
            error: None,
        }
    }

    /// What holds of every state that a run passes through.
    pub open spec fn wf(self) -> bool {
        &&& self.killed <= self.spawned <= self.node_count
        &&& self.killed > 0 ==> self.channels_closed
        &&& match self.stage {
            Stage::AcquiringTerminal => self.node_count == 0 && !self.channels_closed
                && !self.terminal_held && self.error is None,
            Stage::Planning => self.node_count == 0 && !self.channels_closed && self.terminal_held
                && self.error is None,
            Stage::Spawning(next) => next == self.spawned && next < self.node_count && self.killed
                == 0 && !self.channels_closed && self.terminal_held && self.error is None,
            Stage::Running => self.spawned == self.node_count && self.killed == 0
                && !self.channels_closed && self.terminal_held && self.error is None,
            Stage::ClosingChannels => self.killed == 0 && !self.channels_closed
                && self.terminal_held,
            Stage::Killing(next) => next == self.killed && next < self.spawned
                && self.channels_closed && self.terminal_held,
            Stage::RestoringTerminal => self.killed == self.spawned,
            Stage::Done => self.killed == self.spawned && !self.terminal_held,
        }
    }

    /// What the driver has to do in this state.
    pub open spec fn action(self) -> Action {
        match self.stage {
            Stage::AcquiringTerminal => Action::AcquireTerminal,
            Stage::Planning => Action::Plan,
            Stage::Spawning(next) => Action::Spawn(next),
            Stage::Running => Action::RunDashboard,
            Stage::ClosingChannels => Action::CloseChannels,
            Stage::Killing(next) => Action::Kill(next),
            Stage::RestoringTerminal => Action::RestoreTerminal,
            Stage::Done => Action::Exit(exit_code(self.error), self.error),
        }
    }

    /// The state in which the channels are closed next, with one more error.
    pub open spec fn winding_down(self, new: FleetError) -> Lifecycle {
        Lifecycle { stage: Stage::ClosingChannels, error: first_error(self.error, new), ..self }
    }

    /// The state after the driver reported `event`. A report that does not
    /// answer the action of the state changes nothing.
    pub open spec fn after(self, event: Event) -> Lifecycle {
        match (self.stage, event) {
            (Stage::AcquiringTerminal, Event::TerminalReady) => Lifecycle {
                stage: Stage::Planning,
                terminal_held: true,
                ..self
            },
            (Stage::AcquiringTerminal, Event::TerminalFailed) => Lifecycle {
                stage: Stage::RestoringTerminal,
                error: first_error(self.error, FleetError::Terminal),
                ..self
            },
            (Stage::Planning, Event::Planned(n)) => if n > 0 {
                Lifecycle { stage: Stage::Spawning(0), node_count: n, ..self }
            } else {
                Lifecycle {
                    stage: Stage::RestoringTerminal,
                    error: first_error(
                        self.error,
                        FleetError::Configuration(ConfigurationError::NoNodes),
                    ),
                    ..self
                }
            },
            (Stage::Planning, Event::PlanFailed(e)) => Lifecycle {
                stage: Stage::RestoringTerminal,
                error: first_error(self.error, FleetError::Configuration(e)),
                ..self
            },
            (Stage::Spawning(next), Event::Spawned) => if next < usize::MAX {
                Lifecycle {
                    stage: if next + 1 >= self.node_count {
                        Stage::Running
                    } else {
                        Stage::Spawning((next + 1) as usize)
                    },
                    spawned: (next + 1) as usize,
                    ..self
                }
            } else {
                self
            },
            (Stage::Spawning(next), Event::SpawnFailed) => self.winding_down(
                FleetError::ProcessSpawn(next),
            ),
            (Stage::Running, Event::QuitRequested) => Lifecycle {
                stage: Stage::ClosingChannels,
                ..self
            },
            (Stage::Running, Event::DashboardFailed) => self.winding_down(FleetError::Terminal),
            (Stage::ClosingChannels, Event::ChannelsClosed) => Lifecycle {
                stage: if self.killed < self.spawned {
                    Stage::Killing(self.killed)
                } else {
                    Stage::RestoringTerminal
                },
                channels_closed: true,
                ..self
            },
            (Stage::Killing(next), Event::Killed) => if next < usize::MAX {
                Lifecycle {
                    stage: if next + 1 >= self.spawned {
                        Stage::RestoringTerminal
                    } else {
                        Stage::Killing((next + 1) as usize)
                    },
                    killed: (next + 1) as usize,
                    ..self
                }
            } else {
                self
            },
            (Stage::RestoringTerminal, Event::TerminalRestored) => Lifecycle {
                stage: Stage::Done,
                terminal_held: false,
                ..self
            },
            (Stage::RestoringTerminal, Event::RestoreFailed) => Lifecycle {
                stage: Stage::Done,
                terminal_held: false,
                error: first_error(self.error, FleetError::Terminal),
                ..self
            },
            _ => self,
        }
    }
}

impl Lifecycle {
    /// A run of which nothing was done yet.
    pub fn new() -> (r: Lifecycle)
        ensures
            r == Lifecycle::initial(),
            r.wf(),
    {
        Lifecycle {
            stage: Stage::AcquiringTerminal,
            node_count: 0,
            spawned: 0,
            killed: 0,
            channels_closed: false,
            terminal_held: false,
            error: None,
        }
    }

    /// What the driver has to do now.
    pub fn current_action(&self) -> (r: Action)
        ensures
            r == self.action(),
    {
        match self.stage {
            Stage::AcquiringTerminal => Action::AcquireTerminal,
            Stage::Planning => Action::Plan,
            Stage::Spawning(next) => Action::Spawn(next),
            Stage::Running => Action::RunDashboard,
            Stage::ClosingChannels => Action::CloseChannels,
            Stage::Killing(next) => Action::Kill(next),
            Stage::RestoringTerminal => Action::RestoreTerminal,
            Stage::Done => {
                let code: i32 = if self.error.is_none() {
                    0
                } else {
                    1
                };
                Action::Exit(code, self.error)
            },
        }
    }

    /// Records one more thing that went wrong, unless something went wrong before.
    fn fail(&mut self, new: FleetError)
        ensures
            *final(self) == (Lifecycle { error: first_error(old(self).error, new), ..*old(self) }),
    {
        if self.error.is_none() {
            self.error = Some(new);
        }
    }

    /// Takes the driver's report of what came of the last action and says what
    /// to do next.
    pub fn step(&mut self, event: Event) -> (r: Action)
        ensures
            *final(self) == old(self).after(event),
            r == final(self).action(),
            old(self).wf() ==> final(self).wf(),
    {
        match (self.stage, event) {
            (Stage::AcquiringTerminal, Event::TerminalReady) => {
                self.terminal_held = true;
                self.stage = Stage::Planning;
            },
            (Stage::AcquiringTerminal, Event::TerminalFailed) => {
                self.fail(FleetError::Terminal);
                self.stage = Stage::RestoringTerminal;
            },
            (Stage::Planning, Event::Planned(n)) => {
                if n > 0 {
                    self.node_count = n;
                    self.stage = Stage::Spawning(0);
                } else {
                    self.fail(FleetError::Configuration(ConfigurationError::NoNodes));
                    self.stage = Stage::RestoringTerminal;
                }
            },
            (Stage::Planning, Event::PlanFailed(e)) => {
                self.fail(FleetError::Configuration(e));
                self.stage = Stage::RestoringTerminal;
            },
            (Stage::Spawning(next), Event::Spawned) => {
                if next < usize::MAX {
                    self.spawned = next + 1;
                    self.stage = if next + 1 >= self.node_count {
                        Stage::Running
                    } else {
                        Stage::Spawning(next + 1)
                    };
                }
            },
            (Stage::Spawning(next), Event::SpawnFailed) => {
                self.fail(FleetError::ProcessSpawn(next));
                self.stage = Stage::ClosingChannels;
            },
            (Stage::Running, Event::QuitRequested) => {
                self.stage = Stage::ClosingChannels;
            },
            (Stage::Running, Event::DashboardFailed) => {
                self.fail(FleetError::Terminal);
                self.stage = Stage::ClosingChannels;
            },
            (Stage::ClosingChannels, Event::ChannelsClosed) => {
                self.channels_closed = true;
                self.stage = if self.killed < self.spawned {
                    Stage::Killing(self.killed)
                } else {
                    Stage::RestoringTerminal
                };
            },
            (Stage::Killing(next), Event::Killed) => {
                if next < usize::MAX {
                    self.killed = next + 1;
                    self.stage = if next + 1 >= self.spawned {
                        Stage::RestoringTerminal
                    } else {
                        Stage::Killing(next + 1)
                    };
                }
            },
            (Stage::RestoringTerminal, Event::TerminalRestored) => {
                self.terminal_held = false;
                self.stage = Stage::Done;
            },
            (Stage::RestoringTerminal, Event::RestoreFailed) => {
                self.fail(FleetError::Terminal);
                self.terminal_held = false;
                self.stage = Stage::Done;
            },
            _ => {},
        }
        self.current_action()
    }
}


/// What is printed of an error when the run ends.
pub open spec fn error_message(error: FleetError) -> Seq<char> {
    match error {
        FleetError::Configuration(ConfigurationError::NoNodes) =>
            "configuration error: no nodes were asked for"@,
        FleetError::Configuration(ConfigurationError::MissingGenesisMaterial) =>
            "configuration error: the genesis root lacks genesis data or baker credentials"@,
        FleetError::ProcessSpawn(node) => "process spawn error: could not start node "@ + decimal(
            node as nat,
        ),
        FleetError::Terminal => "terminal error"@,
    }
}

/// What is printed of an error when the run ends, as a string.
pub fn describe(error: FleetError) -> (r: String)
    ensures
        r@ == error_message(error),
{
    match error {
        FleetError::Configuration(ConfigurationError::NoNodes) => String::from_str(
            "configuration error: no nodes were asked for",
        ),
        FleetError::Configuration(ConfigurationError::MissingGenesisMaterial) => String::from_str(
            "configuration error: the genesis root lacks genesis data or baker credentials",
        ),
        FleetError::ProcessSpawn(node) => {
            let mut r = String::from_str("process spawn error: could not start node ");
            append_decimal(&mut r, node);
            r
        },
        FleetError::Terminal => String::from_str("terminal error"),
    }
}

} // verus!
