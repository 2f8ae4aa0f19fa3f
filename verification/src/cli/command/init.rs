use vstd::prelude::*;

use crate::app::key::Key;
use crate::app::state::{ComponentState, State};
use crate::app::timeline::{zero_duration, TimelineState};
use crate::entry::Language;
use crate::log::LogLevel;
use std::time::Duration;

verus! {

/// The two steps of `ract init`: writing the `.env` file, then the chain.
#[derive(Clone, Copy, Debug, PartialEq, Eq, Structural)]
pub enum InitState {
    CreateEnvFile,
    CreateChain,
}

impl Default for InitState {
    fn default() -> (r: Self)
        ensures
            r == InitState::CreateEnvFile,
            r == Self::initial_spec(),
    {
        InitState::CreateEnvFile
    }
}

impl State for InitState {
    open spec fn initial_spec() -> Self {
        InitState::CreateEnvFile
    }

    open spec fn next_spec(self) -> Self {
        InitState::CreateChain
    }

    open spec fn run_end_spec(self) -> bool {
        self == InitState::CreateChain
    }

    open spec fn to_run_end_spec(self) -> Self {
        InitState::CreateChain
    }

    open spec fn rank(self) -> nat {
        match self {
            InitState::CreateEnvFile => 1,
            InitState::CreateChain => 0,
        }
    }

    proof fn lemma_progress(s: Self) {
    }

    proof fn lemma_default_is_initial(r: Self) {
    }

    fn next(&mut self) {
        match *self {
            InitState::CreateEnvFile => {
                *self = InitState::CreateChain;
            },
            InitState::CreateChain => {},
        }
    }

    fn is_run_end(&self) -> (b: bool) {
        matches!(self, InitState::CreateChain)
    }

    fn to_run_end(&mut self) {
        *self = InitState::CreateChain;
    }
}

/// The time, state and progress of each step.
#[derive(Clone, Copy, Debug)]
pub struct Cost {
    pub env: Duration,
    pub env_state: TimelineState,
    pub env_progress: u16,
    pub chain: Duration,
    pub chain_state: TimelineState,
    pub chain_progress: u16,
}

/// The messages of `ract init`.
#[derive(Debug, Clone, PartialEq, Eq)]
pub enum InitLogs {
    Init,
    EnvSuccess,
    EnvFailed(String),
    ChainSuccess,
    ChainFailed(String),
    Complete,
}

/// The log line for the outcome of a step's work.
pub open spec fn finish_log(task: InitTask, outcome: Result<(), String>) -> (LogLevel, InitLogs) {
    match (task, outcome) {
        (InitTask::CreateEnvFile, Ok(_)) => (LogLevel::Success, InitLogs::EnvSuccess),
        (InitTask::CreateEnvFile, Err(e)) => (LogLevel::Error, InitLogs::EnvFailed(e)),
        (_, Ok(_)) => (LogLevel::Success, InitLogs::ChainSuccess),
        (_, Err(e)) => (LogLevel::Error, InitLogs::ChainFailed(e)),
    }
}

/// What `ract init` asks of its runner after a step.
#[derive(Debug, Clone, Copy, PartialEq, Eq, Structural)]
pub enum InitTask {
    Nothing,
    /// write the `.env` file, then hand the outcome to `finish`
    CreateEnvFile,
    /// write the chain, then hand the outcome to `finish`
    CreateChain,
}

/// # Init command
/// Writes the `.env` file and then the chain, showing each on a timeline.
pub struct InitCmd {
    pub state: ComponentState<InitState>,
    pub lang: Language,
    pub logs: Vec<(LogLevel, InitLogs)>,
    pub cost: Cost,
}

impl InitCmd {
    pub fn new(lang: Language) -> (r: Self)
        ensures
            r.state is Start,
            r.lang == lang,
            r.logs@.len() == 0,
            r.cost.env_state == TimelineState::UnStart,
            r.cost.env_progress == 0,
            r.cost.chain_state == TimelineState::UnStart,
            r.cost.chain_progress == 0,
    {
        InitCmd {
            state: ComponentState::Start,
            lang,
            logs: Vec::new(),
            cost: Cost {
                env: zero_duration(),
                env_state: TimelineState::UnStart,
                env_progress: 0,
                chain: zero_duration(),
                chain_state: TimelineState::UnStart,
                chain_progress: 0,
            },
        }
    }

    /// The state after a step whose work is done: a successful `.env` file
    /// starts the chain, a successful chain completes the run.
    pub open spec fn advanced(&self) -> (ComponentState<InitState>, TimelineState, Seq<(LogLevel, InitLogs)>) {
        match self.state {
            ComponentState::Run(InitState::CreateEnvFile) => if self.cost.env_state
                == TimelineState::Success {
                (self.state.next_spec(), TimelineState::Running, self.logs@)
            } else {
                (self.state, self.cost.chain_state, self.logs@)
            },
            ComponentState::Run(InitState::CreateChain) => if self.cost.chain_state
                == TimelineState::Success {
                (self.state.next_spec(), self.cost.chain_state, self.logs@.push((LogLevel::Info, InitLogs::Complete)))
            } else {
                (self.state, self.cost.chain_state, self.logs@)
            },
            _ => (self.state, self.cost.chain_state, self.logs@),
        }
    }

    fn advance(&mut self)
        ensures
            final(self).state == old(self).advanced().0,
            final(self).cost.chain_state == old(self).advanced().1,
            final(self).logs@ == old(self).advanced().2,
            final(self).cost.env_state == old(self).cost.env_state,
            final(self).cost.env_progress == old(self).cost.env_progress,
            final(self).cost.chain_progress == old(self).cost.chain_progress,
            final(self).cost.env == old(self).cost.env,
            final(self).cost.chain == old(self).cost.chain,
    {
        match self.state {
            ComponentState::Run(InitState::CreateEnvFile) => {
                if self.cost.env_state.is_success() {
                    self.cost.chain_state = TimelineState::Running;
                    self.state.next();
                }
            },
            ComponentState::Run(InitState::CreateChain) => {
                if self.cost.chain_state.is_success() {
                    self.logs.push((LogLevel::Info, InitLogs::Complete));
                    self.state.next();
                }
            },
            _ => {},
        }
    }

    /// One step of the work, before the dialog looks at the keyboard.  A
    /// start logs the welcome, marks the `.env` step running and begins; a
    /// step not yet tried asks for its work; a step already tried moves on
    /// when it succeeded.
    pub fn step(&mut self) -> (t: InitTask)
        ensures
            t == (match old(self).state {
                ComponentState::Run(InitState::CreateEnvFile) => if old(self).cost.env_progress == 0 {
                    InitTask::CreateEnvFile
                } else {
                    InitTask::Nothing
                },
                ComponentState::Run(InitState::CreateChain) => if old(self).cost.chain_progress == 0 {
                    InitTask::CreateChain
                } else {
                    InitTask::Nothing
                },
                _ => InitTask::Nothing,
            }),
            old(self).state is Start ==> {
                &&& final(self).state == old(self).state.next_spec()
                &&& final(self).logs@ == old(self).logs@.push((LogLevel::Info, InitLogs::Init))
                &&& final(self).cost.env_state == TimelineState::Running
                &&& final(self).cost.chain_state == old(self).cost.chain_state
            },
            t == InitTask::Nothing && !(old(self).state is Start) ==> {
                &&& final(self).state == old(self).advanced().0
                &&& final(self).cost.chain_state == old(self).advanced().1
                &&& final(self).logs@ == old(self).advanced().2
                &&& final(self).cost.env_state == old(self).cost.env_state
            },
            t != InitTask::Nothing ==> {
                &&& final(self).state == old(self).state
                &&& final(self).logs@ == old(self).logs@
                &&& final(self).cost.env_state == old(self).cost.env_state
                &&& final(self).cost.chain_state == old(self).cost.chain_state
            },
            final(self).cost.env_progress == old(self).cost.env_progress,
            final(self).cost.chain_progress == old(self).cost.chain_progress,
    {
        match self.state {
            ComponentState::Start => {
                self.logs.push((LogLevel::Info, InitLogs::Init));
                self.cost.env_state = TimelineState::Running;
                self.state.next();
                InitTask::Nothing
            },
            ComponentState::Run(InitState::CreateEnvFile) => {
                if self.cost.env_progress == 0 {
                    InitTask::CreateEnvFile
                } else {
                    self.advance();
                    InitTask::Nothing
                }
            },
            ComponentState::Run(InitState::CreateChain) => {
                if self.cost.chain_progress == 0 {
                    InitTask::CreateChain
                } else {
                    self.advance();
                    InitTask::Nothing
                }
            },
            _ => InitTask::Nothing,
        }
    }

    /// Takes the outcome of the step's work and the time it took: success
    /// fills the step's progress (100) and marks it successful, failure
    /// stops it at 96 and marks it failed, with the reason; then the run
    /// moves on as `advanced` says.
    pub fn finish(&mut self, task: InitTask, outcome: Result<(), String>, elapsed: Duration)
        requires
            task == InitTask::CreateEnvFile ==> old(self).state == ComponentState::<InitState>::Run(InitState::CreateEnvFile) && old(self).cost.env_progress == 0,
            task == InitTask::CreateChain ==> old(self).state == ComponentState::<InitState>::Run(InitState::CreateChain) && old(self).cost.chain_progress == 0,
            task != InitTask::Nothing,
        ensures
            task == InitTask::CreateEnvFile ==> {
                &&& final(self).cost.env_progress == (if outcome is Ok { 100u16 } else { 96u16 })
                &&& final(self).cost.env_state == (if outcome is Ok {
                    TimelineState::Success
                } else {
                    TimelineState::Failed
                })
                &&& final(self).cost.env == elapsed
                &&& final(self).cost.chain_progress == old(self).cost.chain_progress
                &&& final(self).cost.chain_state == (if outcome is Ok {
                    TimelineState::Running
                } else {
                    old(self).cost.chain_state
                })
            },
            task == InitTask::CreateChain ==> {
                &&& final(self).cost.chain_progress == (if outcome is Ok { 100u16 } else { 96u16 })
                &&& final(self).cost.env_progress == old(self).cost.env_progress
                &&& final(self).cost.env_state == old(self).cost.env_state
                &&& final(self).cost.chain_state == (if outcome is Ok {
                    TimelineState::Success
                } else {
                    TimelineState::Failed
                })
                &&& final(self).cost.chain == elapsed
            },
            final(self).state == (if outcome is Ok {
                old(self).state.next_spec()
            } else {
                old(self).state
            }),
            !(task == InitTask::CreateChain && outcome is Ok) ==> final(self).logs@ == old(self).logs@.push(
                finish_log(task, outcome),
            ),
            task == InitTask::CreateChain && outcome is Ok ==> final(self).logs@
                == old(self).logs@.push(finish_log(task, outcome)).push(
                (LogLevel::Info, InitLogs::Complete),
            ),
    {
        match task {
            InitTask::CreateEnvFile => {
                self.cost.env = elapsed;
                match outcome {
                    Ok(_) => {
                        self.cost.env_progress = self.cost.env_progress + 100;
                        self.cost.env_state = TimelineState::Success;
                        self.logs.push((LogLevel::Success, InitLogs::EnvSuccess));
                    },
                    Err(e) => {
                        self.cost.env_progress = 96;
                        self.cost.env_state = TimelineState::Failed;
                        self.logs.push((LogLevel::Error, InitLogs::EnvFailed(e)));
                    },
                }
            },
            _ => {
                self.cost.chain = elapsed;
                match outcome {
                    Ok(_) => {
                        self.cost.chain_progress = self.cost.chain_progress + 100;
                        self.cost.chain_state = TimelineState::Success;
                        self.logs.push((LogLevel::Success, InitLogs::ChainSuccess));
                    },
                    Err(e) => {
                        self.cost.chain_progress = 96;
                        self.cost.chain_state = TimelineState::Failed;
                        self.logs.push((LogLevel::Error, InitLogs::ChainFailed(e)));
                    },
                }
            },
        }
        self.advance();
    }

    /// `Esc`, `q` and `Enter` close the dialog; other keys do nothing.
    pub fn handle_key(&mut self, key: Key)
        ensures
            final(self).state == (match key {
                Key::Esc | Key::Char('q') | Key::Enter => ComponentState::Quit,
                _ => old(self).state,
            }),
            final(self).cost == old(self).cost,
            final(self).logs == old(self).logs,
    {
        match key {
            Key::Esc | Key::Char('q') | Key::Enter => self.state.quit(),
            _ => {},
        }
    }

    pub fn env_progress(&self) -> (p: u16)
        ensures
            p == self.cost.env_progress,
    {
        self.cost.env_progress
    }

    pub fn chain_progress(&self) -> (p: u16)
        ensures
            p == self.cost.chain_progress,
    {
        self.cost.chain_progress
    }
}

} // verus!
