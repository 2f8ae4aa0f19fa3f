use vstd::prelude::*;

use crate::app::key::Key;
use crate::app::state::{ComponentState, State};
use crate::entry::{CheckItem, Checks, Language, Underlayer};
use std::time::Duration;

verus! {

/// The phases of the check dialog: choosing what to check, checking the
/// basic tools, checking the underlayer.
#[derive(Clone, Copy, Debug, PartialEq, Eq, Structural)]
pub enum CheckState {
    Select,
    Basic,
    Underlayer,
}

impl Default for CheckState {
    fn default() -> (r: Self)
        ensures
            r == CheckState::Select,
            r == Self::initial_spec(),
    {
        CheckState::Select
    }
}

impl State for CheckState {
    open spec fn initial_spec() -> Self {
        CheckState::Select
    }

    open spec fn next_spec(self) -> Self {
        match self {
            CheckState::Select => CheckState::Basic,
            CheckState::Basic => CheckState::Underlayer,
            CheckState::Underlayer => CheckState::Underlayer,
        }
    }

    open spec fn run_end_spec(self) -> bool {
        self == CheckState::Underlayer
    }

    open spec fn to_run_end_spec(self) -> Self {
        CheckState::Underlayer
    }

    open spec fn rank(self) -> nat {
        match self {
            CheckState::Select => 2,
            CheckState::Basic => 1,
            CheckState::Underlayer => 0,
        }
    }

    proof fn lemma_progress(s: Self) {
    }

    proof fn lemma_default_is_initial(r: Self) {
    }

    fn next(&mut self) {
        match *self {
            CheckState::Select => {
                *self = CheckState::Basic;
            },
            CheckState::Basic => {
                *self = CheckState::Underlayer;
            },
            CheckState::Underlayer => {},
        }
    }

    fn is_run_end(&self) -> (b: bool) {
        matches!(self, CheckState::Underlayer)
    }

    fn to_run_end(&mut self) {
        *self = CheckState::Underlayer;
    }
}

/// What the check dialog asks of its runner after a step.
#[derive(Debug, Clone, Copy, PartialEq, Eq, Structural)]
pub enum CheckTask {
    /// nothing to do
    Nothing,
    /// show the description of the dialog
    Describe,
    /// check rustc, cargo and git; then, if `complete`, report that the check is complete
    Basic { complete: bool },
    /// check the toolchain of an underlayer, if any, then report that the check is complete
    Underlayer(Option<Underlayer>),
}

/// # Check command
/// Lets the user choose Basic, Underlayer or All, then checks those tools.
pub struct CheckCmd {
    pub state: ComponentState<CheckState>,
    pub lang: Language,
    pub option: Checks,
    pub selected: usize,
    pub items: Vec<CheckItem>,
    pub cost: Option<Duration>,
}

impl CheckCmd {
    pub fn new(lang: Language) -> (r: Self)
        ensures
            r.state is Start,
            r.lang == lang,
            r.option == Checks::Basic,
            r.selected == 0,
            r.items@.len() == 0,
            r.cost is None,
    {
        CheckCmd {
            state: ComponentState::Start,
            lang,
            option: Checks::Basic,
            selected: 0,
            items: Vec::new(),
            cost: None,
        }
    }

    /// The selection points at one of the options.
    pub open spec fn wf(&self) -> bool {
        self.selected < Checks::option_count_spec()
    }

    pub open spec fn running_select(&self) -> bool {
        self.state == ComponentState::<CheckState>::Run(CheckState::Select)
    }

    /// Whether the dialog is showing the list of options.
    pub fn is_running_select(&self) -> (b: bool)
        ensures
            b == self.running_select(),
    {
        matches!(self.state, ComponentState::Run(CheckState::Select))
    }

    /// One step of the dialog's work, before it looks at the keyboard.
    /// A start shows the description and begins the run; the basic phase
    /// checks the basic tools when Basic or All was chosen (Basic then pauses
    /// the dialog); the underlayer phase checks the underlayer when
    /// Underlayer or All was chosen, and the run then ends.
    pub fn step(&mut self) -> (t: CheckTask)
        ensures
            t == (match old(self).state {
                ComponentState::Start => CheckTask::Describe,
                ComponentState::Run(CheckState::Basic) => match old(self).option {
                    Checks::Basic => CheckTask::Basic { complete: true },
                    Checks::All(_) => CheckTask::Basic { complete: false },
                    Checks::Underlayer(_) => CheckTask::Nothing,
                },
                ComponentState::Run(CheckState::Underlayer) => match old(self).option {
                    Checks::Underlayer(u) => CheckTask::Underlayer(Some(u)),
                    Checks::All(u) => CheckTask::Underlayer(Some(u)),
                    Checks::Basic => CheckTask::Underlayer(None),
                },
                _ => CheckTask::Nothing,
            }),
            final(self).state == (match old(self).state {
                ComponentState::Run(CheckState::Basic) => match old(self).option {
                    Checks::Basic => ComponentState::Pause,
                    _ => old(self).state.next_spec(),
                },
                ComponentState::Run(CheckState::Select) => old(self).state,
                ComponentState::Pause => old(self).state,
                ComponentState::Quit => old(self).state,
                _ => old(self).state.next_spec(),
            }),
            final(self).option == old(self).option,
            final(self).selected == old(self).selected,
            final(self).items == old(self).items,
            final(self).lang == old(self).lang,
    {
        match self.state {
            ComponentState::Start => {
                self.state.next();
                CheckTask::Describe
            },
            ComponentState::Run(r) => match r {
                CheckState::Select => CheckTask::Nothing,
                CheckState::Basic => match self.option {
                    Checks::Basic => {
                        self.state = ComponentState::Pause;
                        CheckTask::Basic { complete: true }
                    },
                    Checks::All(_) => {
                        self.state.next();
                        CheckTask::Basic { complete: false }
                    },
                    Checks::Underlayer(_) => {
                        self.state.next();
                        CheckTask::Nothing
                    },
                },
                CheckState::Underlayer => {
                    let task = match self.option {
                        Checks::Underlayer(u) => CheckTask::Underlayer(Some(u)),
                        Checks::All(u) => CheckTask::Underlayer(Some(u)),
                        Checks::Basic => CheckTask::Underlayer(None),
                    };
                    self.state.next();
                    task
                },
            },
            ComponentState::Pause => CheckTask::Nothing,
            ComponentState::Quit => CheckTask::Nothing,
        }
    }

    /// Handles a pressed key: `q` quits; while the list of options shows,
    /// `Up` and `Down` move the selection within the list (without wrapping)
    /// and `Enter` takes the selected option and starts checking.
    pub fn handle_key(&mut self, key: Key)
        requires
            old(self).wf(),
        ensures
            final(self).wf(),
            final(self).state == (match key {
                Key::Char('q') => ComponentState::Quit,
                Key::Enter => if old(self).running_select() {
                    old(self).state.next_spec()
                } else {
                    old(self).state
                },
                _ => old(self).state,
            }),
            final(self).selected == (match key {
                Key::Char('q') => old(self).selected,
                Key::Up => if old(self).running_select() && old(self).selected > 0 {
                    (old(self).selected - 1) as usize
                } else {
                    old(self).selected
                },
                Key::Down => if old(self).running_select() && old(self).selected + 1
                    < Checks::option_count_spec() {
                    (old(self).selected + 1) as usize
                } else {
                    old(self).selected
                },
                _ => old(self).selected,
            }),
            final(self).option == (if key == Key::Enter && old(self).running_select() {
                Checks::option_at(old(self).selected as int)
            } else {
                old(self).option
            }),
            final(self).items == old(self).items,
            final(self).lang == old(self).lang,
    {
        match key {
            Key::Char('q') => self.state.quit(),
            Key::Up => {
                if self.is_running_select() {
                    if self.selected > 0 {
                        self.selected -= 1;
                    }
                }
            },
            Key::Down => {
                if self.is_running_select() {
                    if self.selected < Checks::option_count() - 1 {
                        self.selected += 1;
                    }
                }
            },
            Key::Enter => {
                if self.is_running_select() {
                    self.option = Checks::from_index(self.selected);
                    self.state.next();
                }
            },
            _ => {},
        }
    }

    /// Keeps the outcomes of a check, after those already kept.
    pub fn record(&mut self, checks: Vec<CheckItem>)
        ensures
            final(self).items@ == old(self).items@ + checks@,
            final(self).state == old(self).state,
            final(self).option == old(self).option,
            final(self).selected == old(self).selected,
    {
        let mut checks = checks;
        self.items.append(&mut checks);
    }
}

} // verus!
