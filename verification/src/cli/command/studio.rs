use vstd::prelude::*;

use crate::app::key::Key;
use crate::app::state::{ComponentState, State};
use crate::entry::{CheckItem, Language};

verus! {

/// The phases of `ract studio`: checking Makepad, choosing the studio, running it.
#[derive(Clone, Copy, Debug, PartialEq, Eq, Structural)]
pub enum StudioState {
    Check,
    Select,
    Running,
}

impl Default for StudioState {
    fn default() -> (r: Self)
        ensures
            r == StudioState::Check,
            r == Self::initial_spec(),
    {
        StudioState::Check
    }
}

impl State for StudioState {
    open spec fn initial_spec() -> Self {
        StudioState::Check
    }

    open spec fn next_spec(self) -> Self {
        match self {
            StudioState::Check => StudioState::Select,
            StudioState::Select => StudioState::Running,
            StudioState::Running => StudioState::Running,
        }
    }

    open spec fn run_end_spec(self) -> bool {
        self == StudioState::Running
    }

    open spec fn to_run_end_spec(self) -> Self {
        StudioState::Running
    }

    open spec fn rank(self) -> nat {
        match self {
            StudioState::Check => 2,
            StudioState::Select => 1,
            StudioState::Running => 0,
        }
    }

    proof fn lemma_progress(s: Self) {
    }

    proof fn lemma_default_is_initial(r: Self) {
    }

    fn next(&mut self) {
        match *self {
            StudioState::Check => {
                *self = StudioState::Select;
            },
            StudioState::Select => {
                *self = StudioState::Running;
            },
            StudioState::Running => {},
        }
    }

    fn is_run_end(&self) -> (b: bool) {
        matches!(self, StudioState::Running)
    }

    fn to_run_end(&mut self) {
        *self = StudioState::Running;
    }
}

/// Which pane the keys go to.
#[derive(Debug, Clone, Copy, PartialEq, Eq, Structural)]
pub enum Current {
    Select,
    Log,
}

/// Where the choice of studio stands.
#[derive(Debug, Clone, Copy, PartialEq, Eq, Structural)]
pub enum SelectPlace {
    /// choosing between the default studio and a custom path
    UnSelected,
    /// the default studio was chosen
    Default,
    /// a custom path is being typed
    Custom,
    /// a custom path was given
    Selected,
}

impl SelectPlace {
    pub fn is_custom(&self) -> (b: bool)
        ensures
            b == (*self == SelectPlace::Custom),
    {
        matches!(self, SelectPlace::Custom)
    }
}

/// Which log shows: Ract's own or the studio's.
#[derive(Debug, Clone, Copy, PartialEq, Eq, Structural)]
pub enum LogPlace {
    Ract,
    Studio,
}

/// Where `l` moves the focus: from the choice to the log shown, from
/// Ract's log to the studio's, from the studio's log back to the choice
/// (showing Ract's log again).
pub open spec fn next_focus(current: Current, log: LogPlace) -> (Current, LogPlace) {
    match (current, log) {
        (Current::Select, l) => (Current::Log, l),
        (Current::Log, LogPlace::Ract) => (Current::Log, LogPlace::Studio),
        (Current::Log, LogPlace::Studio) => (Current::Select, LogPlace::Ract),
    }
}

/// Pressing `l` three times brings the focus back where it was, from any
/// focus the dialog can be in (on the choice, Ract's log is the one shown).
pub proof fn lemma_focus_cycle(current: Current, log: LogPlace)
    requires
        current == Current::Select ==> log == LogPlace::Ract,
    ensures
        ({
            let f1 = next_focus(current, log);
            let f2 = next_focus(f1.0, f1.1);
            next_focus(f2.0, f2.1) == (current, log)
        }),
{
}

#[derive(Debug, Clone, Copy, PartialEq, Eq, Structural)]
pub struct Place {
    pub select: SelectPlace,
    pub log: LogPlace,
    pub current: Current,
}

/// The messages of `ract studio` that the dialog itself decides on.
#[derive(Debug, Clone, PartialEq, Eq)]
pub enum StudioLogs {
    /// the default studio will be run
    Gui,
    /// the studio at this path will be run
    Custom(String),
    /// the studio stopped
    Stop,
    Error(String),
}

/// What the studio dialog asks of its runner after a key.
#[derive(Debug, Clone, PartialEq, Eq)]
pub enum StudioAction {
    Nothing,
    /// hand the key to the path field
    TextareaInput,
    /// log this message
    Log(StudioLogs),
}

/// What the studio dialog asks of its runner after a step.
#[derive(Debug, Clone, Copy, PartialEq, Eq, Structural)]
pub enum StudioTask {
    Nothing,
    /// show the description, then check Makepad and hand the outcome to `finish_check`
    Describe,
    /// check Makepad and hand the outcome to `finish_check`
    Check,
    /// start the studio once (the default one where `uses_default`, else the
    /// path typed), then hand the outcome to `launched`
    Launch,
    /// wait for the studio to stop, then hand the outcome to `stopped`
    Follow,
}

/// # Studio command
/// Checks Makepad, lets the user pick the default studio or a path, runs
/// it, and shows Ract's and the studio's logs side by side.
pub struct StudioCmd {
    pub lang: Language,
    pub state: ComponentState<StudioState>,
    pub place: Place,
    /// log scroll position; -1 asks to follow the last lines
    pub scroll_y: i16,
    pub is_default: bool,
    pub selected: bool,
    pub is_running: bool,
    /// the custom path typed
    pub value: String,
}

impl StudioCmd {
    pub fn new(lang: Language) -> (r: Self)
        ensures
            r.lang == lang,
            r.state is Start,
            r.place == (Place {
                select: SelectPlace::UnSelected,
                log: LogPlace::Ract,
                current: Current::Select,
            }),
            r.scroll_y == -1,
            r.is_default,
            !r.selected,
            !r.is_running,
            r.value@ == Seq::<char>::empty(),
    {
        StudioCmd {
            lang,
            state: ComponentState::Start,
            place: Place { select: SelectPlace::UnSelected, log: LogPlace::Ract, current: Current::Select },
            scroll_y: -1,
            is_default: true,
            selected: false,
            is_running: false,
            value: String::new(),
        }
    }

    /// One step of the work, before the dialog looks at the keyboard.
    pub fn step(&mut self) -> (t: StudioTask)
        ensures
            t == (match old(self).state {
                ComponentState::Start => StudioTask::Describe,
                ComponentState::Run(StudioState::Check) => StudioTask::Check,
                ComponentState::Run(StudioState::Running) => if old(self).is_running {
                    StudioTask::Follow
                } else {
                    StudioTask::Launch
                },
                _ => StudioTask::Nothing,
            }),
            final(self).state == (if old(self).state is Start {
                old(self).state.next_spec()
            } else {
                old(self).state
            }),
            final(self).place == old(self).place,
            final(self).is_default == old(self).is_default,
            final(self).is_running == old(self).is_running,
            final(self).value == old(self).value,
            final(self).selected == old(self).selected,
            final(self).scroll_y == old(self).scroll_y,
            final(self).lang == old(self).lang,
    {
        match self.state {
            ComponentState::Start => {
                self.state.next();
                StudioTask::Describe
            },
            ComponentState::Run(StudioState::Check) => StudioTask::Check,
            ComponentState::Run(StudioState::Running) => {
                if self.is_running {
                    StudioTask::Follow
                } else {
                    StudioTask::Launch
                }
            },
            _ => StudioTask::Nothing,
        }
    }

    /// Takes the outcome of checking Makepad: with every tool ready the
    /// dialog goes on to the choice, else (or when the check failed) it pauses.
    pub fn finish_check(&mut self, outcome: Result<Vec<CheckItem>, String>)
        ensures
            final(self).state == (match outcome {
                Ok(items) => if forall|i: int| 0 <= i < items@.len() ==> #[trigger] items@[i].state {
                    old(self).state.next_spec()
                } else {
                    ComponentState::Pause
                },
                Err(_) => ComponentState::Pause,
            }),
            final(self).place == old(self).place,
    {
        match outcome {
            Ok(checks) => {
                let mut err = false;
                let mut i: usize = 0;
                while i < checks.len()
                    invariant
                        i <= checks.len(),
                        err == !(forall|k: int| 0 <= k < i ==> #[trigger] checks@[k].state),
                    decreases checks.len() - i,
                {
                    if !checks[i].state {
                        err = true;
                    }
                    i = i + 1;
                }
                if err {
                    self.state.to_pause();
                } else {
                    self.state.next();
                }
            },
            Err(_) => {
                self.state.to_pause();
            },
        }
    }

    /// Where the studio to run is: the default one, or the custom path typed.
    pub fn uses_default(&self) -> (b: bool)
        ensures
            b == self.is_default,
    {
        self.is_default
    }

    /// After the start of the studio: a started studio is followed; a
    /// studio that could not be found pauses the dialog, with the reason.
    pub fn launched(&mut self, outcome: Result<(), String>) -> (a: StudioAction)
        ensures
            a == (match outcome {
                Ok(_) => StudioAction::Nothing,
                Err(e) => StudioAction::Log(StudioLogs::Error(e)),
            }),
            final(self).is_running == (outcome is Ok || old(self).is_running),
            final(self).state == (if outcome is Ok {
                old(self).state
            } else {
                ComponentState::Pause
            }),
    {
        match outcome {
            Ok(_) => {
                self.is_running = true;
                StudioAction::Nothing
            },
            Err(e) => {
                self.state.to_pause();
                StudioAction::Log(StudioLogs::Error(e))
            },
        }
    }

    /// After the studio stopped: `Ok(success)` moves the run on (logging
    /// the stop when it exited successfully); an error pauses the dialog.
    pub fn stopped(&mut self, outcome: Result<bool, String>) -> (a: StudioAction)
        ensures
            a == (match outcome {
                Ok(true) => StudioAction::Log(StudioLogs::Stop),
                Ok(false) => StudioAction::Nothing,
                Err(e) => StudioAction::Log(StudioLogs::Error(e)),
            }),
            !final(self).is_running,
            final(self).state == (if outcome is Ok {
                old(self).state.next_spec()
            } else {
                ComponentState::Pause
            }),
    {
        self.is_running = false;
        match outcome {
            Ok(success) => {
                self.state.next();
                if success {
                    StudioAction::Log(StudioLogs::Stop)
                } else {
                    StudioAction::Nothing
                }
            },
            Err(e) => {
                self.state.to_pause();
                StudioAction::Log(StudioLogs::Error(e))
            },
        }
    }

    /// Handles a pressed key.  `l` cycles the focus: choice, Ract's log,
    /// the studio's log, back to the choice.  On the choice, `Up`/`Down`
    /// switch between the default studio and a custom path and `Enter`
    /// takes it; while a path is typed, keys go to the field, `Enter` takes
    /// the path and `Esc` goes back.  On a log, `Up`/`Down` scroll.
    pub fn handle_key(&mut self, key: Key, typed: &str) -> (a: StudioAction)
        requires
            key == Key::Down && old(self).place.current == Current::Log ==> old(self).scroll_y < i16::MAX,
        ensures
            ({
                let custom = old(self).place.select == SelectPlace::Custom;
                let on_select = old(self).place.current == Current::Select;
                &&& a == (match key {
                    Key::Char('l') => StudioAction::Nothing,
                    Key::Char('q') => if custom {
                        StudioAction::TextareaInput
                    } else {
                        StudioAction::Nothing
                    },
                    Key::Up | Key::Down => if on_select && custom {
                        StudioAction::TextareaInput
                    } else {
                        StudioAction::Nothing
                    },
                    Key::Enter => match old(self).place.select {
                        SelectPlace::UnSelected => if old(self).is_default {
                            StudioAction::Log(StudioLogs::Gui)
                        } else {
                            StudioAction::Nothing
                        },
                        SelectPlace::Custom => StudioAction::Log(StudioLogs::Custom(final(self).value)),
                        _ => StudioAction::Nothing,
                    },
                    Key::Esc => StudioAction::Nothing,
                    _ => if custom {
                        StudioAction::TextareaInput
                    } else {
                        StudioAction::Nothing
                    },
                })
                &&& final(self).state == (match key {
                    Key::Char('q') => if custom {
                        old(self).state
                    } else {
                        ComponentState::Quit
                    },
                    Key::Enter => if (old(self).place.select == SelectPlace::UnSelected
                        && old(self).is_default) || custom {
                        old(self).state.next_spec()
                    } else {
                        old(self).state
                    },
                    _ => old(self).state,
                })
                &&& final(self).place.select == (match key {
                    Key::Enter => match old(self).place.select {
                        SelectPlace::UnSelected => if old(self).is_default {
                            SelectPlace::Default
                        } else {
                            SelectPlace::Custom
                        },
                        SelectPlace::Custom => SelectPlace::Selected,
                        other => other,
                    },
                    Key::Esc => if custom {
                        SelectPlace::UnSelected
                    } else {
                        old(self).place.select
                    },
                    _ => old(self).place.select,
                })
                &&& (final(self).place.current, final(self).place.log) == (match key {
                    Key::Char('l') => next_focus(old(self).place.current, old(self).place.log),
                    _ => (old(self).place.current, old(self).place.log),
                })
                &&& final(self).is_default == (match key {
                    Key::Up | Key::Down => if on_select && old(self).place.select
                        == SelectPlace::UnSelected {
                        !old(self).is_default
                    } else {
                        old(self).is_default
                    },
                    Key::Enter => if custom {
                        false
                    } else {
                        old(self).is_default
                    },
                    _ => old(self).is_default,
                })
                &&& final(self).value@ == (if key == Key::Enter && custom {
                    typed@
                } else {
                    old(self).value@
                })
                &&& final(self).scroll_y == (match key {
                    Key::Char('l') => -1i16,
                    Key::Up => if !on_select && old(self).scroll_y > 0 {
                        (old(self).scroll_y - 1) as i16
                    } else {
                        old(self).scroll_y
                    },
                    Key::Down => if !on_select {
                        (old(self).scroll_y + 1) as i16
                    } else {
                        old(self).scroll_y
                    },
                    _ => old(self).scroll_y,
                })
            }),
            final(self).is_running == old(self).is_running,
    {
        match key {
            Key::Char('q') => {
                if self.place.select.is_custom() {
                    StudioAction::TextareaInput
                } else {
                    self.state.quit();
                    StudioAction::Nothing
                }
            },
            Key::Char('l') => {
                match self.place.current {
                    Current::Select => {
                        self.place.current = Current::Log;
                    },
                    Current::Log => match self.place.log {
                        LogPlace::Ract => {
                            self.place.log = LogPlace::Studio;
                        },
                        LogPlace::Studio => {
                            self.place.log = LogPlace::Ract;
                            self.place.current = Current::Select;
                        },
                    },
                }
                self.scroll_y = -1;
                StudioAction::Nothing
            },
            Key::Up | Key::Down => {
                match self.place.current {
                    Current::Select => match self.place.select {
                        SelectPlace::UnSelected => {
                            self.is_default = !self.is_default;
                            StudioAction::Nothing
                        },
                        SelectPlace::Custom => StudioAction::TextareaInput,
                        _ => StudioAction::Nothing,
                    },
                    Current::Log => {
                        if key == Key::Up {
                            if self.scroll_y > 0 {
                                self.scroll_y -= 1;
                            }
                        } else {
                            self.scroll_y += 1;
                        }
                        StudioAction::Nothing
                    },
                }
            },
            Key::Enter => match self.place.select {
                SelectPlace::UnSelected => {
                    if self.is_default {
                        self.place.select = SelectPlace::Default;
                        self.state.next();
                        StudioAction::Log(StudioLogs::Gui)
                    } else {
                        self.place.select = SelectPlace::Custom;
                        StudioAction::Nothing
                    }
                },
                SelectPlace::Custom => {
                    self.value = typed.to_string();
                    self.is_default = false;
                    self.state.next();
                    self.place.select = SelectPlace::Selected;
                    StudioAction::Log(StudioLogs::Custom(self.value.clone()))
                },
                _ => StudioAction::Nothing,
            },
            Key::Esc => {
                if self.place.select.is_custom() {
                    self.place.select = SelectPlace::UnSelected;
                }
                StudioAction::Nothing
            },
            _ => {
                if self.place.select.is_custom() {
                    StudioAction::TextareaInput
                } else {
                    StudioAction::Nothing
                }
            },
        }
    }

    /// A key that is not a press goes to the path field while one is typed.
    pub fn handle_other_event(&self) -> (forward: bool)
        ensures
            forward == (self.place.select == SelectPlace::Custom),
    {
        self.place.select.is_custom()
    }

    /// Follows the last lines of a log of `lines` lines once asked to
    /// (`scroll_y == -1`): the view starts at `lines - 12`, or at the top
    /// of a shorter log.
    pub fn follow_log(&mut self, lines: u16)
        requires
            lines <= i16::MAX,
        ensures
            final(self).scroll_y == (if old(self).scroll_y == -1 {
                if lines > 12 {
                    (lines - 12) as i16
                } else {
                    0i16
                }
            } else {
                old(self).scroll_y
            }),
            final(self).place == old(self).place,
    {
        if self.scroll_y == -1 {
            if lines > 12 {
                self.scroll_y = (lines - 12) as i16;
            } else {
                self.scroll_y = 0;
            }
        }
    }

    /// The rows of the help line in a column `area_width - 6` wide, and the
    /// rows of the choice pane under it: (main, other).
    pub fn heights(&self, help_width: usize, area_width: usize) -> (r: (usize, usize))
        requires
            area_width > 6,
            (help_width as int) / ((area_width - 6) as int) + 1 + 5 <= usize::MAX,
        ensures
            ({
                let w = (area_width - 6) as int;
                let help = if help_width >= w {
                    (help_width as int) / w + 1
                } else {
                    1
                };
                r == (match self.place.select {
                    SelectPlace::UnSelected => ((5 + help) as usize, 4usize),
                    SelectPlace::Default => ((1 + help) as usize, 0usize),
                    SelectPlace::Custom => ((4 + help) as usize, 3usize),
                    SelectPlace::Selected => ((1 + help) as usize, 0usize),
                })
            }),
    {
        let w = area_width - 6;
        let help = if help_width >= w {
            help_width / w + 1
        } else {
            1
        };
        match self.place.select {
            SelectPlace::UnSelected => (5 + help, 4),
            SelectPlace::Default => (1 + help, 0),
            SelectPlace::Custom => (4 + help, 3),
            SelectPlace::Selected => (1 + help, 0),
        }
    }
}

} // verus!
