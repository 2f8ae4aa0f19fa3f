use vstd::prelude::*;

use crate::app::key::Key;
use crate::app::state::{ComponentState, State};
use crate::app::input::chars_of;
use crate::entry::Language;
use crate::service::command::wasm::WasmArgs;

verus! {

/// Why a port number was refused (the kinds of std's `ParseIntError`;
/// ports run from 1 to 65535, so 0 is refused too).
#[derive(Debug, Clone, Copy, PartialEq, Eq, Structural)]
pub enum PortError {
    /// nothing was typed
    Empty,
    /// something other than a digit was typed
    InvalidDigit,
    /// the number is above 65535
    PosOverflow,
    /// the number is 0, which is no port
    Zero,
}

pub open spec fn is_digit(c: char) -> bool {
    '0' <= c <= '9'
}

pub open spec fn digit_value(c: char) -> int {
    c as int - '0' as int
}

/// Reads the decimal digits `d` after the value `acc` read so far, left to
/// right: the first character that is no digit refuses the text, and so
/// does the first digit that takes the value above 65535.
pub open spec fn scan_digits(d: Seq<char>, acc: int) -> Result<u16, PortError>
    decreases d.len(),
{
    if d.len() == 0 {
        Ok(acc as u16)
    } else if !is_digit(d[0]) {
        Err(PortError::InvalidDigit)
    } else if acc * 10 + digit_value(d[0]) > u16::MAX {
        Err(PortError::PosOverflow)
    } else {
        scan_digits(d.drop_first(), acc * 10 + digit_value(d[0]))
    }
}

/// A number as `u16::from_str` reads it: an optional `+`, then decimal digits.
pub open spec fn read_u16_spec(s: Seq<char>) -> Result<u16, PortError> {
    if s.len() == 0 {
        Err(PortError::Empty)
    } else if (s[0] == '+' || s[0] == '-') && s.len() == 1 {
        Err(PortError::InvalidDigit)
    } else if s[0] == '+' {
        scan_digits(s.drop_first(), 0)
    } else {
        scan_digits(s, 0)
    }
}

/// A port number typed by the user: a number as `u16::from_str` reads it,
/// from 1 to 65535 (0 is refused).
pub open spec fn parse_port_spec(s: Seq<char>) -> Result<u16, PortError> {
    match read_u16_spec(s) {
        Ok(p) => if p == 0 {
            Err(PortError::Zero)
        } else {
            Ok(p)
        },
        Err(e) => Err(e),
    }
}

/// Reads a port number typed by the user, as `parse_port_spec` says.
pub fn parse_port(s: &str) -> (r: Result<u16, PortError>)
    ensures
        r == parse_port_spec(s@),
{
    let chars = chars_of(s);
    if chars.len() == 0 {
        return Err(PortError::Empty);
    }
    if (chars[0] == '+' || chars[0] == '-') && chars.len() == 1 {
        return Err(PortError::InvalidDigit);
    }
    let start: usize = if chars[0] == '+' {
        1
    } else {
        0
    };
    let ghost d = chars@.skip(start as int);
    assert(start == 1 ==> d =~= chars@.drop_first());
    assert(start == 0 ==> d =~= chars@);
    assert(read_u16_spec(s@) == scan_digits(d, 0));
    let mut acc: u32 = 0;
    let mut i: usize = start;
    while i < chars.len()
        invariant
            start <= i <= chars.len(),
            d == chars@.skip(start as int),
            read_u16_spec(s@) == scan_digits(d, 0),
            acc <= u16::MAX,
            scan_digits(d, 0) == scan_digits(chars@.skip(i as int), acc as int),
        decreases chars.len() - i,
    {
        let c = chars[i];
        assert(chars@.skip(i as int)[0] == c);
        assert(chars@.skip(i as int).drop_first() =~= chars@.skip(i + 1));
        if !(c >= '0' && c <= '9') {
            assert(scan_digits(chars@.skip(i as int), acc as int) == Err::<u16, PortError>(PortError::InvalidDigit));
            return Err(PortError::InvalidDigit);
        }
        let v = acc * 10 + (c as u32 - '0' as u32);
        assert(v == acc * 10 + digit_value(c));
        if v > 65535 {
            assert(scan_digits(chars@.skip(i as int), acc as int) == Err::<u16, PortError>(PortError::PosOverflow));
            return Err(PortError::PosOverflow);
        }
        acc = v;
        i = i + 1;
    }
    assert(chars@.skip(i as int).len() == 0);
    if acc == 0 {
        return Err(PortError::Zero);
    }
    Ok(acc as u16)
}

/// The phases of `ract wasm`: asking for the port, then running.
#[derive(Debug, Clone, Copy, PartialEq, Eq, Structural)]
pub enum WasmState {
    /// enter port
    Port,
    Running,
}

impl Default for WasmState {
    fn default() -> (r: Self)
        ensures
            r == WasmState::Port,
            r == Self::initial_spec(),
    {
        WasmState::Port
    }
}

impl State for WasmState {
    open spec fn initial_spec() -> Self {
        WasmState::Port
    }

    open spec fn next_spec(self) -> Self {
        WasmState::Running
    }

    open spec fn run_end_spec(self) -> bool {
        self == WasmState::Running
    }

    open spec fn to_run_end_spec(self) -> Self {
        WasmState::Running
    }

    open spec fn rank(self) -> nat {
        match self {
            WasmState::Port => 1,
            WasmState::Running => 0,
        }
    }

    proof fn lemma_progress(s: Self) {
    }

    proof fn lemma_default_is_initial(r: Self) {
    }

    fn next(&mut self) {
        *self = WasmState::Running;
    }

    fn is_run_end(&self) -> (b: bool) {
        matches!(self, WasmState::Running)
    }

    fn to_run_end(&mut self) {
        *self = WasmState::Running;
    }
}

/// What the wasm dialog asks of its runner after a key.
#[derive(Debug, Clone, Copy, PartialEq, Eq, Structural)]
pub enum WasmAction {
    Nothing,
    /// hand the key to the port field
    TextareaInput,
    /// stop the running project, then hand the outcome to `finish_stop`
    StopProcess,
    /// the port was taken: log that the project starts
    PortAccepted(u16),
    /// the port was refused: clear the field and log why
    PortRejected(PortError),
}

/// What the wasm dialog asks of its runner after a step.
#[derive(Debug, Clone, Copy, PartialEq, Eq, Structural)]
pub enum WasmTask {
    Nothing,
    /// show the description of the dialog
    Describe,
    /// start the project (see `launch_target`), then hand the outcome to `launched`
    Launch,
    /// pass on the logs of the running project
    Follow,
}

/// How the project is started.
#[derive(Debug, Clone, PartialEq, Eq)]
pub enum WasmLaunch {
    /// run the named Makepad project
    Project(String),
    /// run the project that the `.ract` file of the current directory points at
    FromRact,
}

/// Why the project could not be started.
#[derive(Debug, Clone, Copy, PartialEq, Eq, Structural)]
pub enum WasmLaunchError {
    /// no project was named and the current directory has no `.ract` file
    NoRactConf,
}

/// # Wasm command
/// Asks for a port, then builds and serves a WASM project, showing its logs.
pub struct WasmCmd {
    pub state: ComponentState<WasmState>,
    pub lang: Language,
    /// the project to run; without one, the `.ract` file of the current directory decides
    pub project: Option<String>,
    pub port: u16,
    pub is_running: bool,
    pub pid: Option<u32>,
    pub scroll_y: u16,
    /// whether the user scrolls the log (else it follows the last line)
    pub control: bool,
}

impl WasmCmd {
    /// A dialog for `project`, in `lang`, proposing port 8010.
    pub fn new(project: Option<String>, lang: Language) -> (r: Self)
        ensures
            r.state is Start,
            r.lang == lang,
            r.project == project,
            r.port == 8010,
            !r.is_running,
            r.pid is None,
            r.scroll_y == 0,
            !r.control,
    {
        WasmCmd {
            state: ComponentState::Start,
            lang,
            project,
            port: 8010,
            is_running: false,
            pid: None,
            scroll_y: 0,
            control: false,
        }
    }

    pub open spec fn run_port(&self) -> bool {
        self.state == ComponentState::<WasmState>::Run(WasmState::Port)
    }

    /// Whether the dialog asks for the port.
    pub fn is_run_port(&self) -> (b: bool)
        ensures
            b == self.run_port(),
    {
        matches!(self.state, ComponentState::Run(WasmState::Port))
    }

    /// One step of the work, before the dialog looks at the keyboard: a start
    /// shows the description and asks for the port; while running, the
    /// project is started once and its logs followed after that.
    pub fn step(&mut self) -> (t: WasmTask)
        ensures
            t == (match old(self).state {
                ComponentState::Start => WasmTask::Describe,
                ComponentState::Run(WasmState::Running) => if old(self).is_running {
                    WasmTask::Follow
                } else {
                    WasmTask::Launch
                },
                _ => WasmTask::Nothing,
            }),
            final(self).state == (if old(self).state is Start {
                old(self).state.next_spec()
            } else {
                old(self).state
            }),
            final(self).port == old(self).port,
            final(self).project == old(self).project,
            final(self).is_running == old(self).is_running,
            final(self).pid == old(self).pid,
    {
        match self.state {
            ComponentState::Start => {
                self.state.next();
                WasmTask::Describe
            },
            ComponentState::Run(WasmState::Running) => {
                if self.is_running {
                    WasmTask::Follow
                } else {
                    WasmTask::Launch
                }
            },
            _ => WasmTask::Nothing,
        }
    }

    /// How to start the project: the named one, or else the one the
    /// `.ract` file points at, when the current directory has one.
    pub fn launch_target(&self, ract_exists: bool) -> (r: Result<WasmLaunch, WasmLaunchError>)
        ensures
            r == (match self.project {
                Some(p) => Ok(WasmLaunch::Project(p)),
                None => if ract_exists {
                    Ok(WasmLaunch::FromRact)
                } else {
                    Err(WasmLaunchError::NoRactConf)
                },
            }),
    {
        match &self.project {
            Some(p) => Ok(WasmLaunch::Project(p.clone())),
            None => {
                if ract_exists {
                    Ok(WasmLaunch::FromRact)
                } else {
                    Err(WasmLaunchError::NoRactConf)
                }
            },
        }
    }

    /// After the start: a started process is followed; a failure pauses the dialog.
    pub fn launched(&mut self, pid: Option<u32>)
        ensures
            final(self).pid == (if pid is Some {
                pid
            } else {
                old(self).pid
            }),
            final(self).is_running == (pid is Some || old(self).is_running),
            final(self).state == (if pid is Some {
                old(self).state
            } else {
                ComponentState::Pause
            }),
            final(self).port == old(self).port,
    {
        match pid {
            Some(id) => {
                self.pid = Some(id);
                self.is_running = true;
            },
            None => {
                self.state.to_pause();
            },
        }
    }

    /// Handles a pressed key.  While the port is asked for, keys go to the
    /// port field, `Enter` reads it and `q` quits; afterwards `q` stops a
    /// running project (or quits) and `Up`/`Down` scroll the log.
    pub fn handle_key(&mut self, key: Key, typed: &str) -> (a: WasmAction)
        requires
            key == Key::Down && !old(self).run_port() ==> old(self).scroll_y < u16::MAX,
        ensures
            a == (match key {
                Key::Char('q') => if old(self).is_running {
                    WasmAction::StopProcess
                } else {
                    WasmAction::Nothing
                },
                Key::Enter => if old(self).run_port() {
                    match parse_port_spec(typed@) {
                        Ok(p) => WasmAction::PortAccepted(p),
                        Err(e) => WasmAction::PortRejected(e),
                    }
                } else {
                    WasmAction::Nothing
                },
                _ => if old(self).run_port() {
                    WasmAction::TextareaInput
                } else {
                    WasmAction::Nothing
                },
            }),
            final(self).state == (match key {
                Key::Char('q') => if old(self).is_running {
                    old(self).state
                } else {
                    ComponentState::Quit
                },
                Key::Enter => if old(self).run_port() && parse_port_spec(typed@) is Ok {
                    ComponentState::Run(WasmState::Running)
                } else {
                    old(self).state
                },
                _ => old(self).state,
            }),
            final(self).port == (match a {
                WasmAction::PortAccepted(p) => p,
                _ => old(self).port,
            }),
            final(self).scroll_y == (if old(self).run_port() {
                old(self).scroll_y
            } else {
                match key {
                    Key::Up => if old(self).scroll_y > 0 {
                        (old(self).scroll_y - 1) as u16
                    } else {
                        old(self).scroll_y
                    },
                    Key::Down => (old(self).scroll_y + 1) as u16,
                    _ => old(self).scroll_y,
                }
            }),
            final(self).control == (old(self).control || (!old(self).run_port() && (key == Key::Up || key == Key::Down))),
            final(self).is_running == old(self).is_running,
            final(self).pid == old(self).pid,
            final(self).project == old(self).project,
    {
        match key {
            Key::Char('q') => {
                if self.is_running {
                    WasmAction::StopProcess
                } else {
                    self.state.quit();
                    WasmAction::Nothing
                }
            },
            Key::Up => {
                if self.is_run_port() {
                    WasmAction::TextareaInput
                } else {
                    self.control = true;
                    if self.scroll_y > 0 {
                        self.scroll_y -= 1;
                    }
                    WasmAction::Nothing
                }
            },
            Key::Down => {
                if self.is_run_port() {
                    WasmAction::TextareaInput
                } else {
                    self.control = true;
                    self.scroll_y += 1;
                    WasmAction::Nothing
                }
            },
            Key::Enter => {
                if self.is_run_port() {
                    match parse_port(typed) {
                        Ok(port) => {
                            self.port = port;
                            self.state = ComponentState::Run(WasmState::Running);
                            WasmAction::PortAccepted(port)
                        },
                        Err(e) => WasmAction::PortRejected(e),
                    }
                } else {
                    WasmAction::Nothing
                }
            },
            _ => {
                if self.is_run_port() {
                    WasmAction::TextareaInput
                } else {
                    WasmAction::Nothing
                }
            },
        }
    }

    /// After an attempt to stop the project (`None` when there was no
    /// process to stop): a stopped project pauses the dialog; either way
    /// the process is forgotten and the project no longer counts as running.
    pub fn finish_stop(&mut self, stopped: Option<bool>)
        ensures
            final(self).pid is None,
            !final(self).is_running,
            final(self).state == (if stopped == Some(true) {
                ComponentState::Pause
            } else {
                old(self).state
            }),
            final(self).port == old(self).port,
    {
        if let Some(true) = stopped {
            self.state.to_pause();
        }
        self.pid = None;
        self.is_running = false;
    }

    /// Scrolls the log so that its last lines show, unless the user scrolls
    /// it: with more than 12 lines the view starts at `lines - 12 + 2`.
    pub fn follow_log(&mut self, lines: u16)
        ensures
            final(self).scroll_y == (if !old(self).control && lines > 12 {
                (lines - 12 + 2) as u16
            } else {
                old(self).scroll_y
            }),
            final(self).state == old(self).state,
            final(self).control == old(self).control,
    {
        if !self.control {
            if lines > 12 {
                self.scroll_y = lines - 12 + 2;
            }
        }
    }

    /// The rows above the log: 4 while the port is asked for, else 1.
    pub fn main_height(&self) -> (h: u16)
        ensures
            h == (if self.run_port() {
                4u16
            } else {
                1u16
            }),
    {
        if self.is_run_port() {
            4
        } else {
            1
        }
    }

    /// How long to wait for a key, in milliseconds: a second when a running
    /// project has been quiet for over two seconds, else 20.
    pub fn poll_timeout(&self, quiet_over_two_seconds: bool) -> (ms: u64)
        ensures
            ms == (if self.is_running && quiet_over_two_seconds {
                1000u64
            } else {
                20u64
            }),
    {
        if self.is_running && quiet_over_two_seconds {
            1000
        } else {
            20
        }
    }
}

impl From<(WasmArgs, Language)> for WasmCmd {
    /// The dialog for the arguments of `ract wasm`, in a language.
    fn from(value: (WasmArgs, Language)) -> (r: Self) {
        WasmCmd::new(value.0.project, value.1)
    }
}

impl vstd::std_specs::convert::FromSpecImpl<(WasmArgs, Language)> for WasmCmd {
    open spec fn obeys_from_spec() -> bool {
        true
    }

    open spec fn from_spec(v: (WasmArgs, Language)) -> Self {
        WasmCmd {
            state: ComponentState::Start,
            lang: v.1,
            project: v.0.project,
            port: 8010,
            is_running: false,
            pid: None,
            scroll_y: 0,
            control: false,
        }
    }
}

} // verus!
