use vstd::prelude::*;

use crate::app::key::Key;
use crate::app::state::{ComponentState, InputMode, State};
use crate::common::toml::{
    toml_entries_at, toml_entries_view, toml_get_entries, toml_parses, toml_set_str,
    toml_with_str_at,
};
use crate::entry::{Configs, Language};

verus! {

broadcast use vstd::string::group_string_axioms;

/// The phases of `ract config`: loading, then getting and setting values.
#[derive(Clone, Copy, Debug, PartialEq, Eq, Structural)]
pub enum ConfigState {
    Select,
    GetSet,
}

impl Default for ConfigState {
    fn default() -> (r: Self)
        ensures
            r == ConfigState::Select,
            r == Self::initial_spec(),
    {
        ConfigState::Select
    }
}

impl State for ConfigState {
    open spec fn initial_spec() -> Self {
        ConfigState::Select
    }

    open spec fn next_spec(self) -> Self {
        ConfigState::GetSet
    }

    open spec fn run_end_spec(self) -> bool {
        self == ConfigState::GetSet
    }

    open spec fn to_run_end_spec(self) -> Self {
        ConfigState::GetSet
    }

    open spec fn rank(self) -> nat {
        match self {
            ConfigState::Select => 1,
            ConfigState::GetSet => 0,
        }
    }

    proof fn lemma_progress(s: Self) {
    }

    proof fn lemma_default_is_initial(r: Self) {
    }

    fn next(&mut self) {
        *self = ConfigState::GetSet;
    }

    fn is_run_end(&self) -> (b: bool) {
        matches!(self, ConfigState::GetSet)
    }

    fn to_run_end(&mut self) {
        *self = ConfigState::GetSet;
    }
}

/// Where the keys go: the tabs of the two files, the pane of the chosen
/// file, or the list of commands.
#[derive(Default, Clone, Copy, Debug, PartialEq, Eq, Structural)]
pub enum Place {
    #[default]
    Tab,
    Pane,
    Select,
}

impl Place {
    /// The place after this one: tabs, pane, commands, and round again.
    pub open spec fn next_spec(self) -> Place {
        match self {
            Place::Tab => Place::Pane,
            Place::Pane => Place::Select,
            Place::Select => Place::Tab,
        }
    }

    pub fn next(&mut self)
        ensures
            *final(self) == old(self).next_spec(),
    {
        match *self {
            Place::Tab => {
                *self = Place::Pane;
            },
            Place::Pane => {
                *self = Place::Select;
            },
            Place::Select => {
                *self = Place::Tab;
            },
        }
    }

    pub fn is_pane(&self) -> (b: bool)
        ensures
            b == (*self == Place::Pane),
    {
        matches!(self, Place::Pane)
    }

    pub fn is_tab(&self) -> (b: bool)
        ensures
            b == (*self == Place::Tab),
    {
        matches!(self, Place::Tab)
    }

    pub fn is_select(&self) -> (b: bool)
        ensures
            b == (*self == Place::Select),
    {
        matches!(self, Place::Select)
    }
}

/// Moving on three times comes back to the same place.
pub proof fn lemma_place_cycle(p: Place)
    ensures
        p.next_spec().next_spec().next_spec() == p,
        p.next_spec() != p,
{
}

/// A line of the chain's `env.toml` as the pane shows it: a section title
/// (`is_kv` false) or a `key = value` entry.
#[derive(Debug, Clone)]
pub struct ChainLine {
    pub key: String,
    pub value: String,
    pub is_kv: bool,
}

/// The lines the pane shows for `chain/env.toml` (its text is `content`):
/// the `[dependencies]` title, then each entry of that table in order, a
/// string entry as `key = value`, any other entry as a title that cannot
/// be edited.
pub open spec fn chain_lines_spec(content: Seq<char>) -> Seq<(Seq<char>, Seq<char>, bool)> {
    let entries = match toml_entries_at(content, "dependencies"@) {
        Some(e) => e,
        None => Seq::empty(),
    };
    seq![("[dependencies]"@, Seq::<char>::empty(), false)] + entries.map_values(
        |e: (Seq<char>, Option<Seq<char>>)| match e.1 {
            Some(v) => (e.0, v, true),
            None => (e.0, Seq::<char>::empty(), false),
        },
    )
}

/// A line as the spec functions write it.
pub open spec fn line_view(l: ChainLine) -> (Seq<char>, Seq<char>, bool) {
    (l.key@, l.value@, l.is_kv)
}

/// The lines of `chain/env.toml` for the pane, as `chain_lines_spec` says;
/// a text that is not TOML is an error (its parser's message).
pub fn chain_lines(content: &str) -> (r: Result<Vec<ChainLine>, String>)
    ensures
        r is Ok <==> toml_parses(content@),
        r matches Ok(lines) ==> lines@.map_values(|l: ChainLine| line_view(l)) == chain_lines_spec(content@),
{
    let entries = match toml_get_entries(content, "dependencies") {
        Err(e) => {
            return Err(e);
        },
        Ok(entries) => entries,
    };
    let ghost want = chain_lines_spec(content@);
    let mut lines: Vec<ChainLine> = Vec::new();
    lines.push(ChainLine { key: "[dependencies]".to_string(), value: String::new(), is_kv: false });
    match entries {
        None => {
            assert(lines@.map_values(|l: ChainLine| line_view(l)) =~= want);
        },
        Some(items) => {
            let ghost listed = toml_entries_view(Some(items));
            let mut i: usize = 0;
            while i < items.len()
                invariant
                    i <= items.len(),
                    listed == toml_entries_view(Some(items)),
                    listed == toml_entries_at(content@, "dependencies"@),
                    want == chain_lines_spec(content@),
                    lines@.len() == i + 1,
                    forall|j: int| 0 <= j <= i ==> #[trigger] line_view(lines@[j]) == want[j],
                decreases items.len() - i,
            {
                let (key, value) = &items[i];
                let line = match value {
                    Some(v) => ChainLine { key: key.clone(), value: v.clone(), is_kv: true },
                    None => ChainLine { key: key.clone(), value: String::new(), is_kv: false },
                };
                assert(line_view(line) == want[i + 1]);
                lines.push(line);
                i = i + 1;
            }
            assert(lines@.map_values(|l: ChainLine| line_view(l)) =~= want);
        },
    }
    Ok(lines)
}

/// `content` with each `key = value` line written into its
/// `[dependencies]` table, one after the other; `None` where a step fails
/// (the text is not TOML, or `dependencies` is no table).
pub open spec fn chain_text_spec(content: Seq<char>, lines: Seq<ChainLine>) -> Option<Seq<char>>
    decreases lines.len(),
{
    if lines.len() == 0 {
        Some(content)
    } else {
        match chain_text_spec(content, lines.drop_last()) {
            None => None,
            Some(c) => if !lines.last().is_kv {
                Some(c)
            } else if !toml_parses(c) {
                None
            } else {
                toml_with_str_at(c, "dependencies"@, lines.last().key@, lines.last().value@)
            },
        }
    }
}

/// The text of `chain/env.toml` (now `content`) once the pane's lines are
/// written into it, as `chain_text_spec` says; an error where that fails.
pub fn chain_text(content: &str, lines: &Vec<ChainLine>) -> (r: Result<String, String>)
    ensures
        match chain_text_spec(content@, lines@) {
            Some(t) => r matches Ok(s) && s@ == t,
            None => r is Err,
        },
{
    let mut text = content.to_string();
    let mut i: usize = 0;
    while i < lines.len()
        invariant
            i <= lines.len(),
            chain_text_spec(content@, lines@.take(i as int)) == Some(text@),
        decreases lines.len() - i,
    {
        assert(lines@.take(i + 1).drop_last() =~= lines@.take(i as int));
        assert(lines@.take(i + 1).last() == lines@[i as int]);
        let line = &lines[i];
        if line.is_kv {
            match toml_set_str(text.as_str(), "dependencies", line.key.as_str(), line.value.as_str()) {
                Ok(Some(next)) => {
                    text = next;
                },
                _ => {
                    proof {
                        lemma_chain_text_fails(content@, lines@, i + 1);
                    }
                    return Err("env.toml cannot be written".to_string());
                },
            }
        }
        i = i + 1;
    }
    assert(lines@.take(lines@.len() as int) =~= lines@);
    Ok(text)
}

/// Once a step fails, the whole write fails.
proof fn lemma_chain_text_fails(content: Seq<char>, lines: Seq<ChainLine>, n: int)
    requires
        0 <= n <= lines.len(),
        chain_text_spec(content, lines.take(n)) is None,
    ensures
        chain_text_spec(content, lines) is None,
    decreases lines.len() - n,
{
    if n < lines.len() {
        assert(lines.take(n + 1).drop_last() =~= lines.take(n));
        lemma_chain_text_fails(content, lines, n + 1);
    } else {
        assert(lines.take(n) =~= lines);
    }
}

/// The two config files as loaded: the chain path that `.env` holds, the
/// lines of the chain's `env.toml`, and which one shows.
pub struct ConfigData {
    pub env: String,
    pub chain_env: Vec<ChainLine>,
    pub current: Configs,
}

impl ConfigData {
    /// The tab of the file that shows: 0 for `.env`, 1 for `env.toml`.
    pub fn current_index(&self) -> (i: usize)
        ensures
            i == (match self.current {
                Configs::Env => 0usize,
                Configs::ChainEnvToml => 1usize,
            }),
    {
        match self.current {
            Configs::Env => 0,
            Configs::ChainEnvToml => 1,
        }
    }

    /// Shows the other file.
    pub fn next(&mut self)
        ensures
            final(self).current == (match old(self).current {
                Configs::Env => Configs::ChainEnvToml,
                Configs::ChainEnvToml => Configs::Env,
            }),
            final(self).env == old(self).env,
            final(self).chain_env == old(self).chain_env,
    {
        match self.current {
            Configs::Env => {
                self.current = Configs::ChainEnvToml;
            },
            Configs::ChainEnvToml => {
                self.current = Configs::Env;
            },
        }
    }
}

/// The commands offered at the bottom of the dialog, in their order.
#[derive(Debug, Clone, Copy, PartialEq, Eq, Structural)]
pub enum Command {
    /// quit without writing
    Q,
    /// write the file that shows
    W,
    /// write it and quit
    Wq,
    /// go back to the tabs without doing anything
    Back,
}

impl Command {
    pub open spec fn option_at(index: int) -> Command {
        if index == 0 {
            Command::Q
        } else if index == 1 {
            Command::W
        } else if index == 2 {
            Command::Wq
        } else {
            Command::Back
        }
    }

    pub fn from_index(index: usize) -> (c: Command)
        requires
            index < 4,
        ensures
            c == Self::option_at(index as int),
    {
        if index == 0 {
            Command::Q
        } else if index == 1 {
            Command::W
        } else if index == 2 {
            Command::Wq
        } else {
            Command::Back
        }
    }
}

/// The dialog's commands are listed as `:q`, `:w`, `:wq` and back, in that
/// order: the command at each index is the one listed there, and no two
/// indices give the same command.
pub proof fn lemma_commands_listed()
    ensures
        forall|i: int|
            0 <= i < 4 ==> #[trigger] Command::option_at(i) == seq![
                Command::Q,
                Command::W,
                Command::Wq,
                Command::Back,
            ][i],
        forall|i: int, j: int|
            0 <= i < 4 && 0 <= j < 4 && #[trigger] Command::option_at(i) == #[trigger] Command::option_at(j) ==> i == j,
{
}

/// What the config dialog asks of its runner after a key.
#[derive(Debug, Clone, PartialEq, Eq)]
pub enum ConfigAction {
    Nothing,
    /// hand the key to the edit field
    TextareaInput,
    /// editing ended: clear the edit field; when a value was changed, it is
    /// given, to be logged as kept until written
    EditDone(Option<String>),
    /// write the file that shows (the dialog has quit already when `quit`)
    Write { quit: bool },
}

/// # Config command
/// Shows `.env` and the chain's `env.toml` in two tabs; values are edited
/// in a field and written on command.
pub struct ConfigCmd {
    pub state: ComponentState<ConfigState>,
    pub lang: Language,
    pub data: Option<ConfigData>,
    pub mode: InputMode,
    pub place: Place,
    pub kv_length: usize,
    pub kv_index: usize,
    /// the value being edited
    pub value: String,
    pub cmd_selected: usize,
}

/// The entry after `Up` in a pane of `len` lines: the one before, or the
/// last before the first (the index is read as an `isize`, as a machine cast does).
pub open spec fn kv_up(index: usize, len: usize) -> usize {
    if (index as isize) - 1 < 0 {
        (len - 1) as usize
    } else {
        (index - 1) as usize
    }
}

/// The entry after `Down`: the next one, or the first after the last.
pub open spec fn kv_down(index: usize, len: usize) -> usize {
    if index + 1 > len - 1 {
        0
    } else {
        (index + 1) as usize
    }
}

/// The command after `Up` among the four: the one before, or the last.
pub open spec fn cmd_up(selected: usize) -> usize {
    if selected > 0 {
        (selected - 1) as usize
    } else {
        3
    }
}

/// The command after `Down` among the four: the next one, or the first.
pub open spec fn cmd_down(selected: usize) -> usize {
    if selected < 3 {
        (selected + 1) as usize
    } else {
        0
    }
}

impl ConfigCmd {
    pub fn new(lang: Language) -> (r: Self)
        ensures
            r.state is Start,
            r.lang == lang,
            r.data is None,
            r.mode == InputMode::Normal,
            r.place == Place::Tab,
            r.kv_length == 0,
            r.kv_index == 0,
            r.value@ == Seq::<char>::empty(),
            r.cmd_selected == 0,
    {
        ConfigCmd {
            state: ComponentState::Start,
            lang,
            data: None,
            mode: InputMode::Normal,
            place: Place::Tab,
            kv_length: 0,
            kv_index: 0,
            value: String::new(),
            cmd_selected: 0,
        }
    }

    /// Whether a key reaches the edit field: in the pane, while editing.
    pub open spec fn editing(&self) -> bool {
        self.place == Place::Pane && self.mode == InputMode::Edit
    }

    /// Keys that the dialog can take in this state without a machine
    /// number running over or a missing file being looked into.
    pub open spec fn key_ok(&self, key: Key) -> bool {
        let chain_line_ok = self.data matches Some(d) && (d.current == Configs::ChainEnvToml
            ==> self.kv_index < d.chain_env@.len());
        match key {
            Key::Up => self.place == Place::Pane ==> {
                &&& (self.kv_index as isize) - 1 >= isize::MIN
                &&& (self.kv_index as isize) - 1 < 0 ==> self.kv_length >= 1
            },
            Key::Down => self.place == Place::Pane ==> {
                &&& self.kv_index + 1 <= usize::MAX
                &&& self.kv_length >= 1
            },
            Key::Char('i') => (self.mode == InputMode::Edit || self.place == Place::Pane)
                ==> chain_line_ok,
            Key::Esc => self.editing() ==> chain_line_ok,
            Key::Enter => self.place == Place::Select ==> {
                &&& self.cmd_selected < 4
                &&& (Command::option_at(self.cmd_selected as int) == Command::W || Command::option_at(self.cmd_selected as int) == Command::Wq) ==> self.data is Some
            },
            _ => true,
        }
    }

    /// Whether the dialog can take `key` now (see `key_ok`).
    pub fn accepts(&self, key: Key) -> (b: bool)
        ensures
            b == self.key_ok(key),
    {
        let chain_line_ok = match &self.data {
            Some(d) => match d.current {
                Configs::ChainEnvToml => self.kv_index < d.chain_env.len(),
                Configs::Env => true,
            },
            None => false,
        };
        match key {
            Key::Up => {
                if self.place.is_pane() {
                    let k: usize = self.kv_index;
                    #[verifier::truncate]
                    let signed: isize = k as isize;
                    signed > isize::MIN && (signed > 0 || self.kv_length >= 1)
                } else {
                    true
                }
            },
            Key::Down => !self.place.is_pane() || (self.kv_index < usize::MAX && self.kv_length >= 1),
            Key::Char('i') => !(self.mode.is_edit() || self.place.is_pane()) || chain_line_ok,
            Key::Esc => !(self.place.is_pane() && self.mode.is_edit()) || chain_line_ok,
            Key::Enter => {
                if self.place.is_select() {
                    self.cmd_selected < 4 && (self.cmd_selected == 0 || self.cmd_selected == 3
                        || self.data.is_some())
                } else {
                    true
                }
            },
            _ => true,
        }
    }

    /// The first step: once the files are loaded, the number of lines of
    /// `env.toml` is taken (when not known yet) and the dialog begins;
    /// returns whether it began, to log that the files were loaded.
    pub fn step(&mut self) -> (began: bool)
        ensures
            began == (old(self).state is Start),
            final(self).state == (if began {
                old(self).state.next_spec()
            } else {
                old(self).state
            }),
            final(self).kv_length == (if began && old(self).kv_length == 0 && old(self).data is Some {
                old(self).data->Some_0.chain_env@.len() as usize
            } else {
                old(self).kv_length
            }),
            final(self).place == old(self).place,
            final(self).mode == old(self).mode,
            final(self).kv_index == old(self).kv_index,
            final(self).cmd_selected == old(self).cmd_selected,
            final(self).data == old(self).data,
            final(self).value == old(self).value,
            final(self).lang == old(self).lang,
    {
        match self.state {
            ComponentState::Start => {
                if self.kv_length == 0 {
                    if let Some(data) = &self.data {
                        self.kv_length = data.chain_env.len();
                    }
                }
                self.state.next();
                true
            },
            _ => false,
        }
    }

    /// A key that is not a press goes to the edit field while editing.
    pub fn handle_other_event(&self) -> (forward: bool)
        ensures
            forward == self.editing(),
    {
        self.place.is_pane() && self.mode.is_edit()
    }

    /// `i`: in the pane, starts editing; while editing, loads the value
    /// that shows into the edit buffer (the path of `.env`, or the value of
    /// the entry under the cursor).
    fn key_i(&mut self)
        requires
            old(self).key_ok(Key::Char('i')),
        ensures
            final(self).mode == (if old(self).place == Place::Pane {
                InputMode::Edit
            } else {
                old(self).mode
            }),
            final(self).value@ == (if final(self).mode == InputMode::Edit {
                let d = old(self).data->Some_0;
                match d.current {
                    Configs::Env => d.env@,
                    Configs::ChainEnvToml => if d.chain_env@[old(self).kv_index as int].is_kv {
                        d.chain_env@[old(self).kv_index as int].value@
                    } else {
                        old(self).value@
                    },
                }
            } else {
                old(self).value@
            }),
            final(self).place == old(self).place,
            final(self).state == old(self).state,
            final(self).data == old(self).data,
            final(self).kv_index == old(self).kv_index,
            final(self).kv_length == old(self).kv_length,
            final(self).cmd_selected == old(self).cmd_selected,
    {
        if self.place.is_pane() && self.mode.is_normal() {
            self.mode = InputMode::Edit;
        }
        if self.mode.is_edit() {
            match &self.data {
                Some(data) => match data.current {
                    Configs::Env => {
                        self.value = data.env.clone();
                    },
                    Configs::ChainEnvToml => {
                        let line = &data.chain_env[self.kv_index];
                        if line.is_kv {
                            self.value = line.value.clone();
                        }
                    },
                },
                None => {},
            }
        }
    }

    /// What `Esc` in the pane does: while editing, editing stops and the
    /// typed text becomes the value that shows where it differs from it
    /// (`stored` holds it then); otherwise the cursor moves on to the
    /// commands.  The edit buffer is emptied either way.
    pub open spec fn esc_pane_spec(&self, typed: Seq<char>, after: Self, stored: Option<String>) -> bool {
        &&& self.mode == InputMode::Edit ==> {
            let d = self.data->Some_0;
            let nd = after.data->Some_0;
            let old_value = match d.current {
                Configs::Env => d.env@,
                Configs::ChainEnvToml => d.chain_env@[self.kv_index as int].value@,
            };
            &&& after.mode == InputMode::Normal
            &&& after.place == Place::Pane
            &&& after.data is Some
            &&& nd.current == d.current
            &&& (stored is Some <==> old_value != typed)
            &&& (stored matches Some(s) ==> s@ == typed)
            &&& nd.env@ == (if d.current == Configs::Env && stored is Some {
                typed
            } else {
                d.env@
            })
            &&& nd.chain_env@.len() == d.chain_env@.len()
            &&& forall|k: int|
                0 <= k < d.chain_env@.len() ==> {
                    &&& (#[trigger] nd.chain_env@[k]).key == d.chain_env@[k].key
                    &&& nd.chain_env@[k].is_kv == d.chain_env@[k].is_kv
                    &&& nd.chain_env@[k].value@ == (if d.current == Configs::ChainEnvToml
                        && stored is Some && k == self.kv_index {
                        typed
                    } else {
                        d.chain_env@[k].value@
                    })
                }
        }
        &&& self.mode == InputMode::Normal ==> {
            &&& after.mode == self.mode
            &&& after.place == Place::Select
            &&& after.data == self.data
            &&& stored is None
        }
        &&& after.value@ == Seq::<char>::empty()
        &&& after.state == self.state
        &&& after.kv_index == self.kv_index
        &&& after.kv_length == self.kv_length
        &&& after.cmd_selected == self.cmd_selected
    }

    /// `Esc` in the pane, as `esc_pane_spec` says.
    fn esc_pane(&mut self, typed: &str) -> (stored: Option<String>)
        requires
            old(self).place == Place::Pane,
            old(self).key_ok(Key::Esc),
        ensures
            old(self).esc_pane_spec(typed@, *final(self), stored),
    {
        let mut stored: Option<String> = None;
        if self.mode.is_edit() {
            self.mode = InputMode::Normal;
            let kv_index = self.kv_index;
            let new_value = typed.to_string();
            match &mut self.data {
                Some(data) => match data.current {
                    Configs::Env => {
                        if data.env != new_value {
                            data.env = new_value.clone();
                            stored = Some(new_value);
                        }
                    },
                    Configs::ChainEnvToml => {
                        let old_value = data.chain_env[kv_index].value.clone();
                        if old_value != new_value {
                            let line = ChainLine {
                                key: data.chain_env[kv_index].key.clone(),
                                value: new_value.clone(),
                                is_kv: data.chain_env[kv_index].is_kv,
                            };
                            data.chain_env.set(kv_index, line);
                            stored = Some(new_value);
                        }
                    },
                },
                None => {},
            }
        } else {
            self.place.next();
        }
        self.value = String::new();
        stored
    }

    /// Handles a pressed key, as the dialog's key map says: on the tabs,
    /// `Up`/`Down` switch files, `Left`/`Esc` go to the commands, `Right`
    /// to the pane, `q` quits; in the pane, `Up`/`Down` move between entries
    /// round the file, `i` edits, `Esc` ends editing (or goes on to the
    /// commands), `Left`/`Right` move between places when not editing, and
    /// while editing keys go to the edit field; on the commands,
    /// `Up`/`Down` move round the four commands and `Enter` runs one.
    pub fn handle_key(&mut self, key: Key, typed: &str) -> (a: ConfigAction)
        requires
            old(self).key_ok(key),
        ensures
            key == Key::Enter && old(self).place == Place::Select ==> {
                &&& old(self).cmd_selected == 0 ==> final(self).state is Quit && a == ConfigAction::Nothing
                &&& old(self).cmd_selected == 1 ==> final(self).state == old(self).state && a
                    == ConfigAction::Write { quit: false }
                &&& old(self).cmd_selected == 2 ==> final(self).state is Quit && a == ConfigAction::Write {
                    quit: true,
                }
                &&& old(self).cmd_selected == 3 ==> final(self).state == old(self).state && a
                    == ConfigAction::Nothing
            },
            final(self).place == (match (key, old(self).place) {
                (Key::Left, Place::Tab) => Place::Select,
                (Key::Left, Place::Pane) => if old(self).mode == InputMode::Normal {
                    Place::Tab
                } else {
                    Place::Pane
                },
                (Key::Left, Place::Select) => Place::Tab,
                (Key::Right, Place::Pane) => if old(self).mode == InputMode::Normal {
                    Place::Select
                } else {
                    Place::Pane
                },
                (Key::Right, p) => p.next_spec(),
                (Key::Esc, Place::Tab) => Place::Select,
                (Key::Esc, Place::Pane) => if old(self).mode == InputMode::Normal {
                    Place::Select
                } else {
                    Place::Pane
                },
                (_, p) => p,
            }),
            final(self).mode == (match key {
                Key::Char('i') => if old(self).place == Place::Pane {
                    InputMode::Edit
                } else {
                    old(self).mode
                },
                Key::Esc => if old(self).place == Place::Pane {
                    InputMode::Normal
                } else {
                    old(self).mode
                },
                _ => old(self).mode,
            }),
            final(self).kv_index == (match key {
                Key::Up => if old(self).place == Place::Pane {
                    kv_up(old(self).kv_index, old(self).kv_length)
                } else {
                    old(self).kv_index
                },
                Key::Down => if old(self).place == Place::Pane {
                    kv_down(old(self).kv_index, old(self).kv_length)
                } else {
                    old(self).kv_index
                },
                _ => old(self).kv_index,
            }),
            final(self).cmd_selected == (match key {
                Key::Up => if old(self).place == Place::Select {
                    cmd_up(old(self).cmd_selected)
                } else {
                    old(self).cmd_selected
                },
                Key::Down => if old(self).place == Place::Select {
                    cmd_down(old(self).cmd_selected)
                } else {
                    old(self).cmd_selected
                },
                _ => old(self).cmd_selected,
            }),
            final(self).state == (match key {
                Key::Char('q') => if old(self).place == Place::Pane {
                    old(self).state
                } else {
                    ComponentState::Quit
                },
                Key::Enter => if old(self).place == Place::Select && (Command::option_at(
                    old(self).cmd_selected as int,
                ) == Command::Q || Command::option_at(old(self).cmd_selected as int) == Command::Wq) {
                    ComponentState::Quit
                } else {
                    old(self).state
                },
                _ => old(self).state,
            }),
            !(key == Key::Esc && old(self).place == Place::Pane) ==> a == (match key {
                Key::Enter => if old(self).place == Place::Select {
                    match Command::option_at(old(self).cmd_selected as int) {
                        Command::W => ConfigAction::Write { quit: false },
                        Command::Wq => ConfigAction::Write { quit: true },
                        _ => ConfigAction::Nothing,
                    }
                } else if old(self).editing() {
                    ConfigAction::TextareaInput
                } else {
                    ConfigAction::Nothing
                },
                Key::Esc | Key::Up | Key::Down | Key::Char('i') => ConfigAction::Nothing,
                Key::Left | Key::Right => if old(self).editing() {
                    ConfigAction::TextareaInput
                } else {
                    ConfigAction::Nothing
                },
                _ => if old(self).editing() {
                    ConfigAction::TextareaInput
                } else {
                    ConfigAction::Nothing
                },
            }),
            key == Key::Esc && old(self).place == Place::Pane ==> (a matches ConfigAction::EditDone(
                stored,
            ) && old(self).esc_pane_spec(typed@, *final(self), stored)),
            (key == Key::Up || key == Key::Down) && old(self).place == Place::Tab && old(self).data is Some
                ==> final(self).data->Some_0.current != old(self).data->Some_0.current,
            !(key == Key::Esc && old(self).editing()) && !((key == Key::Up || key == Key::Down) && old(self).place == Place::Tab)
                ==> final(self).data == old(self).data,
            final(self).kv_length == old(self).kv_length,
    {
        match key {
            Key::Char('q') => match self.place {
                Place::Tab => {
                    self.state.quit();
                    ConfigAction::Nothing
                },
                Place::Pane => {
                    if self.mode.is_edit() {
                        ConfigAction::TextareaInput
                    } else {
                        ConfigAction::Nothing
                    }
                },
                Place::Select => {
                    self.state.quit();
                    ConfigAction::Nothing
                },
            },
            Key::Up => {
                match self.place {
                    Place::Tab => {
                        if let Some(data) = &mut self.data {
                            data.next();
                        }
                    },
                    Place::Pane => {
                        let k: usize = self.kv_index;
                        #[verifier::truncate]
                        let signed: isize = k as isize;
                        if signed - 1 < 0 {
                            self.kv_index = self.kv_length - 1;
                        } else {
                            assert((k as isize) - 1 >= 0 ==> k >= 1) by (bit_vector);
                            self.kv_index = k - 1;
                        }
                    },
                    Place::Select => {
                        if self.cmd_selected > 0 {
                            self.cmd_selected -= 1;
                        } else {
                            self.cmd_selected = 3;
                        }
                    },
                }
                ConfigAction::Nothing
            },
            Key::Down => {
                match self.place {
                    Place::Tab => {
                        if let Some(data) = &mut self.data {
                            data.next();
                        }
                    },
                    Place::Pane => {
                        if self.kv_index + 1 > self.kv_length - 1 {
                            self.kv_index = 0;
                        } else {
                            self.kv_index += 1;
                        }
                    },
                    Place::Select => {
                        if self.cmd_selected < 3 {
                            self.cmd_selected += 1;
                        } else {
                            self.cmd_selected = 0;
                        }
                    },
                }
                ConfigAction::Nothing
            },
            Key::Left => match self.place {
                Place::Tab => {
                    self.place = Place::Select;
                    ConfigAction::Nothing
                },
                Place::Pane => {
                    if self.mode.is_normal() {
                        self.place = Place::Tab;
                        ConfigAction::Nothing
                    } else {
                        ConfigAction::TextareaInput
                    }
                },
                Place::Select => {
                    self.place = Place::Tab;
                    ConfigAction::Nothing
                },
            },
            Key::Right => match self.place {
                Place::Tab | Place::Select => {
                    self.place.next();
                    ConfigAction::Nothing
                },
                Place::Pane => {
                    if self.mode.is_normal() {
                        self.place.next();
                        ConfigAction::Nothing
                    } else {
                        ConfigAction::TextareaInput
                    }
                },
            },
            Key::Char('i') => {
                self.key_i();
                ConfigAction::Nothing
            },
            Key::Esc => match self.place {
                Place::Tab => {
                    self.place = Place::Select;
                    ConfigAction::Nothing
                },
                Place::Pane => {
                    let stored = self.esc_pane(typed);
                    ConfigAction::EditDone(stored)
                },
                Place::Select => ConfigAction::Nothing,
            },
            Key::Enter => match self.place {
                Place::Tab => ConfigAction::Nothing,
                Place::Pane => {
                    if self.mode.is_edit() {
                        ConfigAction::TextareaInput
                    } else {
                        ConfigAction::Nothing
                    }
                },
                Place::Select => match Command::from_index(self.cmd_selected) {
                    Command::Q => {
                        self.state.quit();
                        ConfigAction::Nothing
                    },
                    Command::Wq => {
                        self.state.quit();
                        ConfigAction::Write { quit: true }
                    },
                    Command::W => ConfigAction::Write { quit: false },
                    Command::Back => ConfigAction::Nothing,
                },
            },
            _ => {
                if self.place.is_pane() && self.mode.is_edit() {
                    ConfigAction::TextareaInput
                } else {
                    ConfigAction::Nothing
                }
            },
        }
    }

    /// The rows of the area under the tabs: 2 on the tabs (a hint), 3 in
    /// the pane (the edit field), 5 on the commands.
    pub fn input_height(&self) -> (h: u16)
        ensures
            h == (match self.place {
                Place::Tab => 2u16,
                Place::Pane => 3u16,
                Place::Select => 5u16,
            }),
    {
        match self.place {
            Place::Tab => 2,
            Place::Pane => 3,
            Place::Select => 5,
        }
    }
}

/// The first line of a log of `lines` lines to show when `visible` lines
/// fit: the last ones show.
pub fn scroll_to_end(lines: u16, visible: u16) -> (y: u16)
    ensures
        y == (if lines > visible {
            (lines - visible) as u16
        } else {
            0u16
        }),
{
    if lines > visible {
        lines - visible
    } else {
        0
    }
}

} // verus!
