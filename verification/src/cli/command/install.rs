use vstd::prelude::*;

use crate::app::key::Key;
use crate::app::state::{ComponentState, State};
use crate::app::timeline::{duration_sum, TimelineState};
use crate::entry::{CheckItem, InstallTool, Language};
use std::time::Duration;

verus! {

/// The checks the install dialog runs before it offers the tools.
#[derive(Clone, Copy, Debug, PartialEq, Eq, Structural)]
pub enum CheckState {
    Rustc,
    Cargo,
    Git,
    Underlayer,
}

impl Default for CheckState {
    fn default() -> (r: Self)
        ensures
            r == CheckState::Rustc,
            r == Self::initial_spec(),
    {
        CheckState::Rustc
    }
}

impl State for CheckState {
    open spec fn initial_spec() -> Self {
        CheckState::Rustc
    }

    open spec fn next_spec(self) -> Self {
        match self {
            CheckState::Rustc => CheckState::Cargo,
            CheckState::Cargo => CheckState::Git,
            CheckState::Git => CheckState::Underlayer,
            CheckState::Underlayer => CheckState::Underlayer,
        }
    }

    open spec fn run_end_spec(self) -> bool {
        self == CheckState::Underlayer
    }

    open spec fn to_run_end_spec(self) -> Self {
        CheckState::Underlayer
    }

    open spec fn rank(self) -> nat {
        match self {
            CheckState::Rustc => 3,
            CheckState::Cargo => 2,
            CheckState::Git => 1,
            CheckState::Underlayer => 0,
        }
    }

    proof fn lemma_progress(s: Self) {
    }

    proof fn lemma_default_is_initial(r: Self) {
    }

    fn next(&mut self) {
        match *self {
            CheckState::Rustc => {
                *self = CheckState::Cargo;
            },
            CheckState::Cargo => {
                *self = CheckState::Git;
            },
            CheckState::Git => {
                *self = CheckState::Underlayer;
            },
            CheckState::Underlayer => {},
        }
    }

    fn is_run_end(&self) -> (b: bool) {
        matches!(self, CheckState::Underlayer)
    }

    fn to_run_end(&mut self) {
        *self = CheckState::Underlayer;
    }
}

/// The phases of the install dialog: the checks, then the choice of tools.
#[derive(Clone, Copy, Debug, PartialEq, Eq, Structural)]
pub enum InstallState {
    Check(CheckState),
    Select,
}

impl Default for InstallState {
    fn default() -> (r: Self)
        ensures
            r == InstallState::Check(CheckState::Rustc),
            r == Self::initial_spec(),
    {
        InstallState::Check(CheckState::Rustc)
    }
}

impl State for InstallState {
    open spec fn initial_spec() -> Self {
        InstallState::Check(CheckState::Rustc)
    }

    open spec fn next_spec(self) -> Self {
        match self {
            InstallState::Check(s) => if s.run_end_spec() {
                InstallState::Select
            } else {
                InstallState::Check(s.next_spec())
            },
            InstallState::Select => InstallState::Select,
        }
    }

    open spec fn run_end_spec(self) -> bool {
        self == InstallState::Select
    }

    open spec fn to_run_end_spec(self) -> Self {
        InstallState::Select
    }

    open spec fn rank(self) -> nat {
        match self {
            InstallState::Check(s) => s.rank() + 1,
            InstallState::Select => 0,
        }
    }

    proof fn lemma_progress(s: Self) {
        if let InstallState::Check(c) = s {
            CheckState::lemma_progress(c);
        }
    }

    proof fn lemma_default_is_initial(r: Self) {
    }

    fn next(&mut self) {
        match *self {
            InstallState::Check(state) => {
                if state.is_run_end() {
                    *self = InstallState::Select;
                } else {
                    let mut state = state;
                    state.next();
                    *self = InstallState::Check(state);
                }
            },
            InstallState::Select => {},
        }
    }

    fn is_run_end(&self) -> (b: bool) {
        matches!(self, InstallState::Select)
    }

    fn to_run_end(&mut self) {
        *self = InstallState::Select;
    }
}

/// The message that sums up the checks so far.
#[derive(Debug, Clone, PartialEq, Eq)]
pub enum InstallLogs {
    /// the last tool found ready, how many were found, out of how many
    Check { current: String, num: u8, total: u8 },
}

/// The progress of the checks: a bar that gains 20 for each tool found
/// ready, the tools found ready, and the state shown on the timeline.
pub struct Check {
    pub progress: u16,
    pub items: Vec<CheckItem>,
    pub state: TimelineState,
}

impl Check {
    pub fn new() -> (r: Self)
        ensures
            r.progress == 0,
            r.items@.len() == 0,
            r.state == TimelineState::UnStart,
    {
        Check { progress: 0, items: Vec::new(), state: TimelineState::UnStart }
    }

    /// The summary: the name of the last tool found ready (`-` when none
    /// is), how many were found (kept to 8 bits), out of 5.
    pub fn to_log(&self) -> (l: InstallLogs)
        ensures
            l matches InstallLogs::Check { current, num, total } && {
                &&& current@ == (if self.items@.len() == 0 {
                    "-"@
                } else {
                    self.items@.last().name@
                })
                &&& num == self.items@.len() as u8
                &&& total == 5
            },
    {
        let n = self.items.len();
        let current = if n == 0 {
            "-".to_string()
        } else {
            self.items[n - 1].name.clone()
        };
        #[verifier::truncate]
        let num = n as u8;
        InstallLogs::Check { current, num, total: 5 }
    }
}

/// The outcomes in `items` of tools found ready, in order.
pub open spec fn ready_items(items: Seq<CheckItem>) -> Seq<CheckItem>
    decreases items.len(),
{
    if items.len() == 0 {
        items
    } else if items.last().state {
        ready_items(items.drop_last()).push(items.last())
    } else {
        ready_items(items.drop_last())
    }
}

/// What the install dialog asks of its runner after a step.
#[derive(Debug, Clone, Copy, PartialEq, Eq, Structural)]
pub enum InstallTask {
    Nothing,
    /// show the description of the dialog
    Describe,
    /// run this check and hand its outcome to `finish_check`
    Check(CheckState),
}

/// `s` without any `x`, the others in order.
pub open spec fn without(s: Seq<usize>, x: usize) -> Seq<usize>
    decreases s.len(),
{
    if s.len() == 0 {
        s
    } else {
        let rest = without(s.drop_last(), x);
        if s.last() == x {
            rest
        } else {
            rest.push(s.last())
        }
    }
}

/// `s` with `x` taken out when it holds `x`, and put at the end when not.
pub open spec fn toggled(s: Seq<usize>, x: usize) -> Seq<usize> {
    if s.contains(x) {
        without(s, x)
    } else {
        s.push(x)
    }
}

/// What `without` keeps: every element but `x`.
pub proof fn lemma_without_contains(s: Seq<usize>, x: usize, y: usize)
    ensures
        without(s, x).contains(y) <==> (s.contains(y) && y != x),
    decreases s.len(),
{
    if s.len() > 0 {
        lemma_without_contains(s.drop_last(), x, y);
        let rest = without(s.drop_last(), x);
        if s.contains(y) && y != x {
            let k = choose|k: int| 0 <= k < s.len() && s[k] == y;
            if k < s.len() - 1 {
                assert(s.drop_last()[k] == y);
            }
        }
        if rest.push(s.last()).contains(y) {
            let k = choose|k: int| 0 <= k < rest.push(s.last()).len() && rest.push(s.last())[k] == y;
            if k < rest.len() {
                assert(rest[k] == y);
            }
        }
        if s.drop_last().contains(y) {
            let k = choose|k: int| 0 <= k < s.drop_last().len() && s.drop_last()[k] == y;
            assert(s[k] == y);
        }
        if rest.contains(y) {
            let k = choose|k: int| 0 <= k < rest.len() && rest[k] == y;
            assert(rest.push(s.last())[k] == y);
        }
        assert(rest.push(s.last())[rest.len() as int] == s.last());
    }
}

/// Without an element it does not hold, a sequence stays as it is.
pub proof fn lemma_without_absent(s: Seq<usize>, x: usize)
    requires
        !s.contains(x),
    ensures
        without(s, x) == s,
    decreases s.len(),
{
    if s.len() > 0 {
        if s.drop_last().contains(x) {
            let k = choose|k: int| 0 <= k < s.drop_last().len() && s.drop_last()[k] == x;
            assert(s[k] == x);
        }
        lemma_without_absent(s.drop_last(), x);
        assert(s.drop_last().push(s.last()) =~= s);
    }
}

/// Pressing space twice on the same tool leaves the same tools chosen, and
/// one press flips whether that tool is chosen and no other.
pub proof fn lemma_toggle_twice(s: Seq<usize>, x: usize)
    ensures
        toggled(s, x).contains(x) == !s.contains(x),
        forall|y: usize| y != x ==> (#[trigger] toggled(s, x).contains(y) == s.contains(y)),
        forall|y: usize| #[trigger] toggled(toggled(s, x), x).contains(y) == s.contains(y),
{
    lemma_without_contains(s, x, x);
    assert(s.push(x)[s.len() as int] == x);
    assert forall|y: usize| y != x implies (#[trigger] toggled(s, x).contains(y) == s.contains(y)) by {
        lemma_without_contains(s, x, y);
        if s.contains(y) {
            let k = choose|k: int| 0 <= k < s.len() && s[k] == y;
            assert(s.push(x)[k] == y);
        }
        if s.push(x).contains(y) {
            let k = choose|k: int| 0 <= k < s.push(x).len() && s.push(x)[k] == y;
            assert(s[k] == y);
        }
    }
    if s.contains(x) {
        let t = without(s, x);
        assert(!t.contains(x));
        assert(t.push(x)[t.len() as int] == x);
        assert forall|y: usize| #[trigger] toggled(toggled(s, x), x).contains(y) == s.contains(y) by {
            lemma_without_contains(s, x, y);
            if t.contains(y) {
                let k = choose|k: int| 0 <= k < t.len() && t[k] == y;
                assert(t.push(x)[k] == y);
            }
            if t.push(x).contains(y) && y != x {
                let k = choose|k: int| 0 <= k < t.push(x).len() && t.push(x)[k] == y;
                assert(t[k] == y);
            }
        }
    } else {
        lemma_without_absent(s, x);
        assert(s.push(x).drop_last() =~= s);
        assert(without(s.push(x), x) == without(s, x));
    }
}

/// A line of the install dialog's log: the outcome of checking one tool,
/// or the error of a check that could not run.
#[derive(Debug, Clone)]
pub enum InstallLog {
    Checked(CheckItem),
    Failed(String),
}

/// The log lines that a check's outcomes add, one per outcome, in order.
pub open spec fn checked_lines(items: Seq<CheckItem>) -> Seq<InstallLog> {
    items.map_values(|i: CheckItem| InstallLog::Checked(i))
}

/// # Install Command
/// 1. check the current state
/// 2. select the tools to install
/// 3. confirm the install options and quit the dialog (the install itself
///    runs afterwards, in the terminal)
pub struct InstallCmd {
    pub lang: Language,
    pub state: ComponentState<InstallState>,
    pub cost: Option<Duration>,
    pub check: Check,
    pub log: Vec<InstallLog>,
    pub selecteds: Vec<usize>,
    pub selected: usize,
}

impl InstallCmd {
    pub fn new(lang: Language) -> (r: Self)
        ensures
            r.lang == lang,
            r.state is Start,
            r.cost is None,
            r.check.progress == 0,
            r.check.items@.len() == 0,
            r.log@.len() == 0,
            r.selecteds@ == seq![0usize],
            r.selected == 0,
            r.wf(),
    {
        let mut selecteds: Vec<usize> = Vec::new();
        selecteds.push(0);
        InstallCmd {
            lang,
            state: ComponentState::Start,
            cost: None,
            check: Check::new(),
            log: Vec::new(),
            selecteds,
            selected: 0,
        }
    }

    /// The cursor and every chosen tool point into the list of tools.
    pub open spec fn wf(&self) -> bool {
        &&& self.selected < InstallTool::option_count_spec()
        &&& forall|i: int|
            0 <= i < self.selecteds@.len() ==> #[trigger] self.selecteds@[i]
                < InstallTool::option_count_spec()
    }

    /// One step of the dialog's work: a start shows the description and
    /// begins the checks; during the checks, the current one is asked for.
    pub fn step(&mut self) -> (t: InstallTask)
        ensures
            t == (match old(self).state {
                ComponentState::Start => InstallTask::Describe,
                ComponentState::Run(InstallState::Check(s)) => InstallTask::Check(s),
                _ => InstallTask::Nothing,
            }),
            final(self).state == (match old(self).state {
                ComponentState::Start => old(self).state.next_spec(),
                _ => old(self).state,
            }),
            final(self).check == old(self).check,
            final(self).log == old(self).log,
            final(self).selecteds == old(self).selecteds,
            final(self).selected == old(self).selected,
            final(self).lang == old(self).lang,
            final(self).cost == old(self).cost,
    {
        match self.state {
            ComponentState::Start => {
                self.state.next();
                InstallTask::Describe
            },
            ComponentState::Run(InstallState::Check(s)) => InstallTask::Check(s),
            _ => InstallTask::Nothing,
        }
    }

    /// Takes the outcome of the check `step`, which took `elapsed`: the time
    /// is added to the cost; each outcome is logged, and each tool found
    /// ready is kept and adds 20 to the progress; a check that could not run
    /// logs its error; after the last check the timeline shows success; the
    /// dialog moves on to the next phase.
    pub fn finish_check(&mut self, step: CheckState, outcome: Result<Vec<CheckItem>, String>, elapsed: Duration)
        requires
            old(self).state == ComponentState::<InstallState>::Run(InstallState::Check(step)),
            outcome matches Ok(items) ==> old(self).check.progress + 20 * items@.len() <= u16::MAX,
        ensures
            final(self).check.items@ == (match outcome {
                Ok(items) => old(self).check.items@ + ready_items(items@),
                Err(_) => old(self).check.items@,
            }),
            final(self).check.progress == old(self).check.progress + 20 * (final(self).check.items@.len() - old(self).check.items@.len()),
            old(self).check.progress == 20 * old(self).check.items@.len() ==> final(self).check.progress
                == 20 * final(self).check.items@.len(),
            final(self).log@ == (match outcome {
                Ok(items) => old(self).log@ + checked_lines(items@),
                Err(e) => old(self).log@.push(InstallLog::Failed(e)),
            }),
            old(self).cost is None ==> final(self).cost == Some(elapsed),
            final(self).cost is Some,
            final(self).check.state == (if step.run_end_spec() {
                TimelineState::Success
            } else {
                old(self).check.state
            }),
            final(self).state == old(self).state.next_spec(),
            final(self).selecteds == old(self).selecteds,
            final(self).selected == old(self).selected,
            final(self).lang == old(self).lang,
    {
        self.cost = match self.cost {
            Some(c) => Some(duration_sum(c, elapsed)),
            None => Some(elapsed),
        };
        match outcome {
            Ok(items) => {
                let ghost all = items@;
                let ghost before = self.check.items@;
                let ghost log0 = self.log@;
                let ghost p0 = self.check.progress;
                let mut rest = items;
                let mut i: usize = 0;
                while rest.len() > 0
                    invariant
                        i <= all.len(),
                        rest@ == all.skip(i as int),
                        self.check.items@ == before + ready_items(all.take(i as int)),
                        self.log@ == log0 + checked_lines(all.take(i as int)),
                        self.check.progress == p0 + 20 * (self.check.items@.len() - before.len()),
                        self.check.items@.len() - before.len() <= i,
                        p0 + 20 * all.len() <= u16::MAX,
                        self.state == old(self).state,
                        self.selecteds == old(self).selecteds,
                        self.selected == old(self).selected,
                        self.lang == old(self).lang,
                        self.cost is Some,
                        old(self).cost is None ==> self.cost == Some(elapsed),
                        self.check.state == old(self).check.state,
                        old(self).check.items@ == before,
                        old(self).log@ == log0,
                        old(self).check.progress == p0,
                    decreases rest.len(),
                {
                    proof {
                        assert(all.take(i + 1).drop_last() =~= all.take(i as int));
                        assert(all.skip(i as int)[0] == all[i as int]);
                        assert(all.take(i + 1).last() == all[i as int]);
                    }
                    let item = rest.remove(0);
                    proof {
                        assert(rest@ =~= all.skip(i + 1));
                    }
                    if item.state {
                        self.check.items.push(item.duplicate());
                        self.check.progress = self.check.progress + 20;
                    }
                    self.log.push(InstallLog::Checked(item));
                    i = i + 1;
                    proof {
                        assert(self.check.items@ =~= before + ready_items(all.take(i as int)));
                        assert(checked_lines(all.take(i as int)) =~= checked_lines(all.take(i - 1)).push(
                            InstallLog::Checked(all[i - 1]),
                        ));
                        assert(self.log@ =~= log0 + checked_lines(all.take(i as int)));
                    }
                }
                assert(all.take(all.len() as int) =~= all);
            },
            Err(e) => {
                self.log.push(InstallLog::Failed(e));
            },
        }
        if step.is_run_end() {
            self.check.state = TimelineState::Success;
        }
        self.state.next();
    }

    /// Handles a pressed key: `q` drops every choice and quits; `Up` and
    /// `Down` move the cursor within the list (without wrapping); space
    /// chooses the tool under the cursor or drops it; `Enter` confirms and quits.
    pub fn handle_key(&mut self, key: Key)
        requires
            old(self).wf(),
        ensures
            final(self).wf(),
            final(self).selecteds@ == (match key {
                Key::Char('q') => Seq::<usize>::empty(),
                Key::Char(' ') => toggled(old(self).selecteds@, old(self).selected),
                _ => old(self).selecteds@,
            }),
            final(self).selected == (match key {
                Key::Up => if old(self).selected > 0 {
                    (old(self).selected - 1) as usize
                } else {
                    old(self).selected
                },
                Key::Down => if old(self).selected + 1 < InstallTool::option_count_spec() {
                    (old(self).selected + 1) as usize
                } else {
                    old(self).selected
                },
                _ => old(self).selected,
            }),
            final(self).state == (match key {
                Key::Char('q') => ComponentState::Quit,
                Key::Enter => ComponentState::Quit,
                _ => old(self).state,
            }),
            final(self).check == old(self).check,
    {
        match key {
            Key::Char('q') => {
                self.selecteds.clear();
                self.state.quit();
            },
            Key::Up => {
                if self.selected > 0 {
                    self.selected -= 1;
                }
            },
            Key::Down => {
                if self.selected < InstallTool::option_count() - 1 {
                    self.selected += 1;
                }
            },
            Key::Char(' ') => {
                self.toggle_selected();
            },
            Key::Enter => {
                self.state.quit();
            },
            _ => {},
        }
    }

    fn toggle_selected(&mut self)
        requires
            old(self).wf(),
        ensures
            final(self).wf(),
            final(self).selecteds@ == toggled(old(self).selecteds@, old(self).selected),
            final(self).selected == old(self).selected,
            final(self).state == old(self).state,
            final(self).check == old(self).check,
    {
        let x = self.selected;
        let mut found = false;
        let mut i: usize = 0;
        while i < self.selecteds.len()
            invariant
                i <= self.selecteds.len(),
                found == self.selecteds@.take(i as int).contains(x),
            decreases self.selecteds.len() - i,
        {
            proof {
                let t = self.selecteds@.take(i + 1);
                assert(t.drop_last() =~= self.selecteds@.take(i as int));
                if t.contains(x) {
                    let k = choose|k: int| 0 <= k < t.len() && t[k] == x;
                    if k < i {
                        assert(self.selecteds@.take(i as int)[k] == x);
                    }
                }
                if self.selecteds@.take(i as int).contains(x) {
                    let k = choose|k: int| 0 <= k < i && self.selecteds@.take(i as int)[k] == x;
                    assert(t[k] == x);
                }
                assert(t[i as int] == self.selecteds@[i as int]);
            }
            if self.selecteds[i] == x {
                found = true;
            }
            i = i + 1;
        }
        assert(self.selecteds@.take(self.selecteds@.len() as int) =~= self.selecteds@);
        if found {
            let ghost s = self.selecteds@;
            let mut kept: Vec<usize> = Vec::new();
            let mut j: usize = 0;
            while j < self.selecteds.len()
                invariant
                    self.selecteds@ == s,
                    j <= s.len(),
                    kept@ == without(s.take(j as int), x),
                    forall|k: int| 0 <= k < kept@.len() ==> #[trigger] kept@[k] < InstallTool::option_count_spec(),
                    forall|k: int| 0 <= k < s.len() ==> #[trigger] s[k] < InstallTool::option_count_spec(),
                decreases s.len() - j,
            {
                proof {
                    assert(s.take(j + 1).drop_last() =~= s.take(j as int));
                }
                if self.selecteds[j] != x {
                    kept.push(self.selecteds[j]);
                }
                j = j + 1;
            }
            assert(s.take(s.len() as int) =~= s);
            self.selecteds = kept;
        } else {
            self.selecteds.push(x);
        }
    }

    /// The tools chosen, in the order they were chosen: choosing the first,
    /// second or third entry of the list installs Rust, Git or Makepad, and
    /// two choices give the same tool only where they chose the same entry.
    pub fn handle_result(&self) -> (r: Vec<InstallTool>)
        requires
            self.wf(),
        ensures
            r@.len() == self.selecteds@.len(),
            forall|i: int|
                0 <= i < r@.len() ==> #[trigger] r@[i] == InstallTool::option_at(
                    self.selecteds@[i] as int,
                ),
            forall|i: int|
                0 <= i < r@.len() ==> (self.selecteds@[i] == 0 <==> #[trigger] r@[i] == InstallTool::Rust)
                    && (self.selecteds@[i] == 1 <==> r@[i] == InstallTool::Git)
                    && (self.selecteds@[i] == 2 <==> r@[i] == InstallTool::Makepad),
            forall|i: int, j: int|
                0 <= i < r@.len() && 0 <= j < r@.len() ==> (#[trigger] r@[i] == #[trigger] r@[j]
                    <==> self.selecteds@[i] == self.selecteds@[j]),
    {
        let mut r: Vec<InstallTool> = Vec::new();
        let mut i: usize = 0;
        while i < self.selecteds.len()
            invariant
                self.wf(),
                i <= self.selecteds.len(),
                r@.len() == i,
                forall|k: int|
                    0 <= k < i ==> #[trigger] r@[k] == InstallTool::option_at(
                        self.selecteds@[k] as int,
                    ),
            decreases self.selecteds.len() - i,
        {
            r.push(InstallTool::from_index(self.selecteds[i]));
            i = i + 1;
        }
        proof {
            crate::entry::lemma_install_tools_listed();
            assert forall|i: int| 0 <= i < r@.len() implies (self.selecteds@[i] == 0 <==> #[trigger] r@[i]
                == InstallTool::Rust) && (self.selecteds@[i] == 1 <==> r@[i] == InstallTool::Git) && (
            self.selecteds@[i] == 2 <==> r@[i] == InstallTool::Makepad) by {
                assert(self.selecteds@[i] < 3);
                assert(InstallTool::option_at(self.selecteds@[i] as int) == r@[i]);
            }
            assert forall|i: int, j: int|
                0 <= i < r@.len() && 0 <= j < r@.len() implies (#[trigger] r@[i] == #[trigger] r@[j]
                <==> self.selecteds@[i] == self.selecteds@[j]) by {
                assert(self.selecteds@[i] < 3);
                assert(self.selecteds@[j] < 3);
                assert(InstallTool::option_at(self.selecteds@[i] as int) == r@[i]);
                assert(InstallTool::option_at(self.selecteds@[j] as int) == r@[j]);
            }
        }
        r
    }
}

} // verus!
