use vstd::prelude::*;

use super::key::Key;
use super::state::{BaseRunState, ComponentState};
use super::text::{display_width, lemma_line_width_prefix, line_width, line_width_of, span_width};
use super::unicode;
use crate::entry::Language;

verus! {

broadcast use vstd::string::group_string_axioms;

/// Why a component stopped before its user confirmed anything.
#[derive(Debug, Clone, Copy, PartialEq, Eq, Structural)]
pub enum ComponentExit {
    /// the user pressed `Esc` or `q`
    AppExit,
}

/// The hint shown under a selection list.
pub open spec fn select_help_spec(lang: Language) -> Seq<char> {
    match lang {
        Language::En => "Up/Down: choose, Enter: confirm, Esc/q: quit"@,
        Language::Zh => "上/下: 选择, Enter: 确认, Esc/q: 退出"@,
    }
}

/// `[ ` + the hint + ` ]`, as the list shows it.
pub open spec fn help_line_spec(lang: Language) -> Seq<char> {
    "[ "@ + select_help_spec(lang) + " ]"@
}

pub fn help_line(lang: Language) -> (s: String)
    ensures
        s@ == help_line_spec(lang),
{
    let mut s = "[ ".to_string();
    match lang {
        Language::En => s.append("Up/Down: choose, Enter: confirm, Esc/q: quit"),
        Language::Zh => s.append("上/下: 选择, Enter: 确认, Esc/q: 退出"),
    }
    s.append(" ]");
    s
}

/// The rows a line of width `w1` takes in a column of width `w2`.
pub open spec fn rows_for(w1: u16, w2: u16) -> int {
    if w1 > w2 {
        w1 / w2 + 1
    } else {
        1
    }
}

fn rows(w1: u16, w2: u16) -> (r: u16)
    requires
        w1 > w2 ==> w2 > 0,
        rows_for(w1, w2) <= u16::MAX,
    ensures
        r == rows_for(w1, w2),
{
    if w1 > w2 {
        w1 / w2 + 1
    } else {
        1
    }
}

/// The width of an optional one-line placeholder.
pub open spec fn placeholder_width(placeholder: Option<String>) -> nat {
    match placeholder {
        Some(p) => display_width(p@),
        None => 0,
    }
}

/// Whether a list with this title, placeholder and hint can be measured in
/// a column `w` wide without a machine number running over: widths are cut
/// to 16 bits as the terminal library takes them, and the sums must fit.
pub open spec fn prompt_height_ok(
    options: nat,
    title: Seq<String>,
    placeholder: Option<String>,
    help: Seq<char>,
    w: u16,
) -> bool {
    let title_w = (line_width(title) as u16) as int + (placeholder_width(placeholder) as u16) as int;
    let help_w = (display_width(help) as u16) as int;
    &&& line_width(title) <= usize::MAX
    &&& title_w <= u16::MAX
    &&& (title_w > w ==> w > 0)
    &&& (help_w > w ==> w > 0)
    &&& (options as u16) as int + rows_for(title_w as u16, w) + rows_for(help_w as u16, w) <= u16::MAX
}

/// The rows a list takes: one per option, plus the rows of the title line
/// (title and placeholder) and of the hint line in a column `w` wide.
pub open spec fn prompt_height(
    options: nat,
    title: Seq<String>,
    placeholder: Option<String>,
    help: Seq<char>,
    w: u16,
) -> int {
    let title_w = (line_width(title) as u16) as int + (placeholder_width(placeholder) as u16) as int;
    let help_w = (display_width(help) as u16) as int;
    (options as u16) as int + rows_for(title_w as u16, w) + rows_for(help_w as u16, w)
}

fn measure_prompt(
    options: usize,
    title: &Vec<String>,
    placeholder: &Option<String>,
    help: &String,
    w: u16,
) -> (h: u16)
    requires
        prompt_height_ok(options as nat, title@, *placeholder, help@, w),
    ensures
        h == prompt_height(options as nat, title@, *placeholder, help@, w),
{
    #[verifier::truncate]
    let mut height: u16 = options as u16;
    let placeholder_w: u16 = match placeholder {
        Some(p) => {
            let pw = span_width(p.as_str());
            #[verifier::truncate]
            let pw16 = pw as u16;
            pw16
        },
        None => 0,
    };
    let tw = line_width_of(title);
    #[verifier::truncate]
    let tw16 = tw as u16;
    let hw = span_width(help.as_str());
    #[verifier::truncate]
    let hw16 = hw as u16;
    height = height + rows(tw16 + placeholder_w, w);
    height = height + rows(hw16, w);
    height
}

/// The width of a line of spans, where it fits a `usize`.
fn line_width_checked(spans: &Vec<String>) -> (r: Option<usize>)
    ensures
        r is Some <==> line_width(spans@) <= usize::MAX,
        r matches Some(w) ==> w == line_width(spans@),
{
    let mut total: usize = 0;
    let mut i: usize = 0;
    while i < spans.len()
        invariant
            i <= spans.len(),
            total == line_width(spans@.take(i as int)),
        decreases spans.len() - i,
    {
        proof {
            assert(spans@.take(i + 1).drop_last() =~= spans@.take(i as int));
        }
        let w = span_width(spans[i].as_str());
        match total.checked_add(w) {
            Some(t) => {
                total = t;
            },
            None => {
                proof {
                    lemma_line_width_prefix(spans@, i + 1);
                }
                return None;
            },
        }
        i = i + 1;
    }
    assert(spans@.take(spans@.len() as int) =~= spans@);
    Some(total)
}

/// The rows a list takes (see `prompt_height`), where it can be measured
/// (see `prompt_height_ok`); `None` where it cannot.
fn measure_prompt_checked(
    options: usize,
    title: &Vec<String>,
    placeholder: &Option<String>,
    help: &String,
    w: u16,
) -> (h: Option<u16>)
    ensures
        h is Some <==> prompt_height_ok(options as nat, title@, *placeholder, help@, w),
        h matches Some(v) ==> v == prompt_height(options as nat, title@, *placeholder, help@, w),
{
    let tw = match line_width_checked(title) {
        Some(tw) => tw,
        None => {
            return None;
        },
    };
    #[verifier::truncate]
    let tw16 = tw as u16;
    let placeholder_w: u16 = match placeholder {
        Some(p) => {
            let pw = span_width(p.as_str());
            #[verifier::truncate]
            let pw16 = pw as u16;
            pw16
        },
        None => 0,
    };
    let hw = span_width(help.as_str());
    #[verifier::truncate]
    let hw16 = hw as u16;
    let title_w: u32 = tw16 as u32 + placeholder_w as u32;
    if title_w > 65535 {
        return None;
    }
    if (title_w > w as u32 && w == 0) || (hw16 > w && w == 0) {
        return None;
    }
    let title_rows: u32 = if title_w > w as u32 {
        title_w / (w as u32) + 1
    } else {
        1
    };
    let help_rows: u32 = if hw16 > w {
        hw16 as u32 / (w as u32) + 1
    } else {
        1
    };
    #[verifier::truncate]
    let options16 = options as u16;
    let total: u32 = options16 as u32 + title_rows + help_rows;
    if total > 65535 {
        return None;
    }
    Some(measure_prompt(options, title, placeholder, help, w))
}

/// The selection after `Down` in a list of `len` options: the next one,
/// or the first after the last.
pub open spec fn select_down(selected: usize, len: usize) -> usize {
    if selected < len - 1 {
        (selected + 1) as usize
    } else {
        0
    }
}

/// The selection after `Up`: the one before, or the last before the first.
pub open spec fn select_up(selected: usize, len: usize) -> usize {
    if selected > 0 {
        (selected - 1) as usize
    } else {
        (len - 1) as usize
    }
}

/// # Select
/// single select component for terminal
/// ## UI
/// ```
/// ? ${title} [${placeholder}]
///   » ${options}
///        ...
/// [${help_msg}]
/// ```
pub struct Select {
    pub options: Vec<String>,
    pub selected: usize,
    pub placeholder: Option<String>,
    /// the spans of the title line: icon, a space, the title
    pub title: Vec<String>,
    pub help_msg: String,
    pub lang: Language,
    pub state: ComponentState<BaseRunState>,
}

impl Default for Select {
    fn default() -> (r: Self)
        ensures
            r.options@.len() == 0,
            r.selected == 0,
            r.placeholder is None,
            r.title@.len() == 0,
            r.help_msg@ == help_line_spec(Language::En),
            r.lang == Language::En,
            r.state is Start,
    {
        Select {
            options: Vec::new(),
            selected: 0,
            placeholder: None,
            title: Vec::new(),
            help_msg: help_line(Language::En),
            lang: Language::En,
            state: ComponentState::Start,
        }
    }
}

/// A copy of each option.
fn copy_options(options: &Vec<String>) -> (r: Vec<String>)
    ensures
        r@ == options@,
{
    let mut r: Vec<String> = Vec::new();
    let mut i: usize = 0;
    while i < options.len()
        invariant
            i <= options.len(),
            r@ == options@.take(i as int),
        decreases options.len() - i,
    {
        r.push(options[i].clone());
        i = i + 1;
        assert(r@ =~= options@.take(i as int));
    }
    assert(options@.take(options@.len() as int) =~= options@);
    r
}

/// The icon of a title line: the one given, or `?`.
pub open spec fn icon_text(icon: Option<&str>) -> Seq<char> {
    match icon {
        Some(i) => i@,
        None => "?"@,
    }
}

fn make_title(title: &str, icon: Option<&str>) -> (r: Vec<String>)
    ensures
        r@.len() == 3,
        r@[0]@ == icon_text(icon),
        r@[1]@ == " "@,
        r@[2]@ == title@,
{
    let icon_s = match icon {
        Some(i) => i.to_string(),
        None => "?".to_string(),
    };
    let mut r: Vec<String> = Vec::new();
    r.push(icon_s);
    r.push(" ".to_string());
    r.push(title.to_string());
    r
}

impl Select {
    /// A list titled `title` (after `icon`, or `?`), offering a copy of
    /// `options`, with the first one selected and the hint in `lang`.
    pub fn new_with_options(title: &str, lang: Language, options: &Vec<String>, icon: Option<&str>) -> (r: Self)
        ensures
            r.options@ == options@,
            r.selected == 0,
            r.placeholder is None,
            r.title@.len() == 3,
            r.title@[0]@ == icon_text(icon),
            r.title@[1]@ == " "@,
            r.title@[2]@ == title@,
            r.help_msg@ == help_line_spec(lang),
            r.lang == lang,
            r.state is Start,
    {
        Select {
            options: copy_options(options),
            selected: 0,
            placeholder: None,
            title: make_title(title, icon),
            help_msg: help_line(lang),
            lang,
            state: ComponentState::Start,
        }
    }

    /// The list that a component starts with: empty, in `lang`.
    pub fn new(lang: Language) -> (r: Self)
        ensures
            r.options@.len() == 0,
            r.selected == 0,
            r.placeholder is None,
            r.title@.len() == 0,
            r.help_msg@ == help_line_spec(Language::En),
            r.lang == lang,
            r.state is Start,
    {
        let mut s = Self::default();
        s.lang = lang;
        s
    }

    pub fn placeholder(self, placeholder: String) -> (r: Self)
        ensures
            r.placeholder == Some(placeholder),
            r.options == self.options,
            r.selected == self.selected,
            r.title == self.title,
            r.help_msg == self.help_msg,
            r.lang == self.lang,
    {
        let mut s = self;
        s.placeholder = Some(placeholder);
        s
    }

    pub fn selected(self, selected: usize) -> (r: Self)
        ensures
            r.selected == selected,
            r.options == self.options,
            r.placeholder == self.placeholder,
            r.title == self.title,
            r.help_msg == self.help_msg,
            r.lang == self.lang,
    {
        let mut s = self;
        s.selected = selected;
        s
    }

    pub fn help_msg(self, help_msg: String) -> (r: Self)
        ensures
            r.help_msg == help_msg,
            r.options == self.options,
            r.selected == self.selected,
            r.placeholder == self.placeholder,
            r.title == self.title,
            r.lang == self.lang,
    {
        let mut s = self;
        s.help_msg = help_msg;
        s
    }

    /// The rows the list takes in a column `w` wide (see `prompt_height`).
    pub fn height(&self, w: u16) -> (h: u16)
        requires
            prompt_height_ok(self.options@.len(), self.title@, self.placeholder, self.help_msg@, w),
        ensures
            h == prompt_height(self.options@.len(), self.title@, self.placeholder, self.help_msg@, w),
    {
        measure_prompt(self.options.len(), &self.title, &self.placeholder, &self.help_msg, w)
    }

    /// `height` where the list can be measured in a column `w` wide;
    /// `None` where it cannot (a machine number would run over).
    pub fn try_height(&self, w: u16) -> (h: Option<u16>)
        ensures
            h is Some <==> prompt_height_ok(self.options@.len(), self.title@, self.placeholder, self.help_msg@, w),
            h matches Some(v) ==> v == prompt_height(self.options@.len(), self.title@, self.placeholder, self.help_msg@, w),
    {
        measure_prompt_checked(self.options.len(), &self.title, &self.placeholder, &self.help_msg, w)
    }

    /// Handles a pressed key: `Esc` or `q` leave with `AppExit`, `Down` and
    /// `Up` move the selection round the list, `Enter` confirms and quits.
    pub fn handle_key(&mut self, key: Key) -> (r: Result<(), ComponentExit>)
        requires
            key == Key::Down ==> old(self).options@.len() > 0,
            key == Key::Up && old(self).selected == 0 ==> old(self).options@.len() > 0,
        ensures
            (key == Key::Esc || key == Key::Char('q')) <==> r is Err,
            final(self).selected == (match key {
                Key::Down => select_down(old(self).selected, old(self).options@.len() as usize),
                Key::Up => select_up(old(self).selected, old(self).options@.len() as usize),
                _ => old(self).selected,
            }),
            final(self).state == (if key == Key::Enter {
                ComponentState::Quit
            } else {
                old(self).state
            }),
            final(self).options == old(self).options,
            final(self).title == old(self).title,
            final(self).placeholder == old(self).placeholder,
            final(self).help_msg == old(self).help_msg,
            final(self).lang == old(self).lang,
    {
        match key {
            Key::Esc | Key::Char('q') => {
                return Err(ComponentExit::AppExit);
            },
            Key::Down => {
                if self.selected < self.options.len() - 1 {
                    self.selected += 1;
                } else {
                    self.selected = 0;
                }
            },
            Key::Up => {
                if self.selected > 0 {
                    self.selected -= 1;
                } else {
                    self.selected = self.options.len() - 1;
                }
            },
            Key::Enter => {
                self.quit();
            },
            _ => {},
        }
        Ok(())
    }

    pub fn quit(&mut self)
        ensures
            final(self).state is Quit,
            final(self).selected == old(self).selected,
            final(self).options == old(self).options,
            final(self).title == old(self).title,
            final(self).placeholder == old(self).placeholder,
            final(self).help_msg == old(self).help_msg,
            final(self).lang == old(self).lang,
    {
        self.state.quit();
    }
}

/// In a list of `len` options, `Up` after `Down` and `Down` after `Up` both
/// come back to the option one started from, and neither leaves the list.
pub proof fn lemma_select_wraps(selected: usize, len: usize)
    requires
        selected < len,
    ensures
        select_down(selected, len) < len,
        select_up(selected, len) < len,
        select_up(select_down(selected, len), len) == selected,
        select_down(select_up(selected, len), len) == selected,
{
}

/// A yes/no question: a list of the options `Yes` and `No` under a warning sign.
pub struct Confirm(pub Select);

impl Confirm {
    pub fn new(title: &str, lang: Language) -> (r: Self)
        ensures
            r.0.options@.len() == 2,
            r.0.options@[0]@ == "Yes"@,
            r.0.options@[1]@ == "No"@,
            r.0.selected == 0,
            r.0.title@.len() == 3,
            r.0.title@[0]@ == unicode::WARNING@,
            r.0.title@[2]@ == title@,
            r.0.help_msg@ == help_line_spec(lang),
            r.0.lang == lang,
    {
        let mut options: Vec<String> = Vec::new();
        options.push("Yes".to_string());
        options.push("No".to_string());
        Confirm(Select::new_with_options(title, lang, &options, Some(unicode::WARNING)))
    }
}

/// # Multi Select
/// multiple select component for terminal
/// ## UI
/// ```
/// ? ${title} [${placeholder}]
///   » [ ] ${options}
///        ...
/// [${help_msg}]
/// ```
pub struct MultiSelect {
    pub options: Vec<String>,
    pub selected: Vec<usize>,
    pub placeholder: Option<String>,
    /// the spans of the title line: icon, a space, the title
    pub title: Vec<String>,
    pub help_msg: String,
    pub lang: Language,
    pub state: ComponentState<BaseRunState>,
}

impl Default for MultiSelect {
    fn default() -> (r: Self)
        ensures
            r.options@.len() == 0,
            r.selected@.len() == 0,
            r.placeholder is None,
            r.title@.len() == 0,
            r.help_msg@ == help_line_spec(Language::En),
            r.lang == Language::En,
            r.state is Start,
    {
        MultiSelect {
            options: Vec::new(),
            selected: Vec::new(),
            placeholder: None,
            title: Vec::new(),
            help_msg: help_line(Language::En),
            lang: Language::En,
            state: ComponentState::Start,
        }
    }
}

impl MultiSelect {
    /// A list titled `title` (after `icon`, or `?`), offering a copy of
    /// `options`, with the first one ticked and the hint in `lang`.
    pub fn new(title: String, lang: Language, options: &Vec<String>, icon: Option<&str>) -> (r: Self)
        ensures
            r.options@ == options@,
            r.selected@ == seq![0usize],
            r.placeholder is None,
            r.title@.len() == 3,
            r.title@[0]@ == icon_text(icon),
            r.title@[1]@ == " "@,
            r.title@[2]@ == title@,
            r.help_msg@ == help_line_spec(lang),
            r.lang == lang,
            r.state is Start,
    {
        let mut selected: Vec<usize> = Vec::new();
        selected.push(0);
        MultiSelect {
            options: copy_options(options),
            selected,
            placeholder: None,
            title: make_title(title.as_str(), icon),
            help_msg: help_line(lang),
            lang,
            state: ComponentState::Start,
        }
    }

    pub fn placeholder(self, placeholder: String) -> (r: Self)
        ensures
            r.placeholder == Some(placeholder),
            r.options == self.options,
            r.selected == self.selected,
            r.title == self.title,
            r.help_msg == self.help_msg,
            r.lang == self.lang,
    {
        let mut s = self;
        s.placeholder = Some(placeholder);
        s
    }

    pub fn selected(self, selected: Vec<usize>) -> (r: Self)
        ensures
            r.selected == selected,
            r.options == self.options,
            r.placeholder == self.placeholder,
            r.title == self.title,
            r.help_msg == self.help_msg,
            r.lang == self.lang,
    {
        let mut s = self;
        s.selected = selected;
        s
    }

    pub fn help_msg(self, help_msg: String) -> (r: Self)
        ensures
            r.help_msg == help_msg,
            r.options == self.options,
            r.selected == self.selected,
            r.placeholder == self.placeholder,
            r.title == self.title,
            r.lang == self.lang,
    {
        let mut s = self;
        s.help_msg = help_msg;
        s
    }

    /// The rows the list takes in a column `w` wide (see `prompt_height`).
    pub fn height(&self, w: u16) -> (h: u16)
        requires
            prompt_height_ok(self.options@.len(), self.title@, self.placeholder, self.help_msg@, w),
        ensures
            h == prompt_height(self.options@.len(), self.title@, self.placeholder, self.help_msg@, w),
    {
        measure_prompt(self.options.len(), &self.title, &self.placeholder, &self.help_msg, w)
    }

    /// `height` where the list can be measured in a column `w` wide;
    /// `None` where it cannot (a machine number would run over).
    pub fn try_height(&self, w: u16) -> (h: Option<u16>)
        ensures
            h is Some <==> prompt_height_ok(self.options@.len(), self.title@, self.placeholder, self.help_msg@, w),
            h matches Some(v) ==> v == prompt_height(self.options@.len(), self.title@, self.placeholder, self.help_msg@, w),
    {
        measure_prompt_checked(self.options.len(), &self.title, &self.placeholder, &self.help_msg, w)
    }
}

} // verus!
