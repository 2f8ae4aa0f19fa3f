//! A step of a longer task, drawn as a box: its state and name, an optional
//! description, a progress bar and the time it took.
use std::time::Duration;
use vstd::prelude::*;

use crate::entry::Language;

verus! {

/// How far the step a timeline shows has come.
#[derive(Debug, Clone, Copy, PartialEq, Eq, Structural)]
pub enum TimelineState {
    UnStart,
    Running,
    Success,
    Failed,
}

impl Default for TimelineState {
    fn default() -> (r: Self)
        ensures
            r == TimelineState::UnStart,
    {
        TimelineState::UnStart
    }
}

impl TimelineState {
    pub fn is_success(&self) -> (b: bool)
        ensures
            b == (*self == TimelineState::Success),
    {
        matches!(self, TimelineState::Success)
    }
}

/// A duration of zero (`Duration::default`).  Nothing is claimed of it:
/// a `Duration` is opaque to these specifications.
#[verifier::external_body]
pub(crate) fn zero_duration() -> Duration {
    Duration::default()
}

/// The sum of two durations (`Duration::saturating_add`, which gives the
/// largest duration where the sum would not fit).  Nothing is claimed of
/// the result: a `Duration` is opaque to these specifications.
#[verifier::external_body]
pub(crate) fn duration_sum(a: Duration, b: Duration) -> Duration {
    a.saturating_add(b)
}

/// How much room a row or column of a box gets.
#[derive(Debug, Clone, Copy, PartialEq, Eq, Structural)]
pub enum Size {
    /// exactly this many cells
    Length(u16),
    /// this share of what is there, in percent
    Percentage(u16),
}

/// The rows of a box for `len` parts: two parts get two rows each; more
/// get two rows, all that is left, and two rows.
pub open spec fn box_rows(len: usize) -> Seq<Size> {
    if len == 2 {
        seq![Size::Length(2), Size::Length(2)]
    } else {
        seq![Size::Length(2), Size::Percentage(100), Size::Length(2)]
    }
}

/// The rows of a timeline's box, from the top: the header, the description
/// when there is one, and the progress bar (the box leaves one row between
/// them).
pub open spec fn timeline_rows(has_description: bool) -> Seq<u16> {
    if has_description {
        seq![1u16, 1u16, 2u16]
    } else {
        seq![1u16, 2u16]
    }
}

/// The height of a timeline's box: the header, the description (one line)
/// and the bar, with the rows between them and the box's border.
pub open spec fn timeline_height(has_description: bool) -> u16 {
    if has_description {
        8
    } else {
        4
    }
}

/// ```txt
/// ┌──────────────────────────────────────────────────────┐
/// │ state icon      name                                 │
/// ┼──────────────────────────────────────────────────────┤
/// │ description                                          │
/// ┼──────────────────────────────────────────────────────┤
/// │ ┌────────────────────────────────────────┐           │
/// │ │                                        │ cost time │
/// │ └────────────────────────────────────────┘           │
/// └──────────────────────────────────────────────────────┘
/// ```
#[derive(Debug)]
pub struct Timeline {
    pub name: String,
    pub description: Option<String>,
    /// time taken by the step
    pub cost: Duration,
    pub state: TimelineState,
    pub progress: u16,
    pub lang: Language,
    /// the rows of the box once drawn, from the top
    pub rows: Vec<u16>,
    pub height: u16,
}

impl Timeline {
    pub fn new(name: String, lang: Language) -> (r: Self)
        ensures
            r.name@ == name@,
            r.lang == lang,
            r.description is None,
            r.state == TimelineState::UnStart,
            r.progress == 0,
            r.rows@.len() == 0,
            r.height == 0,
    {
        Timeline {
            name,
            description: None,
            cost: zero_duration(),
            state: TimelineState::UnStart,
            progress: 0,
            lang,
            rows: Vec::new(),
            height: 0,
        }
    }

    pub fn name(self, name: String) -> (r: Self)
        ensures
            r.name@ == name@,
            r.description == self.description,
            r.state == self.state,
            r.progress == self.progress,
            r.lang == self.lang,
            r.cost == self.cost,
    {
        Timeline { name, ..self }
    }

    pub fn description(self, description: String) -> (r: Self)
        ensures
            r.description == Some(description),
            r.name == self.name,
            r.state == self.state,
            r.progress == self.progress,
            r.lang == self.lang,
            r.cost == self.cost,
    {
        Timeline { description: Some(description), ..self }
    }

    pub fn cost(self, cost: Duration) -> (r: Self)
        ensures
            r.cost == cost,
            r.name == self.name,
            r.description == self.description,
            r.state == self.state,
            r.progress == self.progress,
            r.lang == self.lang,
    {
        Timeline { cost, ..self }
    }

    pub fn progress(self, progress: u16) -> (r: Self)
        ensures
            r.progress == progress,
            r.name == self.name,
            r.description == self.description,
            r.state == self.state,
            r.lang == self.lang,
            r.cost == self.cost,
    {
        Timeline { progress, ..self }
    }

    pub fn state(self, state: TimelineState) -> (r: Self)
        ensures
            r.state == state,
            r.name == self.name,
            r.description == self.description,
            r.progress == self.progress,
            r.lang == self.lang,
            r.cost == self.cost,
    {
        Timeline { state, ..self }
    }

    /// The rows of a box for `len` parts (see `box_rows`).
    pub fn layout(len: usize) -> (rows: Vec<Size>)
        ensures
            rows@ == box_rows(len),
    {
        let rows = if len == 2 {
            vec![Size::Length(2), Size::Length(2)]
        } else {
            vec![Size::Length(2), Size::Percentage(100), Size::Length(2)]
        };
        assert(rows@ =~= box_rows(len));
        rows
    }

    /// The columns of the header: two cells for the state icon, the rest
    /// for the name.
    pub fn header_layout() -> (cols: Vec<Size>)
        ensures
            cols@ == seq![Size::Length(2), Size::Percentage(100)],
    {
        let cols = vec![Size::Length(2), Size::Percentage(100)];
        assert(cols@ =~= seq![Size::Length(2), Size::Percentage(100)]);
        cols
    }

    /// The columns of the progress line: 76% for the bar,
    /// then as many cells as the time taken is wide (read as a `u16`).
    pub fn progress_layout(cost_len: usize) -> (cols: Vec<Size>)
        ensures
            cols@ == seq![Size::Percentage(76), Size::Length(cost_len as u16)],
    {
        #[verifier::truncate]
        let len: u16 = cost_len as u16;
        let cols = vec![Size::Percentage(76), Size::Length(len)];
        assert(cols@ =~= seq![Size::Percentage(76), Size::Length(cost_len as u16)]);
        cols
    }

    /// Lays the box out: its rows and its height, which depend only on
    /// whether there is a description; nothing else changes.
    pub fn draw(self) -> (r: Self)
        ensures
            r.rows@ == timeline_rows(self.description is Some),
            r.height == timeline_height(self.description is Some),
            r.name == self.name,
            r.description == self.description,
            r.state == self.state,
            r.progress == self.progress,
            r.lang == self.lang,
            r.cost == self.cost,
    {
        let has_description = self.description.is_some();
        let rows: Vec<u16> = if has_description {
            vec![1u16, 1u16, 2u16]
        } else {
            vec![1u16, 2u16]
        };
        let height: u16 = if has_description {
            // one row for the description, one for the header, two for the
            // bar, one between each and the border
            1 + 1 + 1 + 2 + 3
        } else {
            1 + 2 + 1
        };
        assert(rows@ =~= timeline_rows(has_description));
        Timeline { rows, height, ..self }
    }

    /// The glyph in front of the time taken: a stopwatch while the step
    /// runs, a party popper once the bar is full.
    pub fn cost_icon(&self) -> (icon: &'static str)
        ensures
            icon@ == (if self.progress < 100 {
                "⏱"@
            } else {
                "🎉"@
            }),
    {
        if self.progress < 100 {
            "⏱"
        } else {
            "🎉"
        }
    }
}

} // verus!
