//! A list of tabs beside (or above) a pane, and how its labels are laid out.
use vstd::prelude::*;
use vstd::utf8::encode_utf8;

use super::unicode;

verus! {

broadcast use vstd::string::group_string_axioms;

/// Where the tabs stand: in a column left of the pane, or in a row above it.
#[derive(Debug, Clone, Copy, PartialEq, Eq, Structural)]
pub enum Direction {
    Horizontal,
    Vertical,
}

impl Default for Direction {
    fn default() -> (r: Self)
        ensures
            r == Direction::Vertical,
    {
        Direction::Vertical
    }
}

/// The number of bytes of `s` in UTF-8, as `str::len` counts them.
pub open spec fn byte_len(s: Seq<char>) -> nat {
    encode_utf8(s).len()
}

/// A byte length read as a `u16`, as a machine cast does.
pub open spec fn len16(s: Seq<char>) -> nat {
    ((byte_len(s) as usize) as u16) as nat
}

/// `n` spaces.
pub open spec fn spaces(n: nat) -> Seq<char> {
    Seq::new(n, |_i: int| ' ')
}

/// The mark in front of a tab: an arrow on the selected one, a space on the others.
pub open spec fn marker(selected: bool) -> Seq<char> {
    if selected {
        unicode::ARROW_RIGHT_SHARP@
    } else {
        " "@
    }
}

/// The texts of the tabs.
pub open spec fn tab_texts(tabs: Seq<String>) -> Seq<Seq<char>> {
    tabs.map_values(|t: String| t@)
}

/// The rows of a column of tabs `height` rows high: the tabs, then blank
/// (one-space) rows down to the bottom.
pub open spec fn padded_rows(tabs: Seq<Seq<char>>, height: nat) -> Seq<Seq<char>> {
    if tabs.len() >= height {
        tabs
    } else {
        tabs + Seq::new((height - tabs.len()) as nat, |_i: int| " "@)
    }
}

/// The longest of the rows' byte lengths (each read as a `u16`), 0 when
/// there is no row.
pub open spec fn max_len16(rows: Seq<Seq<char>>) -> nat
    decreases rows.len(),
{
    if rows.len() == 0 {
        0
    } else {
        let rest = max_len16(rows.drop_last());
        if len16(rows.last()) > rest {
            len16(rows.last())
        } else {
            rest
        }
    }
}

/// The width of the column of tabs: the longest row and three more.
pub open spec fn column_width(rows: Seq<Seq<char>>) -> nat {
    max_len16(rows) + 3
}

/// A row of the column: the mark, the tab, then spaces to the column's width.
pub open spec fn column_label(tab: Seq<char>, selected: bool, width: nat) -> Seq<char> {
    marker(selected) + tab + spaces((width - byte_len(tab)) as nat)
}

/// A tab of the row above the pane: the mark, the tab and a space.
pub open spec fn row_label(tab: Seq<char>, selected: bool) -> Seq<char> {
    marker(selected) + tab + " "@
}

/// The width a tab takes in the row above the pane: its byte length (as a
/// `u16`) and two more.
pub open spec fn row_width(tab: Seq<char>) -> nat {
    len16(tab) + 2
}

/// One drawn tab: its text and the width it is given.
#[derive(Debug, Clone)]
pub struct TabCell {
    pub label: String,
    pub width: u16,
}

/// Tabs with one of them selected.
/// ### Horizontal
/// ```text
/// ${tab} | ${pane}
/// ...    |
/// ```
/// ### Vertical
/// ```text
/// ${tab} ...
/// ------ ...
/// ${pane}
/// ```
#[derive(Debug, Clone)]
pub struct Tab {
    pub direction: Direction,
    pub tabs: Vec<String>,
    pub selected: usize,
}

/// The rows of the column: the tabs, padded with blank rows to `height`.
fn pad_rows(tabs: &Vec<String>, height: u16) -> (rows: Vec<String>)
    ensures
        tab_texts(rows@) =~= padded_rows(tab_texts(tabs@), height as nat),
{
    let mut rows: Vec<String> = Vec::new();
    let mut i: usize = 0;
    while i < tabs.len()
        invariant
            i <= tabs.len(),
            tab_texts(rows@) =~= tab_texts(tabs@).take(i as int),
        decreases tabs.len() - i,
    {
        let ghost before = rows@;
        let t = tabs[i].clone();
        rows.push(t);
        assert(rows@ == before.push(t));
        assert(tab_texts(rows@) =~= tab_texts(before).push(tabs@[i as int]@));
        assert(tab_texts(tabs@).take(i + 1) =~= tab_texts(tabs@).take(i as int).push(
            tabs@[i as int]@,
        ));
        i = i + 1;
    }
    let mut k: usize = tabs.len();
    let h: usize = height as usize;
    while k < h
        invariant
            tabs.len() <= k <= h || (k == tabs.len() && h < tabs.len()),
            h == height as nat,
            tab_texts(rows@) =~= tab_texts(tabs@) + Seq::new((k - tabs.len()) as nat, |_i: int| " "@),
        decreases h - k,
    {
        let ghost before = rows@;
        let blank = " ".to_string();
        rows.push(blank);
        assert(tab_texts(rows@) =~= tab_texts(before).push(" "@));
        assert(Seq::new((k + 1 - tabs.len()) as nat, |_i: int| " "@) =~= Seq::new(
            (k - tabs.len()) as nat,
            |_i: int| " "@,
        ).push(" "@));
        k = k + 1;
    }
    rows
}

/// The byte length of `s`, as a `u16` (as a machine cast does).
fn len_u16(s: &str) -> (n: u16)
    ensures
        n == len16(s@),
{
    #[verifier::truncate]
    let n: u16 = s.len() as u16;
    n
}

/// The longest byte length (as a `u16`) among the rows.
fn max_len(rows: &Vec<String>) -> (m: usize)
    ensures
        m == max_len16(tab_texts(rows@)),
{
    let mut m: usize = 0;
    let mut i: usize = 0;
    while i < rows.len()
        invariant
            i <= rows.len(),
            m == max_len16(tab_texts(rows@).take(i as int)),
        decreases rows.len() - i,
    {
        let ghost t = tab_texts(rows@);
        assert(t.take(i + 1).drop_last() =~= t.take(i as int));
        let n = len_u16(rows[i].as_str()) as usize;
        if n > m {
            m = n;
        }
        i = i + 1;
    }
    assert(tab_texts(rows@).take(rows@.len() as int) =~= tab_texts(rows@));
    m
}

/// The mark, the tab, then `pad` spaces.
fn label(tab: &str, selected: bool, pad: usize) -> (s: String)
    ensures
        s@ == marker(selected) + tab@ + spaces(pad as nat),
{
    let mut s = if selected {
        unicode::ARROW_RIGHT_SHARP.to_string()
    } else {
        " ".to_string()
    };
    s.append(tab);
    let ghost front = s@;
    let mut k: usize = 0;
    while k < pad
        invariant
            k <= pad,
            front == marker(selected) + tab@,
            s@ == front + spaces(k as nat),
        decreases pad - k,
    {
        proof {
            reveal_strlit(" ");
            assert(spaces(k as nat) + " "@ =~= spaces((k + 1) as nat));
        }
        s.append(" ");
        k = k + 1;
    }
    s
}

impl Tab {
    pub fn new(tabs: Vec<String>) -> (r: Self)
        ensures
            r.direction == Direction::Vertical,
            r.tabs@ == tabs@,
            r.selected == 0,
    {
        Tab { direction: Direction::Vertical, tabs, selected: 0 }
    }

    pub fn direction(self, direction: Direction) -> (r: Self)
        ensures
            r.direction == direction,
            r.tabs@ == self.tabs@,
            r.selected == self.selected,
    {
        Tab { direction, ..self }
    }

    pub fn selected(self, selected: usize) -> (r: Self)
        ensures
            r.direction == self.direction,
            r.tabs@ == self.tabs@,
            r.selected == selected,
    {
        Tab { selected, ..self }
    }

    /// Whether `layout` can lay the tabs out in an area `height` rows
    /// high: in a column, every row fits the column's width (byte lengths
    /// are read as `u16`s); in a row, each tab's width stays a `u16`.
    pub open spec fn fits(&self, height: u16) -> bool {
        match self.direction {
            Direction::Horizontal => {
                let rows = padded_rows(tab_texts(self.tabs@), height as nat);
                forall|i: int| 0 <= i < rows.len() ==> #[trigger] byte_len(rows[i]) <= column_width(rows)
            },
            Direction::Vertical => forall|i: int|
                0 <= i < self.tabs@.len() ==> #[trigger] row_width(self.tabs@[i]@) <= u16::MAX,
        }
    }

    /// The tabs as they are drawn in an area `height` rows high.  In a
    /// column (`Horizontal`), every row of the area gets a cell of the
    /// column's width; in a row (`Vertical`), each tab gets a cell as wide
    /// as it is, plus two; the selected one is underlined as wide as its cell.
    pub fn layout(&self, height: u16) -> (cells: Vec<TabCell>)
        requires
            self.fits(height),
        ensures
            match self.direction {
                Direction::Horizontal => {
                    let rows = padded_rows(tab_texts(self.tabs@), height as nat);
                    &&& cells@.len() == rows.len()
                    &&& forall|i: int|
                        0 <= i < rows.len() ==> {
                            &&& (#[trigger] cells@[i]).label@ == column_label(
                                rows[i],
                                i == self.selected,
                                column_width(rows),
                            )
                            &&& cells@[i].width == (column_width(rows) as usize) as u16
                        }
                },
                Direction::Vertical => {
                    &&& cells@.len() == self.tabs@.len()
                    &&& forall|i: int|
                        0 <= i < self.tabs@.len() ==> {
                            &&& (#[trigger] cells@[i]).label@ == row_label(
                                self.tabs@[i]@,
                                i == self.selected,
                            )
                            &&& cells@[i].width == row_width(self.tabs@[i]@)
                        }
                },
            },
    {
        let mut cells: Vec<TabCell> = Vec::new();
        match self.direction {
            Direction::Horizontal => {
                let rows = pad_rows(&self.tabs, height);
                let ghost texts = tab_texts(rows@);
                let max = max_len(&rows);
                assert(max <= u16::MAX) by {
                    if texts.len() > 0 {
                        lemma_max_len16_bound(texts);
                    }
                };
                let width: usize = max + 3;
                #[verifier::truncate]
                let width16: u16 = width as u16;
                let mut i: usize = 0;
                while i < rows.len()
                    invariant
                        i <= rows.len(),
                        texts == tab_texts(rows@),
                        width == column_width(texts),
                        width16 == (width as u16),
                        forall|j: int| 0 <= j < texts.len() ==> #[trigger] byte_len(texts[j]) <= width,
                        cells@.len() == i,
                        forall|j: int|
                            0 <= j < i ==> {
                                &&& (#[trigger] cells@[j]).label@ == column_label(
                                    texts[j],
                                    j == self.selected,
                                    width as nat,
                                )
                                &&& cells@[j].width == width16
                            },
                    decreases rows.len() - i,
                {
                    let row = rows[i].as_str();
                    assert(texts[i as int] == row@);
                    assert(byte_len(texts[i as int]) <= width);
                    let pad: usize = width - row.len();
                    let text = label(row, i == self.selected, pad);
                    cells.push(TabCell { label: text, width: width16 });
                    i = i + 1;
                }
            },
            Direction::Vertical => {
                let mut i: usize = 0;
                while i < self.tabs.len()
                    invariant
                        i <= self.tabs.len(),
                        self.fits(height),
                        self.direction == Direction::Vertical,
                        cells@.len() == i,
                        forall|j: int|
                            0 <= j < i ==> {
                                &&& (#[trigger] cells@[j]).label@ == row_label(
                                    self.tabs@[j]@,
                                    j == self.selected,
                                )
                                &&& cells@[j].width == row_width(self.tabs@[j]@)
                            },
                    decreases self.tabs.len() - i,
                {
                    let tab = self.tabs[i].as_str();
                    assert(row_width(self.tabs@[i as int]@) <= u16::MAX);
                    let width: u16 = len_u16(tab) + 2;
                    let text = label(tab, i == self.selected, 1);
                    proof {
                        reveal_strlit(" ");
                        assert(spaces(1) =~= " "@);
                    }
                    cells.push(TabCell { label: text, width });
                    i = i + 1;
                }
            },
        }
        cells
    }
}

/// The longest row is one of the rows, so it fits a `u16`.
proof fn lemma_max_len16_bound(rows: Seq<Seq<char>>)
    ensures
        max_len16(rows) <= u16::MAX,
    decreases rows.len(),
{
    if rows.len() > 0 {
        lemma_max_len16_bound(rows.drop_last());
    }
}

} // verus!
