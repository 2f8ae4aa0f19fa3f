//! Widths of text as the terminal shows it.
use vstd::prelude::*;

verus! {

/// The number of terminal columns that ratatui gives a span holding `s`
/// (its Unicode display width).
pub uninterp spec fn display_width(s: Seq<char>) -> nat;

/// `ratatui::text::Span::width` of a span holding `s`.
/// Claimed: the result is `display_width(s@)`, a function of the text alone.
#[verifier::external_body]
pub(crate) fn span_width(s: &str) -> (w: usize)
    ensures
        w == display_width(s@),
{
    ratatui::text::Span::raw(s).width()
}

/// The width of a line made of the given spans: the sum of their widths.
pub open spec fn line_width(spans: Seq<String>) -> nat
    decreases spans.len(),
{
    if spans.len() == 0 {
        0
    } else {
        line_width(spans.drop_last()) + display_width(spans.last()@)
    }
}

/// `ratatui::text::Line::width` of a line made of the given spans: the sum of
/// the span widths, as ratatui computes it.
pub fn line_width_of(spans: &Vec<String>) -> (w: usize)
    requires
        line_width(spans@) <= usize::MAX,
    ensures
        w == line_width(spans@),
{
    let mut total: usize = 0;
    let mut i: usize = 0;
    while i < spans.len()
        invariant
            i <= spans.len(),
            total == line_width(spans@.take(i as int)),
            line_width(spans@) <= usize::MAX,
        decreases spans.len() - i,
    {
        proof {
            assert(spans@.take(i + 1).drop_last() =~= spans@.take(i as int));
            lemma_line_width_prefix(spans@, i + 1);
        }
        total = total + span_width(spans[i].as_str());
        i = i + 1;
    }
    assert(spans@.take(spans@.len() as int) =~= spans@);
    total
}

/// A prefix of a line is no wider than the line.
pub proof fn lemma_line_width_prefix(spans: Seq<String>, n: int)
    requires
        0 <= n <= spans.len(),
    ensures
        line_width(spans.take(n)) <= line_width(spans),
    decreases spans.len() - n,
{
    if n < spans.len() {
        lemma_line_width_prefix(spans, n + 1);
        assert(spans.take(n + 1).drop_last() =~= spans.take(n));
    } else {
        assert(spans.take(n) =~= spans);
    }
}

} // verus!
