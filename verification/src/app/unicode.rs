//! Glyphs the components draw.
use vstd::prelude::*;

verus! {

pub const ARROW_RIGHT_SHARP: &'static str = "➤";

pub const ARROW_DOUBLE_RIGHT: &'static str = "»";

pub const CHECK: &'static str = "✔";

pub const WARNING: &'static str = "❗";

pub const LINE_V: &'static str = "│";

pub const LINE_H: &'static str = "─";

pub const CIRCLE_DOT: &'static str = "◉";

} // verus!
