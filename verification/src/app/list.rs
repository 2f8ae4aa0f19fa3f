//! A key and its value as one selectable line of an editable list.
use vstd::prelude::*;

use super::unicode;

verus! {

broadcast use vstd::string::group_string_axioms;

/// # KV
/// ```text
/// ${icon} ${key} » ${value}
/// // such as
/// ➤ name » John
/// ```
#[derive(Debug, Clone)]
pub struct KV {
    pub icon: String,
    pub selected: bool,
    pub key: String,
    pub value: String,
}

/// The pieces of a key-value line, left to right: the icon (a carriage
/// return when the line is not selected, which hides it), a space, the key,
/// the arrow, the value.
pub open spec fn kv_spans(icon: Seq<char>, selected: bool, key: Seq<char>, value: Seq<char>) -> Seq<Seq<char>> {
    seq![
        if selected { icon } else { "\r"@ },
        " "@,
        key,
        " "@ + unicode::ARROW_DOUBLE_RIGHT@ + " "@,
        value,
    ]
}

impl KV {
    pub fn new(key: String, value: String) -> (r: Self)
        ensures
            r.icon@ == unicode::ARROW_RIGHT_SHARP@,
            !r.selected,
            r.key@ == key@,
            r.value@ == value@,
    {
        KV { icon: unicode::ARROW_RIGHT_SHARP.to_string(), selected: false, key, value }
    }

    pub fn selected(self, selected: bool) -> (r: Self)
        ensures
            r.selected == selected,
            r.icon == self.icon,
            r.key == self.key,
            r.value == self.value,
    {
        KV { selected, ..self }
    }

    pub fn icon(self, icon: &str) -> (r: Self)
        ensures
            r.icon@ == icon@,
            r.selected == self.selected,
            r.key == self.key,
            r.value == self.value,
    {
        KV { icon: icon.to_string(), ..self }
    }

    /// The spans of the line that shows this entry.
    pub fn spans(&self) -> (v: Vec<String>)
        ensures
            v@.len() == 5,
            forall|i: int|
                0 <= i < 5 ==> (#[trigger] v@[i])@ == kv_spans(
                    self.icon@,
                    self.selected,
                    self.key@,
                    self.value@,
                )[i],
    {
        let icon = if self.selected {
            self.icon.clone()
        } else {
            "\r".to_string()
        };
        let mut arrow = " ".to_string();
        arrow.append(unicode::ARROW_DOUBLE_RIGHT);
        arrow.append(" ");
        let v = vec![icon, " ".to_string(), self.key.clone(), arrow, self.value.clone()];
        v
    }
}

} // verus!
