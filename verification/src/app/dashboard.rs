use vstd::prelude::*;

use crate::entry::Language;
use crate::log::LogType;
use gen_utils::common::Os;
use std::time::Duration;

verus! {

#[verifier::external_type_specification]
#[verifier::external_body]
pub struct ExOs(Os);

/// `gen_utils::common::Os::current`: the operating system this program was
/// built for.  Nothing is claimed of which one it is.
#[verifier::external_body]
fn current_os() -> (os: Os) {
    Os::current()
}

/// The frame around every command's dialog: its title, the info column
/// (os, version, language and, once measured, the time taken) and links.
pub struct Dashboard {
    pub os: Os,
    pub title: String,
    pub lang: Language,
    pub ty: LogType,
    pub cost: Option<Duration>,
}

impl Dashboard {
    /// A dashboard titled "Ract Dashboard" for the current system, with no
    /// command type and no time yet.
    pub fn new(lang: Language) -> (d: Self)
        ensures
            d.title@ == "Ract Dashboard"@,
            d.lang == lang,
            d.ty == LogType::Unknown,
            d.cost is None,
    {
        Dashboard {
            os: current_os(),
            title: "Ract Dashboard".to_string(),
            lang,
            ty: LogType::Unknown,
            cost: None,
        }
    }

    /// Rows of the info column: os, version and language with blank rows
    /// between them (5), two more for the command type, two more for the time.
    pub open spec fn info_height(&self) -> int {
        (if self.ty == LogType::Unknown {
            5int
        } else {
            7int
        }) + (if self.cost is Some {
            2int
        } else {
            0int
        })
    }

    /// The rows the whole dashboard takes: the taller of the main content
    /// (`from`) and the info column, plus footer (2), padding (1),
    /// border (2) and spacing (1), plus `offset`.
    pub open spec fn height_spec(&self, from: u16, offset: u16) -> int {
        let content = if from < self.info_height() {
            self.info_height()
        } else {
            from as int
        };
        content + 6 + offset
    }

    pub fn height(&self, from: u16, offset: u16) -> (h: u16)
        requires
            self.height_spec(from, offset) <= u16::MAX,
        ensures
            h == self.height_spec(from, offset),
    {
        let mut info_height: u16 = if self.ty.is_unknown() {
            5
        } else {
            7
        };
        if self.cost.is_some() {
            info_height += 2;
        }
        let mut content_height = if from < info_height {
            info_height
        } else {
            from
        };
        content_height += 6;
        content_height += offset;
        content_height
    }
}

} // verus!
