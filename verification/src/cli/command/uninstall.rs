use vstd::prelude::*;

use crate::app::key::Key;
use crate::app::state::{BaseRunState, ComponentState};
use crate::entry::Language;

verus! {

/// What the uninstall dialog asks of its runner after a key.
#[derive(Debug, Clone, Copy, PartialEq, Eq, Structural)]
pub enum UninstallTask {
    Nothing,
    /// remove Ract, then hand the outcome to `finish`
    Uninstall,
}

/// # Uninstall Ract
/// Asks whether to remove Ract: its `.env` file, the chain directory beside
/// it, and the `ract` executable.
pub struct UninstallCmd {
    pub lang: Language,
    pub state: ComponentState<BaseRunState>,
    /// whether "Yes" is chosen
    pub selected: bool,
}

impl UninstallCmd {
    pub fn new(lang: Language) -> (r: Self)
        ensures
            r.lang == lang,
            r.state is Start,
            !r.selected,
    {
        UninstallCmd { lang, state: ComponentState::Start, selected: false }
    }

    /// Handles a pressed key: `q` quits, `Up` and `Down` switch between
    /// "Yes" and "No", `Enter` on "Yes" asks to uninstall and on "No" quits.
    pub fn handle_key(&mut self, key: Key) -> (t: UninstallTask)
        ensures
            t == (if key == Key::Enter && old(self).selected {
                UninstallTask::Uninstall
            } else {
                UninstallTask::Nothing
            }),
            final(self).selected == (if key == Key::Up || key == Key::Down {
                !old(self).selected
            } else {
                old(self).selected
            }),
            final(self).state == (if key == Key::Char('q') || (key == Key::Enter && !old(self).selected) {
                ComponentState::Quit
            } else {
                old(self).state
            }),
            final(self).lang == old(self).lang,
    {
        match key {
            Key::Char('q') => {
                self.state.quit();
                UninstallTask::Nothing
            },
            Key::Up | Key::Down => {
                self.selected = !self.selected;
                UninstallTask::Nothing
            },
            Key::Enter => {
                if self.selected {
                    UninstallTask::Uninstall
                } else {
                    self.state.quit();
                    UninstallTask::Nothing
                }
            },
            _ => UninstallTask::Nothing,
        }
    }

    /// After the removal: success closes the dialog, failure leaves it open.
    pub fn finish(&mut self, succeeded: bool)
        ensures
            final(self).state == (if succeeded {
                ComponentState::Quit
            } else {
                old(self).state
            }),
            final(self).selected == old(self).selected,
    {
        if succeeded {
            self.state.quit();
        }
    }

    /// The option the confirmation shows as chosen: 0 for "Yes", 1 for "No".
    pub fn confirm_index(&self) -> (i: usize)
        ensures
            i == (if self.selected {
                0usize
            } else {
                1usize
            }),
    {
        if self.selected {
            0
        } else {
            1
        }
    }
}

} // verus!
