//! Terminal components: their run states, editing models and layout arithmetic.
pub mod dashboard;
pub mod input;
pub mod key;
pub mod list;
pub mod runner;
pub mod select;
pub mod state;
pub mod tab;
pub mod text;
pub mod timeline;
pub mod unicode;

pub use dashboard::Dashboard;
pub use input::Input;
pub use key::Key;
pub use list::KV;
pub use select::{Confirm, MultiSelect, Select};
pub use tab::Tab;
pub use state::{
    lemma_component_reaches_quit, lemma_input_mode_toggle_twice, BaseRunState, ComponentState,
    InputMode, State,
};
