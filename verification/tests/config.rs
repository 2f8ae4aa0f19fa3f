use ract::app::key::Key;
use ract::app::state::{ComponentState, InputMode};
use ract::cli::command::config::{
    chain_lines, chain_text, scroll_to_end, ChainLine, ConfigAction, ConfigCmd, ConfigData,
    ConfigState, Place,
};
use ract::entry::{Configs, Language};

fn line(key: &str, value: &str, is_kv: bool) -> ChainLine {
    ChainLine { key: key.to_string(), value: value.to_string(), is_kv }
}

fn loaded() -> ConfigCmd {
    let mut cmd = ConfigCmd::new(Language::En);
    cmd.data = Some(ConfigData {
        env: "/home/u/.ract/chain/env.toml".to_string(),
        chain_env: vec![
            line("[dependencies]", "", false),
            line("makepad-widgets", "/m", true),
            line("gen_components", "/g", true),
        ],
        current: Configs::Env,
    });
    cmd
}

#[test]
fn config_begins_and_counts_lines() {
    let mut cmd = loaded();
    assert!(cmd.step());
    assert_eq!(cmd.kv_length, 3);
    assert!(matches!(cmd.state, ComponentState::Run(ConfigState::Select)));
    assert!(!cmd.step());
}

#[test]
fn config_tabs_switch_files() {
    let mut cmd = loaded();
    cmd.step();
    assert_eq!(cmd.handle_key(Key::Down, ""), ConfigAction::Nothing);
    assert_eq!(cmd.data.as_ref().unwrap().current, Configs::ChainEnvToml);
    assert_eq!(cmd.data.as_ref().unwrap().current_index(), 1);
    cmd.handle_key(Key::Up, "");
    assert_eq!(cmd.data.as_ref().unwrap().current, Configs::Env);
    assert_eq!(cmd.input_height(), 2);
}

#[test]
fn config_edit_env_path() {
    let mut cmd = loaded();
    cmd.step();
    cmd.handle_key(Key::Right, "");
    assert_eq!(cmd.place, Place::Pane);
    assert_eq!(cmd.input_height(), 3);
    cmd.handle_key(Key::Char('i'), "");
    assert_eq!(cmd.mode, InputMode::Edit);
    assert_eq!(cmd.value, "/home/u/.ract/chain/env.toml");
    assert!(cmd.handle_other_event());
    assert_eq!(cmd.handle_key(Key::Char('x'), ""), ConfigAction::TextareaInput);
    assert_eq!(cmd.handle_key(Key::Left, ""), ConfigAction::TextareaInput);
    assert_eq!(cmd.place, Place::Pane);
    assert_eq!(
        cmd.handle_key(Key::Esc, "/opt/env.toml"),
        ConfigAction::EditDone(Some("/opt/env.toml".to_string()))
    );
    assert_eq!(cmd.mode, InputMode::Normal);
    assert_eq!(cmd.data.as_ref().unwrap().env, "/opt/env.toml");
    assert_eq!(cmd.value, "");
}

#[test]
fn config_edit_same_value_stores_nothing() {
    let mut cmd = loaded();
    cmd.step();
    cmd.handle_key(Key::Right, "");
    cmd.handle_key(Key::Char('i'), "");
    assert_eq!(
        cmd.handle_key(Key::Esc, "/home/u/.ract/chain/env.toml"),
        ConfigAction::EditDone(None)
    );
    assert_eq!(cmd.handle_key(Key::Esc, ""), ConfigAction::EditDone(None));
    assert_eq!(cmd.place, Place::Select);
}

#[test]
fn config_edit_chain_entry() {
    let mut cmd = loaded();
    cmd.step();
    cmd.handle_key(Key::Down, "");
    cmd.handle_key(Key::Right, "");
    cmd.handle_key(Key::Down, "");
    assert_eq!(cmd.kv_index, 1);
    cmd.handle_key(Key::Char('i'), "");
    assert_eq!(cmd.value, "/m");
    assert_eq!(cmd.handle_key(Key::Esc, "/new/m"), ConfigAction::EditDone(Some("/new/m".to_string())));
    let data = cmd.data.as_ref().unwrap();
    assert_eq!(data.chain_env[1].value, "/new/m");
    assert_eq!(data.chain_env[1].key, "makepad-widgets");
    assert_eq!(data.chain_env[2].value, "/g");
}

#[test]
fn config_pane_cursor_wraps() {
    let mut cmd = loaded();
    cmd.step();
    cmd.handle_key(Key::Right, "");
    cmd.handle_key(Key::Up, "");
    assert_eq!(cmd.kv_index, 2);
    cmd.handle_key(Key::Down, "");
    assert_eq!(cmd.kv_index, 0);
}

#[test]
fn config_commands() {
    let mut cmd = loaded();
    cmd.step();
    cmd.handle_key(Key::Left, "");
    assert_eq!(cmd.place, Place::Select);
    assert_eq!(cmd.input_height(), 5);
    cmd.handle_key(Key::Down, "");
    assert_eq!(cmd.handle_key(Key::Enter, ""), ConfigAction::Write { quit: false });
    assert!(!cmd.state.is_quit());
    cmd.handle_key(Key::Down, "");
    assert_eq!(cmd.handle_key(Key::Enter, ""), ConfigAction::Write { quit: true });
    assert!(cmd.state.is_quit());
    let mut other = loaded();
    other.step();
    other.handle_key(Key::Esc, "");
    other.handle_key(Key::Up, "");
    assert_eq!(other.cmd_selected, 3);
    assert_eq!(other.handle_key(Key::Enter, ""), ConfigAction::Nothing);
    assert!(!other.state.is_quit());
    other.handle_key(Key::Char('q'), "");
    assert!(other.state.is_quit());
}

#[test]
fn config_log_scrolls_to_end() {
    assert_eq!(scroll_to_end(30, 10), 20);
    assert_eq!(scroll_to_end(5, 10), 0);
}

const CHAIN: &str = "[dependencies]\nmakepad-widgets = \"/m\"\ngen_components = { path = \"/g\" }\n";

#[test]
fn chain_lines_of_env_toml() {
    let lines = chain_lines(CHAIN).unwrap();
    let seen: Vec<(&str, &str, bool)> =
        lines.iter().map(|l| (l.key.as_str(), l.value.as_str(), l.is_kv)).collect();
    assert_eq!(
        seen,
        vec![("[dependencies]", "", false), ("makepad-widgets", "/m", true), ("gen_components", "", false)]
    );
    assert_eq!(chain_lines("").unwrap().len(), 1);
    assert!(chain_lines("[dependencies").is_err());
}

#[test]
fn chain_text_writes_edited_values() {
    let mut lines = chain_lines(CHAIN).unwrap();
    lines[1].value = "/new/m".to_string();
    let text = chain_text(CHAIN, &lines).unwrap();
    let again = chain_lines(&text).unwrap();
    assert_eq!(again[1].value, "/new/m");
    assert_eq!(again[2].key, "gen_components");
    assert!(text.contains("{ path = \"/g\" }"));
    assert!(chain_text("dependencies = 1\n", &lines).is_err());
    assert_eq!(chain_text("x = 1\n", &Vec::new()).unwrap(), "x = 1\n");
}

#[test]
fn config_places_cycle_with_right() {
    let mut cmd = loaded();
    cmd.step();
    cmd.handle_key(Key::Right, "");
    assert_eq!(cmd.place, Place::Pane);
    cmd.handle_key(Key::Right, "");
    assert_eq!(cmd.place, Place::Select);
    cmd.handle_key(Key::Right, "");
    assert_eq!(cmd.place, Place::Tab);
}

#[test]
fn config_accepts_only_safe_keys() {
    let mut empty = ConfigCmd::new(Language::En);
    empty.step();
    assert!(empty.accepts(Key::Up));
    empty.handle_key(Key::Right, "");
    assert!(!empty.accepts(Key::Down));
    assert!(!empty.accepts(Key::Char('i')));
    empty.handle_key(Key::Right, "");
    empty.cmd_selected = 1;
    assert!(!empty.accepts(Key::Enter));
    empty.cmd_selected = 3;
    assert!(empty.accepts(Key::Enter));
    let mut cmd = loaded();
    cmd.step();
    cmd.handle_key(Key::Right, "");
    assert!(cmd.accepts(Key::Down));
    assert!(cmd.accepts(Key::Char('i')));
}

#[test]
fn config_up_on_first_command_wraps_to_last() {
    let mut cmd = ConfigCmd::new(Language::En);
    cmd.step();
    cmd.handle_key(Key::Left, "");
    cmd.handle_key(Key::Up, "");
    assert!(matches!(cmd.state, ComponentState::Run(ConfigState::Select)));
    assert_eq!(cmd.place, Place::Select);
    assert_eq!(cmd.cmd_selected, 3);
}
