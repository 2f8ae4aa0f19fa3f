use ract::common::fs::is_workspace;
use ract::common::same_text;
use ract::service::cli::{Cli, Step};
use ract::service::command::check::{
    current_states, dependency_found, dependency_text, try_current_states, BasicTools,
    MakepadTools, Tools, UnderlayerTools,
};
use ract::service::command::config::{get_or_set, point_makepad_widgets, try_point_makepad_widgets};
use ract::service::command::create::CreateArgs;
use ract::service::command::init::{check, InitStep};
use ract::service::command::install::{install_option, InstallOption};
use ract::service::command::package::{
    default_identifier, package_conf, packager_option, read_package, try_read_package,
    CargoPackage, PackageAnswers, PackagerStep,
};
use ract::service::command::run::{project_kind, ProjectKind};
use ract::service::command::uninstall::{uninstall_all, Removal};
use ract::service::command::wasm::{port_of, run_wasm, try_run_wasm, WasmArgs, WasmTarget};
use ract::service::command::{CommandKind, Commands};
use ract::common::toml::TomlStr;
use ract::service::command::add::{plugin_path, register_plugin};
use ract::service::command::check::{dependency_path, tools_from};
use ract::service::command::package::{packager_toml, PackageConf};
use ract::service::command::check::{check_makepad, makepad_report, try_check_makepad, DependencyReport};
use ract::service::command::install::{update_makepad, MakepadUpdate};

#[test]
fn match_cmd_runs_init_alone() {
    let cli = Cli { commands: Commands::Init };
    assert_eq!(cli.match_cmd(), vec![Step::Init]);
}

#[test]
fn match_cmd_checks_init_before_other_commands() {
    let cli = Cli { commands: Commands::Create(CreateArgs::default()) };
    assert_eq!(cli.match_cmd(), vec![Step::InitCheck, Step::Run(CommandKind::Create)]);
    let cli = Cli { commands: Commands::Wasm(WasmArgs { project: None }) };
    assert_eq!(cli.match_cmd(), vec![Step::InitCheck, Step::Run(CommandKind::Wasm)]);
    let cli = Cli { commands: Commands::Pkg };
    assert_eq!(cli.match_cmd(), vec![Step::InitCheck, Step::Run(CommandKind::Pkg)]);
}

#[test]
fn create_args_default_path() {
    assert_eq!(CreateArgs::default().path, ".");
}

#[test]
fn init_check_decides() {
    assert_eq!(check(true), InitStep::CheckUpdate);
    assert_eq!(check(false), InitStep::Init);
}

#[test]
fn uninstall_removes_config_chain_and_executable() {
    assert_eq!(
        uninstall_all("/opt/ract", "/opt/ract/ract"),
        vec![
            Removal::File("/opt/ract/.env".to_string()),
            Removal::Dir("/opt/ract/chain".to_string()),
            Removal::File("/opt/ract/ract".to_string()),
        ]
    );
}

#[test]
fn project_kinds() {
    assert_eq!(project_kind("makepad"), Ok(ProjectKind::Makepad));
    assert_eq!(project_kind("gen_ui"), Ok(ProjectKind::GenUI));
    assert_eq!(project_kind("gen_ui\n"), Err("Invalid project kind".to_string()));
    assert_eq!(project_kind(""), Err("Invalid project kind".to_string()));
}

#[test]
fn packager_options() {
    assert_eq!(packager_option("init"), Ok(PackagerStep::Init));
    assert_eq!(packager_option("skip"), Ok(PackagerStep::Skip));
    assert_eq!(packager_option("other"), Err("Invalid option".to_string()));
}

#[test]
fn install_options() {
    assert_eq!(install_option("gen_components"), Ok(InstallOption::GenComponents));
    assert_eq!(install_option("android_build"), Ok(InstallOption::AndroidBuild));
    assert_eq!(install_option("ios_build"), Ok(InstallOption::IosBuild));
    assert_eq!(install_option("wasm_build"), Ok(InstallOption::WasmBuild));
    assert_eq!(install_option("makepad_studio"), Ok(InstallOption::MakepadStudio));
    assert_eq!(install_option("default"), Ok(InstallOption::Default));
    assert_eq!(install_option("studio"), Err("❌ Invalid option!".to_string()));
}

#[test]
fn get_or_set_answers() {
    assert!(get_or_set("get"));
    assert!(!get_or_set("set"));
}

#[test]
fn same_text_compares_texts() {
    assert!(same_text("赛道", "赛道"));
    assert!(!same_text("a", "ab"));
}

#[test]
fn ports_as_std_reads_them() {
    for text in ["8010", "+80", "0", "65535", "65536", "", "-1", "+", "80a", "00080"] {
        let expected = match text.parse::<u16>() {
            Ok(p) if p != 0 => Ok(p),
            _ => Err("Invalid port!".to_string()),
        };
        assert_eq!(port_of(text), expected, "{}", text);
    }
    assert_eq!(port_of("0"), Err("Invalid port!".to_string()));
    assert_eq!(port_of("000"), Err("Invalid port!".to_string()));
    assert_eq!(port_of("1"), Ok(1));
}

#[test]
fn wasm_target_choice() {
    let named = WasmArgs { project: Some("demo".to_string()) };
    assert_eq!(named.target(false), WasmTarget::Project("demo".to_string()));
    let unnamed = WasmArgs { project: None };
    assert_eq!(unnamed.target(true), WasmTarget::FromMarker);
    assert_eq!(unnamed.target(false), WasmTarget::NoMarker);
}

const CARGO: &str = r#"[package]
name = "hello"
version = "0.1.0"
authors = ["Ann", "Bob"]
description = "a demo"

[dependencies]
makepad-widgets = { path = "../makepad/widgets" }
"#;

#[test]
fn run_wasm_reads_package_name() {
    assert_eq!(run_wasm("makepad", CARGO), Ok("hello".to_string()));
    assert_eq!(run_wasm("gen_ui", CARGO), Err("Invalid project kind".to_string()));
    assert!(run_wasm("makepad", "[package").is_err());
}

#[test]
fn try_run_wasm_refuses_nameless_package() {
    assert_eq!(try_run_wasm("makepad", "[package]\nversion = \"1\"\n"), None);
    assert_eq!(try_run_wasm("makepad", "[package]\nname = 3\n"), None);
    assert_eq!(try_run_wasm("makepad", CARGO), Some(Ok("hello".to_string())));
    assert!(matches!(try_run_wasm("makepad", "= broken"), Some(Err(_))));
}

#[test]
fn read_package_fields() {
    let p = read_package(CARGO).unwrap();
    assert_eq!(p.name, "hello");
    assert_eq!(p.version, "0.1.0");
    assert_eq!(p.authors, Some(vec!["Ann".to_string(), "Bob".to_string()]));
    assert_eq!(p.description, Some("a demo".to_string()));
}

#[test]
fn read_package_without_authors_and_string_description() {
    let text = "[package]\nname = \"x\"\nversion = \"2\"\ndescription = 5\n";
    let p = try_read_package(text).unwrap().unwrap();
    assert_eq!(p.authors, None);
    assert_eq!(p.description, None);
}

#[test]
fn read_package_refuses_what_cannot_be_read() {
    assert!(try_read_package("[package]\nname = \"x\"\nversion = \"2\"\n").is_none());
    assert!(try_read_package("[package]\nname = \"x\"\nversion = \"2\"\nauthors = [1]\ndescription = \"d\"\n").is_none());
    assert!(try_read_package("[package]\nversion = \"2\"\ndescription = \"d\"\n").is_none());
    assert!(matches!(try_read_package("[package"), Some(Err(_))));
}

#[test]
fn package_configuration() {
    assert_eq!(default_identifier("hello"), "com.hello");
    let package = CargoPackage {
        name: "hello".to_string(),
        version: "0.1.0".to_string(),
        authors: None,
        description: Some("d".to_string()),
    };
    let answers = PackageAnswers {
        product_name: "Hello".to_string(),
        identifier: "com.hello".to_string(),
        license: Some("./LICENSE".to_string()),
        publisher: None,
        copyright: Some("Copyright 2025, Ann".to_string()),
        homepage: None,
    };
    let conf = package_conf(package, answers);
    assert_eq!(conf.name, "hello");
    assert_eq!(conf.product_name, "Hello");
    assert_eq!(conf.description, Some("d".to_string()));
    assert_eq!(conf.long_description, Some("d".to_string()));
    assert_eq!(conf.license, Some("./LICENSE".to_string()));
    assert_eq!(conf.copyright, Some("Copyright 2025, Ann".to_string()));
    assert_eq!(conf.publisher, None);
}

#[test]
fn makepad_widgets_dependency_is_rewritten() {
    let out = point_makepad_widgets(CARGO, "/opt/makepad/widgets").unwrap();
    let doc: toml_edit::DocumentMut = out.parse().unwrap();
    assert_eq!(doc["dependencies"]["makepad-widgets"].as_str(), Some("/opt/makepad/widgets"));
    assert_eq!(doc["package"]["name"].as_str(), Some("hello"));
    let added = point_makepad_widgets("[package]\nname = \"a\"\n", "/p").unwrap();
    let doc: toml_edit::DocumentMut = added.parse().unwrap();
    assert_eq!(doc["dependencies"]["makepad-widgets"].as_str(), Some("/p"));
    assert_eq!(try_point_makepad_widgets("dependencies = 3\n", "/p"), None);
    assert!(matches!(try_point_makepad_widgets("[x", "/p"), Some(Err(_))));
}

#[test]
fn workspace_detection() {
    let ws = Some("[workspace]\nmembers = []\n".to_string());
    let plain = Some("[package]\nname = \"a\"\n".to_string());
    assert!(is_workspace(&vec![ws.clone(), None]));
    assert!(is_workspace(&vec![plain.clone(), ws.clone()]));
    assert!(!is_workspace(&vec![plain.clone(), plain.clone(), ws.clone()]));
    assert!(!is_workspace(&vec![None, ws.clone()]));
    assert!(!is_workspace(&vec![Some("[broken".to_string()), ws.clone()]));
    assert!(!is_workspace(&vec![plain.clone()]));
    assert!(!is_workspace(&vec![]));
}

#[test]
fn dependency_lines() {
    assert_eq!(dependency_text("makepad-widgets", "/a"), "makepad-widgets = \"/a\"");
    let found = TomlStr::Found("/tmp".to_string());
    assert_eq!(
        dependency_found("makepad-widgets", &found, true),
        Some("makepad-widgets = \"/tmp\"".to_string())
    );
    assert_eq!(dependency_found("makepad-widgets", &found, false), None);
    assert_eq!(dependency_found("makepad-widgets", &TomlStr::Found(String::new()), true), None);
    assert_eq!(dependency_found("makepad-widgets", &TomlStr::NotString, true), None);
    assert_eq!(dependency_found("makepad-widgets", &TomlStr::Missing, true), None);
    // a quote inside the path breaks the dependency line
    assert_eq!(dependency_found("makepad-widgets", &TomlStr::Found("a\"b".to_string()), true), None);
}

#[test]
fn current_states_of_chain_env() {
    let chain = "[dependencies]\nmakepad-widgets = \"/nonexistent/makepad/widgets\"\ngen_components = \"\"\n";
    let tools = current_states(chain);
    match tools.underlayer {
        UnderlayerTools::Makepad(m) => {
            assert!(!m.makepad);
            assert!(!m.gen_ui);
        }
    }
    assert!(!tools.underlayer.makepad_is_ok());
    let chain = "[dependencies]\nmakepad-widgets = \"/\"\ngen_components = \"/\"\n".to_string();
    let tools = try_current_states(&chain).unwrap();
    assert_eq!(tools.underlayer, UnderlayerTools::Makepad(MakepadTools { makepad: true, gen_ui: true }));
}

#[test]
fn current_states_refuses_unreadable_chain_env() {
    assert!(try_current_states("[dependencies]\nmakepad-widgets = \"/a\"\n").is_none());
    assert!(try_current_states("[dependencies").is_none());
    assert!(try_current_states("").is_none());
}

#[test]
fn tools_ok_needs_everything() {
    let all = Tools {
        basic: BasicTools { rustc: true, cargo: true, git: true },
        underlayer: UnderlayerTools::Makepad(MakepadTools { makepad: true, gen_ui: true }),
    };
    assert!(all.is_ok());
    let no_git = Tools { basic: BasicTools { rustc: true, cargo: true, git: false }, ..all };
    assert!(!no_git.is_ok());
    let no_gen = Tools {
        underlayer: UnderlayerTools::Makepad(MakepadTools { makepad: true, gen_ui: false }),
        ..all
    };
    assert!(!no_gen.is_ok());
    assert!(no_gen.underlayer.makepad_is_ok());
}

#[test]
fn makepad_sources_report() {
    let chain = "[dependencies]\nmakepad-widgets = \"/\"\ngen_components = \"/nonexistent/gen\"\n";
    let found = check_makepad(chain);
    assert_eq!(found, (Some("makepad-widgets = \"/\"".to_string()), None));
    assert_eq!(
        makepad_report(found),
        vec![
            DependencyReport::Ready("makepad-widgets = \"/\"".to_string()),
            DependencyReport::NotFound("gen_components".to_string()),
        ]
    );
    assert_eq!(try_check_makepad("[dependencies]\ngen_components = 1\n"), None);
    assert_eq!(
        try_check_makepad("[dependencies]\nmakepad-widgets = 1\ngen_components = \"\"\n"),
        Some((None, None))
    );
}

#[test]
fn makepad_update_decision() {
    assert_eq!(update_makepad(true, true), MakepadUpdate::AskUpdate);
    assert_eq!(update_makepad(true, false), MakepadUpdate::CargoMakepadMissing);
    assert_eq!(update_makepad(false, true), MakepadUpdate::Install);
    assert_eq!(update_makepad(false, false), MakepadUpdate::Install);
}

#[test]
fn dependency_paths_of_chain_env() {
    let chain = "[dependencies]\nmakepad-widgets = \"/m/widgets\"\ngen_components = { path = \"/g\" }\n";
    assert_eq!(dependency_path(chain, "makepad-widgets"), Some("/m/widgets".to_string()));
    assert_eq!(dependency_path(chain, "gen_components"), None);
    assert_eq!(dependency_path(chain, "other"), None);
    assert_eq!(dependency_path("[x", "makepad-widgets"), None);
}

#[test]
fn plugins_are_registered() {
    assert_eq!(plugin_path("gen_makepad_http"), ".plugins/gen_makepad_http");
    let out = register_plugin("[compiler]\ntarget = \"makepad\"\n", "http").unwrap();
    let doc: toml_edit::DocumentMut = out.parse().unwrap();
    assert_eq!(doc["plugins"]["http"].as_str(), Some(".plugins/http"));
    assert_eq!(doc["compiler"]["target"].as_str(), Some("makepad"));
    assert!(register_plugin("plugins = 1\n", "http").is_err());
    assert!(register_plugin("[plugins", "http").is_err());
}

#[test]
fn tools_from_what_was_found() {
    let t = tools_from(true, false, true, &(Some("makepad-widgets = \"/m\"".to_string()), None));
    assert_eq!(t.basic, BasicTools { rustc: true, cargo: false, git: true });
    assert_eq!(t.underlayer, UnderlayerTools::Makepad(MakepadTools { makepad: true, gen_ui: false }));
    assert!(!t.is_ok());
}

#[test]
fn packager_toml_holds_the_configuration() {
    let mut conf = PackageConf::new(
        "hello".to_string(),
        "0.1.0".to_string(),
        "Hello".to_string(),
        "com.hello".to_string(),
        Some(vec!["Ann".to_string(), "Bob".to_string()]),
        Some("./LICENSE".to_string()),
    );
    conf.homepage = Some("https://example.org".to_string());
    let text = packager_toml(&conf).unwrap();
    let doc: toml_edit::DocumentMut = text.parse().unwrap();
    assert_eq!(doc["name"].as_str(), Some("hello"));
    assert_eq!(doc["version"].as_str(), Some("0.1.0"));
    assert_eq!(doc["product-name"].as_str(), Some("Hello"));
    assert_eq!(doc["identifier"].as_str(), Some("com.hello"));
    assert_eq!(doc["license-file"].as_str(), Some("./LICENSE"));
    assert_eq!(doc["homepage"].as_str(), Some("https://example.org"));
    assert!(doc.get("publisher").is_none());
    let authors: Vec<&str> = doc["authors"].as_array().unwrap().iter().map(|v| v.as_str().unwrap()).collect();
    assert_eq!(authors, vec!["Ann", "Bob"]);
}
