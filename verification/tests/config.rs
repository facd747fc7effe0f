use waysight::config::load::{
    accept_generated, default_contents, generate_config, parse, parse_text, FileProbe,
    LoadAction, LoadState,
};
use waysight::config::paths::{config_path, join, ConfigEnv};
use waysight::config::schema::{document_of, read_settings, SchemaFault};
use waysight::config::{
    default_layout, default_num_workspaces, default_variant, ConfigError, InputConfig,
    WaysightConfig,
};

fn env(xdg: Option<&str>, home: Option<&str>) -> ConfigEnv {
    ConfigEnv {
        xdg_config_home: xdg.map(|s| s.to_string()),
        home: home.map(|s| s.to_string()),
    }
}

fn malformed(r: Result<WaysightConfig, ConfigError>) -> String {
    match r {
        Err(ConfigError::MalformedConfig(m)) => m,
        Err(other) => panic!("unexpected error: {}", other.message()),
        Ok(_) => panic!("unexpected success"),
    }
}

#[test]
fn defaults_are_ten_workspaces_and_us_layout() {
    assert_eq!(default_num_workspaces(), 10);
    assert_eq!(default_layout(), "us");
    assert_eq!(default_variant(), "");
    let config = WaysightConfig::default();
    assert_eq!(config.workspaces, 10);
    assert_eq!(config.input.keyboard_layout, "us");
    assert_eq!(config.input.keyboard_variant, "");
}

#[test]
fn user_path_wins_over_environment() {
    let user = Some("/tmp/my.toml".to_string());
    let path = config_path(&user, &env(Some("/xdg"), Some("/home/u"))).ok().unwrap();
    assert_eq!(path, "/tmp/my.toml");
}

#[test]
fn xdg_config_home_wins_over_home() {
    let path = config_path(&None, &env(Some("/xdg"), Some("/home/u"))).ok().unwrap();
    assert_eq!(path, "/xdg/waysight/config.toml");
}

#[test]
fn home_is_the_last_resort() {
    let path = config_path(&None, &env(None, Some("/home/u"))).ok().unwrap();
    assert_eq!(path, "/home/u/.config/waysight/config.toml");
}

#[test]
fn no_path_without_user_choice_or_environment() {
    assert!(matches!(config_path(&None, &env(None, None)), Err(ConfigError::InvalidPath)));
}

#[test]
fn join_adds_one_separator_where_needed() {
    assert_eq!(join("/a", "b/c"), "/a/b/c");
    assert_eq!(join("/a/", "b/c"), "/a/b/c");
    assert_eq!(join("", "b/c"), "b/c");
    assert_eq!(join("/", "b"), "/b");
}

#[test]
fn join_agrees_with_std_paths() {
    for base in ["/a", "/a/", "", "/", "rel", "rel/"] {
        let expected = std::path::Path::new(base).join("waysight/config.toml");
        assert_eq!(join(base, "waysight/config.toml"), expected.to_str().unwrap());
    }
}

#[test]
fn parse_text_reads_all_three_values() {
    let text = "workspaces = 4\n\n[input]\nkeyboard_layout = \"de\"\nkeyboard_variant = \"nodeadkeys\"\n";
    let config = parse_text(text).ok().unwrap();
    assert_eq!(config.workspaces, 4);
    assert_eq!(config.input.keyboard_layout, "de");
    assert_eq!(config.input.keyboard_variant, "nodeadkeys");
}

#[test]
fn parse_text_fills_in_defaults() {
    let config = parse_text("[input]\n").ok().unwrap();
    assert_eq!(config.workspaces, 10);
    assert_eq!(config.input.keyboard_layout, "us");
    assert_eq!(config.input.keyboard_variant, "");
}

#[test]
fn parse_text_reads_inline_input_table() {
    let config = parse_text("workspaces = 0\ninput = { keyboard_layout = \"fr\" }\n").ok().unwrap();
    assert_eq!(config.workspaces, 0);
    assert_eq!(config.input.keyboard_layout, "fr");
}

#[test]
fn parse_text_passes_over_unknown_keys() {
    let config = parse_text("theme = \"dark\"\n[input]\nrepeat = 3\n[other]\nx = 1.5\n").ok().unwrap();
    assert_eq!(config.workspaces, 10);
}

#[test]
fn parse_text_takes_the_largest_workspace_count() {
    let config = parse_text("workspaces = 4294967295\n[input]\n").ok().unwrap();
    assert_eq!(config.workspaces, u32::MAX);
}

#[test]
fn parse_text_refuses_what_is_not_toml() {
    let message = malformed(parse_text("workspaces = = 3"));
    assert!(!message.is_empty());
    assert_ne!(message, "workspaces = = 3");
}

#[test]
fn empty_file_holds_the_defaults() {
    for text in ["", "\n", "# nothing here\n"] {
        let config = parse_text(text).ok().unwrap();
        assert_eq!(config.workspaces, 10);
        assert_eq!(config.input.keyboard_layout, "us");
        assert_eq!(config.input.keyboard_variant, "");
    }
}

#[test]
fn missing_input_table_reads_as_empty() {
    let config = parse_text("workspaces = 3\n").ok().unwrap();
    assert_eq!(config.workspaces, 3);
    assert_eq!(config.input.keyboard_layout, "us");
    assert_eq!(config.input.keyboard_variant, "");
}

#[test]
fn empty_file_at_the_user_path_loads_as_defaults() {
    let user = Some("/tmp/empty.toml".to_string());
    let config = parse(&user, &env(None, None), FileProbe::Content(String::new())).ok().unwrap();
    assert_eq!(config.workspaces, 10);
    assert_eq!(config.input.keyboard_layout, "us");
    assert_eq!(config.input.keyboard_variant, "");
}

#[test]
fn parse_text_refuses_input_that_is_no_table() {
    assert_eq!(malformed(parse_text("input = 3\n")), SchemaFault::InputKind.message());
    assert_eq!(malformed(parse_text("input = [\"us\"]\n")), SchemaFault::InputKind.message());
}

#[test]
fn parse_text_refuses_workspaces_of_another_kind() {
    assert_eq!(
        malformed(parse_text("workspaces = \"ten\"\n[input]\n")),
        SchemaFault::WorkspacesKind.message()
    );
    assert_eq!(
        malformed(parse_text("workspaces = 2.5\n[input]\n")),
        SchemaFault::WorkspacesKind.message()
    );
}

#[test]
fn parse_text_refuses_workspaces_out_of_range() {
    assert_eq!(
        malformed(parse_text("workspaces = -1\n[input]\n")),
        SchemaFault::WorkspacesRange.message()
    );
    assert_eq!(
        malformed(parse_text("workspaces = 4294967296\n[input]\n")),
        SchemaFault::WorkspacesRange.message()
    );
}

#[test]
fn parse_text_refuses_layout_and_variant_of_another_kind() {
    assert_eq!(
        malformed(parse_text("[input]\nkeyboard_layout = 1\n")),
        SchemaFault::LayoutKind.message()
    );
    assert_eq!(
        malformed(parse_text("[input]\nkeyboard_variant = true\n")),
        SchemaFault::VariantKind.message()
    );
}

#[test]
fn workspaces_fault_is_reported_before_input_fault() {
    assert_eq!(
        malformed(parse_text("workspaces = \"x\"\ninput = 1\n")),
        SchemaFault::WorkspacesKind.message()
    );
}

#[test]
fn parse_maps_each_probe_to_its_outcome() {
    let e = env(None, Some("/home/u"));
    assert!(matches!(parse(&None, &e, FileProbe::Missing), Err(ConfigError::InvalidPath)));
    match parse(&None, &e, FileProbe::Unreadable("permission denied".to_string())) {
        Err(ConfigError::IOError(m)) => assert_eq!(m, "permission denied"),
        _ => panic!("expected an IO error"),
    }
    let ok = parse(&None, &e, FileProbe::Content("workspaces = 7\n[input]\n".to_string()));
    assert_eq!(ok.ok().unwrap().workspaces, 7);
    assert!(matches!(
        parse(&None, &e, FileProbe::Content("[[[".to_string())),
        Err(ConfigError::MalformedConfig(_))
    ));
}

#[test]
fn parse_without_any_path_is_invalid_path() {
    let r = parse(&None, &env(None, None), FileProbe::Content("[input]\n".to_string()));
    assert!(matches!(r, Err(ConfigError::InvalidPath)));
}

#[test]
fn error_messages() {
    assert_eq!(ConfigError::InvalidPath.message(), "Could not find a valid config file");
    assert_eq!(
        ConfigError::MalformedConfig("bad".to_string()).message(),
        "Malformed config file: `bad`"
    );
    assert_eq!(ConfigError::IOError("gone".to_string()).message(), "IO error occurred: `gone`");
}

#[test]
fn default_contents_round_trip() {
    let text = default_contents().ok().unwrap();
    assert!(text.contains("workspaces = 10"));
    assert!(text.contains("[input]"));
    assert!(text.contains("keyboard_layout = \"us\""));
    let config = parse_text(&text).ok().unwrap();
    assert_eq!(config.workspaces, 10);
    assert_eq!(config.input.keyboard_layout, "us");
    assert_eq!(config.input.keyboard_variant, "");
}

#[test]
fn written_workspaces_are_read_back() {
    for n in [0u32, 1, 9, 10, 11, 4096, u32::MAX] {
        let text = format!("workspaces = {}\n\n[input]\nkeyboard_layout = \"us\"\n", n);
        assert_eq!(parse_text(&text).ok().unwrap().workspaces, n);
    }
}

#[test]
fn accept_generated_checks_what_it_is_given() {
    assert!(accept_generated(Ok("[input]\n".to_string())).is_ok());
    assert!(matches!(
        accept_generated(Ok("workspaces = 3\n[input]\n".to_string())),
        Err(ConfigError::MalformedConfig(_))
    ));
    assert!(matches!(
        accept_generated(Ok("[input]\nkeyboard_layout = \"de\"\n".to_string())),
        Err(ConfigError::MalformedConfig(_))
    ));
    match accept_generated(Err("writer failed".to_string())) {
        Err(ConfigError::MalformedConfig(m)) => assert_eq!(m, "writer failed"),
        _ => panic!("expected the writer's message"),
    }
}

#[test]
fn generate_config_names_the_resolved_path() {
    let g = generate_config(&None, &env(Some("/xdg"), None)).ok().unwrap();
    assert_eq!(g.path, "/xdg/waysight/config.toml");
    assert_eq!(parse_text(&g.contents).ok().unwrap().workspaces, 10);
    assert!(matches!(generate_config(&None, &env(None, None)), Err(ConfigError::InvalidPath)));
}

#[test]
fn generate_config_prefers_xdg_over_home() {
    let g = generate_config(&None, &env(Some("/x"), Some("/h"))).ok().unwrap();
    assert_eq!(g.path, "/x/waysight/config.toml");
    assert_eq!(g.contents, default_contents().ok().unwrap());
}

#[test]
fn generate_config_falls_back_to_home() {
    let g = generate_config(&None, &env(None, Some("/h"))).ok().unwrap();
    assert_eq!(g.path, "/h/.config/waysight/config.toml");
    assert_eq!(g.contents, default_contents().ok().unwrap());
}

#[test]
fn generate_config_takes_the_user_path_as_it_is() {
    let user = Some("/srv/ws/my.toml".to_string());
    let g = generate_config(&user, &env(Some("/x"), Some("/h"))).ok().unwrap();
    assert_eq!(g.path, "/srv/ws/my.toml");
    let config = parse_text(&g.contents).ok().unwrap();
    assert_eq!(config.workspaces, 10);
    assert_eq!(config.input.keyboard_layout, "us");
    assert_eq!(config.input.keyboard_variant, "");
}

#[test]
fn default_contents_are_the_writers_text_of_the_defaults() {
    let text = default_contents().ok().unwrap();
    let written = toml::to_string_pretty(&document_of(&WaysightConfig::default())).unwrap();
    assert_eq!(text, written);
    assert_eq!(text, "workspaces = 10\n\n[input]\nkeyboard_layout = \"us\"\nkeyboard_variant = \"\"\n");
}

#[test]
fn missing_file_is_generated_once_and_then_loaded() {
    let e = env(None, Some("/home/u"));
    let (state, action) = WaysightConfig::load_config(LoadState::Start, &None, &e, FileProbe::Missing);
    assert_eq!(state, LoadState::Generated);
    let generated = match action {
        LoadAction::WriteDefault(g) => g,
        _ => panic!("expected a default file"),
    };
    assert_eq!(generated.path, "/home/u/.config/waysight/config.toml");
    let contents = generated.contents;
    let (state, action) = WaysightConfig::load_config(
        state,
        &None,
        &e,
        FileProbe::Content(contents.clone()),
    );
    assert_eq!(state, LoadState::Generated);
    match action {
        LoadAction::Use(config) => {
            assert_eq!(config.workspaces, 10);
            assert_eq!(config.input.keyboard_layout, "us");
        }
        _ => panic!("expected the settings"),
    }
    // A later run finds the file and writes nothing.
    let (state, action) =
        WaysightConfig::load_config(LoadState::Start, &None, &e, FileProbe::Content(contents));
    assert_eq!(state, LoadState::Start);
    assert!(matches!(action, LoadAction::Use(_)));
}

#[test]
fn file_still_missing_after_writing_stops_startup() {
    let e = env(None, Some("/home/u"));
    let (state, action) =
        WaysightConfig::load_config(LoadState::Generated, &None, &e, FileProbe::Missing);
    assert_eq!(state, LoadState::Generated);
    assert!(matches!(action, LoadAction::Abort(ConfigError::InvalidPath)));
}

#[test]
fn malformed_file_is_never_repaired() {
    let e = env(None, Some("/home/u"));
    let (state, action) = WaysightConfig::load_config(
        LoadState::Start,
        &None,
        &e,
        FileProbe::Content("workspaces = []".to_string()),
    );
    assert_eq!(state, LoadState::Start);
    assert!(matches!(action, LoadAction::Abort(ConfigError::MalformedConfig(_))));
    let (_, action) = WaysightConfig::load_config(
        LoadState::Start,
        &None,
        &e,
        FileProbe::Unreadable("denied".to_string()),
    );
    assert!(matches!(action, LoadAction::Abort(ConfigError::IOError(_))));
}

#[test]
fn no_path_at_all_stops_startup() {
    let (state, action) =
        WaysightConfig::load_config(LoadState::Start, &None, &env(None, None), FileProbe::Missing);
    assert_eq!(state, LoadState::Start);
    assert!(matches!(action, LoadAction::Abort(ConfigError::InvalidPath)));
}

#[test]
fn document_of_writes_what_read_settings_reads() {
    let config = WaysightConfig {
        workspaces: 3,
        input: InputConfig {
            keyboard_layout: "gb".to_string(),
            keyboard_variant: "dvorak".to_string(),
        },
    };
    let doc = document_of(&config);
    assert_eq!(doc.len(), 2);
    assert_eq!(doc.get("workspaces"), Some(&toml::Value::Integer(3)));
    let input = doc.get("input").and_then(|v| v.as_table()).unwrap();
    assert_eq!(input.len(), 2);
    assert_eq!(input.get("keyboard_layout"), Some(&toml::Value::String("gb".to_string())));
    assert_eq!(input.get("keyboard_variant"), Some(&toml::Value::String("dvorak".to_string())));
    let read = read_settings(&doc).ok().unwrap();
    assert_eq!(read.workspaces, 3);
    assert_eq!(read.input.keyboard_layout, "gb");
    assert_eq!(read.input.keyboard_variant, "dvorak");
}

#[test]
fn read_settings_on_tables_built_by_hand() {
    let mut doc = toml::Table::new();
    assert_eq!(read_settings(&doc).ok().unwrap().workspaces, 10);
    assert_eq!(read_settings(&doc).ok().unwrap().input.keyboard_layout, "us");
    doc.insert("input".to_string(), toml::Value::Table(toml::Table::new()));
    assert_eq!(read_settings(&doc).ok().unwrap().workspaces, 10);
    doc.insert("workspaces".to_string(), toml::Value::Boolean(true));
    assert_eq!(read_settings(&doc).err(), Some(SchemaFault::WorkspacesKind));
    doc.insert("workspaces".to_string(), toml::Value::Integer(i64::MAX));
    assert_eq!(read_settings(&doc).err(), Some(SchemaFault::WorkspacesRange));
    doc.insert("workspaces".to_string(), toml::Value::Integer(12));
    doc.insert("input".to_string(), toml::Value::Array(vec![]));
    assert_eq!(read_settings(&doc).err(), Some(SchemaFault::InputKind));
}
