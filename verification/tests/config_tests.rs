use linear_cli::config::{
    env_api_key, get_api_key, has_workspace, load_config, mask_key, set_api_key, show_config,
    workspace_add, workspace_current, workspace_key, workspace_list, workspace_remove,
    workspace_switch, Config, ConfigError, Workspace,
};

fn workspace(name: &str, api_key: &str) -> Workspace {
    Workspace { name: name.to_string(), api_key: api_key.to_string() }
}

fn registry(current: Option<&str>, workspaces: Vec<(&str, &str)>) -> Config {
    Config {
        current: current.map(|s| s.to_string()),
        workspaces: workspaces.into_iter().map(|(n, k)| workspace(n, k)).collect(),
        api_key: None,
    }
}

fn lines(texts: Vec<&str>) -> Vec<String> {
    texts.into_iter().map(|s| s.to_string()).collect()
}

#[test]
fn first_workspace_becomes_current() {
    let mut config = Config::default();
    let shown = workspace_add(&mut config, "work", "key123");
    assert_eq!(
        shown,
        Ok(lines(vec!["Workspace 'work' added successfully!", "Switched to workspace 'work'"]))
    );
    assert_eq!(config.current, Some("work".to_string()));
    assert_eq!(get_api_key(None, &config), Ok("key123".to_string()));
}

#[test]
fn removing_the_current_workspace_moves_to_one_that_is_left() {
    let mut config = Config::default();
    workspace_add(&mut config, "a", "k1").unwrap();
    let shown = workspace_add(&mut config, "b", "k2");
    assert_eq!(shown, Ok(lines(vec!["Workspace 'b' added successfully!"])));
    assert_eq!(config.current, Some("a".to_string()));
    let shown = workspace_remove(&mut config, "a");
    assert_eq!(shown, Ok(lines(vec!["Switched to workspace 'b'", "Workspace 'a' removed."])));
    assert_eq!(config.current, Some("b".to_string()));
    assert_eq!(config, registry(Some("b"), vec![("b", "k2")]));
    assert_eq!(get_api_key(None, &config), Ok("k2".to_string()));
}

#[test]
fn switching_to_a_missing_workspace_is_refused() {
    let mut config = registry(Some("a"), vec![("a", "k1"), ("b", "k2")]);
    let result = workspace_switch(&mut config, "missing");
    assert_eq!(result, Err(ConfigError::UnknownWorkspace { name: "missing".to_string() }));
    assert_eq!(
        result.unwrap_err().message(),
        "Workspace 'missing' not found. Use 'workspace list' to see available workspaces."
    );
    assert_eq!(config, registry(Some("a"), vec![("a", "k1"), ("b", "k2")]));
}

#[test]
fn keys_are_masked_when_longer_than_twelve_characters() {
    assert_eq!(mask_key("lin_api_1234567890ab"), "lin_api_...90ab");
    assert_eq!(mask_key("0123456789"), "0123456789");
    assert_eq!(mask_key("0123456789ab"), "0123456789ab");
    assert_eq!(mask_key("0123456789abc"), "01234567...9abc");
    assert_eq!(mask_key(""), "");
    assert_eq!(mask_key("äöüßäöüßäöüßxyz"), "äöüßäöüß...ßxyz");
}

#[test]
fn adding_an_existing_workspace_is_refused() {
    let mut config = registry(Some("a"), vec![("a", "k1")]);
    let result = workspace_add(&mut config, "a", "other");
    assert_eq!(result, Err(ConfigError::WorkspaceExists { name: "a".to_string() }));
    assert_eq!(
        result.unwrap_err().message(),
        "Workspace 'a' already exists. Use 'workspace remove' first to replace it."
    );
    assert_eq!(config, registry(Some("a"), vec![("a", "k1")]));
}

#[test]
fn adding_keeps_the_current_workspace() {
    let mut config = registry(Some("a"), vec![("a", "k1")]);
    assert_eq!(
        workspace_add(&mut config, "b", "k2"),
        Ok(lines(vec!["Workspace 'b' added successfully!"]))
    );
    assert_eq!(config, registry(Some("a"), vec![("a", "k1"), ("b", "k2")]));
}

#[test]
fn adding_the_workspace_that_current_names_reports_the_switch() {
    let mut config = registry(Some("ghost"), vec![("a", "k1")]);
    assert_eq!(
        workspace_add(&mut config, "ghost", "k9"),
        Ok(lines(vec![
            "Workspace 'ghost' added successfully!",
            "Switched to workspace 'ghost'"
        ]))
    );
    assert_eq!(config, registry(Some("ghost"), vec![("a", "k1"), ("ghost", "k9")]));
}

#[test]
fn switching_sets_the_current_workspace() {
    let mut config = registry(Some("a"), vec![("a", "k1"), ("b", "k2")]);
    assert_eq!(
        workspace_switch(&mut config, "b"),
        Ok(lines(vec!["Switched to workspace 'b'"]))
    );
    assert_eq!(config, registry(Some("b"), vec![("a", "k1"), ("b", "k2")]));
    assert_eq!(get_api_key(None, &config), Ok("k2".to_string()));
}

#[test]
fn removing_a_missing_workspace_is_refused() {
    let mut config = registry(Some("a"), vec![("a", "k1")]);
    let result = workspace_remove(&mut config, "zzz");
    assert_eq!(result, Err(ConfigError::WorkspaceNotFound { name: "zzz".to_string() }));
    assert_eq!(result.unwrap_err().message(), "Workspace 'zzz' not found.");
    assert_eq!(config, registry(Some("a"), vec![("a", "k1")]));
}

#[test]
fn removing_another_workspace_keeps_the_current_one() {
    let mut config = registry(Some("a"), vec![("a", "k1"), ("b", "k2")]);
    assert_eq!(workspace_remove(&mut config, "b"), Ok(lines(vec!["Workspace 'b' removed."])));
    assert_eq!(config, registry(Some("a"), vec![("a", "k1")]));
}

#[test]
fn removing_the_last_workspace_clears_current() {
    let mut config = registry(Some("a"), vec![("a", "k1")]);
    assert_eq!(workspace_remove(&mut config, "a"), Ok(lines(vec!["Workspace 'a' removed."])));
    assert_eq!(config, registry(None, vec![]));
    assert_eq!(get_api_key(None, &config), Err(ConfigError::NoWorkspaceSelected));
}

#[test]
fn removing_takes_out_every_entry_of_the_name() {
    let mut config = registry(Some("a"), vec![("a", "k1"), ("b", "k2"), ("a", "k3")]);
    assert_eq!(workspace_key(&config, "a"), Some("k3".to_string()));
    workspace_remove(&mut config, "a").unwrap();
    assert_eq!(config, registry(Some("b"), vec![("b", "k2")]));
    assert!(!has_workspace(&config, "a"));
}

#[test]
fn environment_key_wins_over_the_registry() {
    let config = registry(Some("a"), vec![("a", "k1")]);
    assert_eq!(get_api_key(Some("from-env".to_string()), &config), Ok("from-env".to_string()));
    assert_eq!(get_api_key(Some(String::new()), &config), Ok("k1".to_string()));
    assert_eq!(get_api_key(None, &config), Ok("k1".to_string()));
    assert_eq!(
        get_api_key(Some("from-env".to_string()), &Config::default()),
        Ok("from-env".to_string())
    );
    assert_eq!(env_api_key(Some("x".to_string())), Some("x".to_string()));
    assert_eq!(env_api_key(Some(String::new())), None);
    assert_eq!(env_api_key(None), None);
}

#[test]
fn resolving_without_a_current_workspace_fails() {
    let config = registry(None, vec![("a", "k1")]);
    let result = get_api_key(None, &config);
    assert_eq!(result, Err(ConfigError::NoWorkspaceSelected));
    assert_eq!(
        result.unwrap_err().message(),
        "No workspace selected. Run: linear workspace add <name>"
    );
    assert_eq!(get_api_key(Some(String::new()), &config), Err(ConfigError::NoWorkspaceSelected));
}

#[test]
fn resolving_with_an_unregistered_current_workspace_fails() {
    let config = registry(Some("gone"), vec![("a", "k1")]);
    let result = get_api_key(None, &config);
    assert_eq!(result, Err(ConfigError::CurrentWorkspaceMissing { name: "gone".to_string() }));
    assert_eq!(
        result.unwrap_err().message(),
        "Workspace 'gone' not found. Run: linear workspace add <name>"
    );
}

#[test]
fn load_without_a_file_gives_the_empty_registry() {
    assert_eq!(load_config(None), (Config::default(), false));
    assert_eq!(Config::default(), registry(None, vec![]));
}

#[test]
fn load_of_a_current_format_changes_nothing() {
    let stored = registry(Some("a"), vec![("a", "k1")]);
    assert_eq!(load_config(Some(stored)), (registry(Some("a"), vec![("a", "k1")]), false));
}

#[test]
fn load_moves_a_legacy_key_to_the_default_workspace() {
    let stored = Config { current: None, workspaces: vec![], api_key: Some("old".to_string()) };
    let (config, migrated) = load_config(Some(stored));
    assert!(migrated);
    assert_eq!(config, registry(Some("default"), vec![("default", "old")]));
    assert_eq!(get_api_key(None, &config), Ok("old".to_string()));
    // A second load of what was stored changes nothing.
    assert_eq!(
        load_config(Some(config)),
        (registry(Some("default"), vec![("default", "old")]), false)
    );
}

#[test]
fn load_keeps_the_current_workspace_when_migrating() {
    let stored = Config {
        current: Some("a".to_string()),
        workspaces: vec![workspace("a", "k1")],
        api_key: Some("old".to_string()),
    };
    assert_eq!(
        load_config(Some(stored)),
        (registry(Some("a"), vec![("a", "k1"), ("default", "old")]), true)
    );
}

#[test]
fn load_drops_a_legacy_key_when_default_exists() {
    let stored = Config {
        current: None,
        workspaces: vec![workspace("default", "kept")],
        api_key: Some("old".to_string()),
    };
    assert_eq!(load_config(Some(stored)), (registry(None, vec![("default", "kept")]), false));
}

#[test]
fn set_api_key_writes_the_current_workspace() {
    let mut config = registry(Some("a"), vec![("a", "k1"), ("b", "k2")]);
    set_api_key(&mut config, "new");
    assert_eq!(config, registry(Some("a"), vec![("a", "new"), ("b", "k2")]));
}

#[test]
fn set_api_key_without_current_writes_default() {
    let mut config = Config::default();
    set_api_key(&mut config, "first");
    assert_eq!(config, registry(Some("default"), vec![("default", "first")]));
    let mut config = registry(None, vec![("default", "old"), ("x", "y")]);
    set_api_key(&mut config, "new");
    assert_eq!(config, registry(Some("default"), vec![("default", "new"), ("x", "y")]));
}

#[test]
fn set_api_key_registers_a_current_workspace_that_was_missing() {
    let mut config = registry(Some("gone"), vec![("a", "k1")]);
    set_api_key(&mut config, "new");
    assert_eq!(config, registry(Some("gone"), vec![("a", "k1"), ("gone", "new")]));
}

#[test]
fn list_shows_marker_name_and_masked_key() {
    let config = registry(
        Some("work"),
        vec![("home", "short"), ("work", "lin_api_1234567890ab")],
    );
    assert_eq!(
        workspace_list(&config),
        lines(vec![
            "Configured workspaces:",
            "",
            "  home (short)",
            "* work (lin_api_...90ab)",
            "",
            "* = current workspace",
        ])
    );
}

#[test]
fn list_of_an_empty_registry() {
    assert_eq!(
        workspace_list(&Config::default()),
        lines(vec!["No workspaces configured. Run: linear workspace add <name>"])
    );
}

#[test]
fn current_shows_name_and_masked_key() {
    let config = registry(Some("work"), vec![("work", "lin_api_1234567890ab")]);
    assert_eq!(
        workspace_current(&config),
        lines(vec!["Current workspace: work", "API Key: lin_api_...90ab"])
    );
    assert_eq!(
        workspace_current(&registry(Some("gone"), vec![])),
        lines(vec!["Current workspace: gone"])
    );
    assert_eq!(
        workspace_current(&Config::default()),
        lines(vec!["No workspace selected. Run: linear workspace add <name>"])
    );
}

#[test]
fn show_config_names_the_file_and_the_current_workspace() {
    let config = registry(Some("work"), vec![("work", "0123456789")]);
    assert_eq!(
        show_config(&config, "/home/u/.config/linear-cli/config.toml"),
        lines(vec![
            "Config file: /home/u/.config/linear-cli/config.toml",
            "",
            "Current workspace: work",
            "API Key: 0123456789",
        ])
    );
    assert_eq!(
        show_config(&Config::default(), "c.toml"),
        lines(vec![
            "Config file: c.toml",
            "",
            "No workspace configured. Run: linear workspace add <name>",
        ])
    );
}

#[test]
fn lookup_by_name() {
    let config = registry(None, vec![("a", "k1"), ("b", "k2")]);
    assert!(has_workspace(&config, "a"));
    assert!(!has_workspace(&config, "A"));
    assert_eq!(workspace_key(&config, "b"), Some("k2".to_string()));
    assert_eq!(workspace_key(&config, "c"), None);
}
