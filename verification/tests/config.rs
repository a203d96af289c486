//! The configuration file and the settings in effect.

use herdr_file_viewer::config::{
    config_path, effective_editor, effective_renderers, load_config, may_read, parse_config,
    resolve, should_start_update_check, Caps, Config, ConfigSource, EffectiveSettings, KeySpec,
    LoadOutcome, TreeIcons, TreePosition, ViewerPaneRatio, DEFAULT_PREVIEW_MAX_KIB,
    DEFAULT_PREVIEW_MAX_LINES, DEFAULT_SCROLL_LINES, DEFAULT_TREE_MAX_COLS, DEFAULT_TREE_WIDTH,
    MAX_PREVIEW_MAX_KIB, MAX_PREVIEW_MAX_LINES, MAX_SCROLL_LINES, MAX_TREE_MAX_COLS,
    MAX_TREE_WIDTH, MIN_PREVIEW_MAX_KIB, MIN_PREVIEW_MAX_LINES, MIN_TREE_MAX_COLS,
    MIN_TREE_WIDTH,
};
use herdr_file_viewer::renderers::{tokenize_command, Renderers};

/// The text of a key.
fn text(table: &toml::Table, key: &str) -> Result<Option<String>, String> {
    match table.get(key) {
        None => Ok(None),
        Some(toml::Value::String(s)) => Ok(Some(s.clone())),
        Some(other) => Err(format!("{key}: {other} is no string")),
    }
}

/// The switch of a key.
fn switch(table: &toml::Table, key: &str) -> Result<Option<bool>, String> {
    match table.get(key) {
        None => Ok(None),
        Some(toml::Value::Boolean(b)) => Ok(Some(*b)),
        Some(other) => Err(format!("{key}: {other} is no switch")),
    }
}

/// The number of a key.
fn number(table: &toml::Table, key: &str) -> Result<Option<u32>, String> {
    match table.get(key) {
        None => Ok(None),
        Some(toml::Value::Integer(n)) => u32::try_from(*n).map(Some).map_err(|e| e.to_string()),
        Some(other) => Err(format!("{key}: {other} is no number")),
    }
}

/// The keys that an action is bound to.
fn key_spec(value: &toml::Value) -> Result<KeySpec, String> {
    match value {
        toml::Value::String(s) => Ok(KeySpec::One(s.clone())),
        toml::Value::Array(list) => {
            let mut keys = Vec::new();
            for item in list {
                keys.push(item.as_str().ok_or("no key")?.to_string());
            }
            Ok(KeySpec::Many(keys))
        }
        other => Err(format!("{other} is no key")),
    }
}

/// Reads a configuration file's text.
fn read(source: &str) -> Result<Config, String> {
    let table = source.parse::<toml::Table>().map_err(|e| e.to_string())?;
    let keys = match table.get("keys") {
        None => None,
        Some(toml::Value::Table(map)) => {
            let mut list = Vec::new();
            for (name, value) in map {
                list.push((name.clone(), key_spec(value)?));
            }
            Some(list)
        }
        Some(other) => return Err(format!("{other} is no table")),
    };
    let ratio = match table.get("viewer_pane_ratio") {
        None => None,
        Some(toml::Value::Float(f)) => Some((f * 1_000_000.0).round() as u32),
        Some(other) => return Err(format!("{other} is no ratio")),
    };
    Ok(Config {
        editor: text(&table, "editor")?,
        markdown: text(&table, "markdown")?,
        diff: text(&table, "diff")?,
        syntax: text(&table, "syntax")?,
        open: text(&table, "open")?,
        reveal: text(&table, "reveal")?,
        hide_dotfiles: switch(&table, "hide_dotfiles")?,
        update_check: switch(&table, "update_check")?,
        confirm_discard: switch(&table, "confirm_discard")?,
        open_workspace_with_viewer: switch(&table, "open_workspace_with_viewer")?,
        viewer_pane_ratio: ratio,
        scroll_lines: number(&table, "scroll_lines")?,
        tree_width: number(&table, "tree_width")?,
        tree_position: text(&table, "tree_position")?,
        tree_max_cols: number(&table, "tree_max_cols")?,
        file_icons: text(&table, "file_icons")?,
        preview_max_lines: number(&table, "preview_max_lines")?,
        preview_max_kib: number(&table, "preview_max_kib")?,
        keys,
    })
}

fn test_base_renderers() -> Renderers {
    Renderers {
        markdown: vec!["glow".to_string(), "-".to_string()],
        diff: vec!["delta".to_string()],
        full_diff: vec!["delta".to_string(), "--line-numbers".to_string()],
        syntax: vec!["bat".to_string(), "-".to_string()],
        timeout_ms: 2000,
    }
}

#[test]
fn config_dir_env_wins() {
    let get = |k: &str| match k {
        "HERDR_PLUGIN_CONFIG_DIR" => Some("/x/cfg".to_string()),
        _ => None,
    };
    assert_eq!(
        config_path(get),
        "/x/cfg/config.toml"
    );
}

#[test]
fn xdg_config_home_fallback_when_config_dir_absent() {
    let get = |k: &str| match k {
        "XDG_CONFIG_HOME" => Some("/x/xdg".to_string()),
        _ => None,
    };
    assert_eq!(
        config_path(get),
        "/x/xdg/advanced-herdr-file-viewer/config.toml"
    );
}

#[test]
fn home_fallback_when_config_dir_and_xdg_absent() {
    let get = |k: &str| match k {
        "HOME" => Some("/home/u".to_string()),
        _ => None,
    };
    assert_eq!(
        config_path(get),
        "/home/u/.config/advanced-herdr-file-viewer/config.toml"
    );
}

#[test]
fn empty_config_dir_falls_through_to_xdg_fallback() {
    let get = |k: &str| match k {
        "HERDR_PLUGIN_CONFIG_DIR" => Some("".to_string()),
        "HOME" => Some("/home/u".to_string()),
        _ => None,
    };
    assert_eq!(
        config_path(get),
        "/home/u/.config/advanced-herdr-file-viewer/config.toml"
    );
}

#[test]
fn partial_input_loads_known_field_ignores_unknown() {
    let (config, outcome) = parse_config(read("editor = \"code --wait\"\nunknown_key = 42\n"));
    assert_eq!(config.editor, Some("code --wait".to_string()));
    assert_eq!(config.markdown, None);
    assert_eq!(config.diff, None);
    assert_eq!(config.syntax, None);
    assert_eq!(config.open, None);
    assert_eq!(config.reveal, None);
    assert_eq!(config.hide_dotfiles, None);
    assert_eq!(config.update_check, None);
    assert_eq!(config.confirm_discard, None);
    assert_eq!(config.scroll_lines, None);
    assert_eq!(outcome, LoadOutcome::Loaded);
}

#[test]
fn invalid_toml_yields_default_and_malformed() {
    let (config, outcome) = parse_config(read("not = = valid ["));
    assert_eq!(config.editor, None);
    match outcome {
        LoadOutcome::Malformed(_) => {}
        other => panic!("expected Malformed, got {other:?}"),
    }
}

#[test]
fn wrong_typed_value_yields_default_and_malformed() {
    let (config, outcome) = parse_config(read("editor = 123\n"));
    assert_eq!(config.editor, None);
    match outcome {
        LoadOutcome::Malformed(_) => {}
        other => panic!("expected Malformed, got {other:?}"),
    }
}

#[test]
fn empty_input_yields_default_and_loaded() {
    let (config, outcome) = parse_config(read(""));
    assert_eq!(config.editor, None);
    assert_eq!(config.markdown, None);
    assert_eq!(config.diff, None);
    assert_eq!(config.syntax, None);
    assert_eq!(config.open, None);
    assert_eq!(config.reveal, None);
    assert_eq!(config.hide_dotfiles, None);
    assert_eq!(config.update_check, None);
    assert_eq!(config.scroll_lines, None);
    assert_eq!(outcome, LoadOutcome::Loaded);
}

#[test]
fn confirm_discard_resolves_config_over_default() {
    let on = resolve(&Config::default(), |_| None);
    assert!(on.confirm_discard, "absent falls back to on");

    let off = resolve(
        &Config {
            confirm_discard: Some(false),
            ..Default::default()
        },
        |_| None,
    );
    assert!(!off.confirm_discard, "an explicit false wins");

    let env_ignored = resolve(&Config::default(), |_| Some("1".to_string()));
    assert!(
        env_ignored.confirm_discard,
        "no environment variable participates in this key"
    );
}

#[test]
fn workspace_viewer_settings_preserve_current_defaults() {
    let effective = resolve(&Config::default(), |_| None);
    assert!(effective.open_workspace_with_viewer);
    assert_eq!(effective.viewer_pane_ratio.viewer_decimal(), "0.200000");
    assert_eq!(
        effective.viewer_pane_ratio.launcher_spec(),
        "0.800000 right 0.300000"
    );
}

#[test]
fn keys_wrong_typed_value_yields_default_and_malformed() {
    let (config, outcome) = parse_config(read("[keys]\nrefresh = 42\n"));
    assert_eq!(config.keys, None);
    match outcome {
        LoadOutcome::Malformed(_) => {}
        other => panic!("expected Malformed, got {other:?}"),
    }
}

#[test]
fn keys_invalid_toml_yields_default_and_malformed() {
    let (config, outcome) = parse_config(read("[keys]\nx = = ["));
    assert_eq!(config.keys, None);
    match outcome {
        LoadOutcome::Malformed(_) => {}
        other => panic!("expected Malformed, got {other:?}"),
    }
}

#[test]
fn tokenize_command_is_reachable_via_crate_path_and_quote_aware() {
    assert_eq!(
        tokenize_command("code --wait"),
        vec!["code", "--wait"]
    );
    assert_eq!(
        tokenize_command("\"/a b/c\" -x"),
        vec!["/a b/c", "-x"]
    );
}

#[test]
fn resolve_config_editor_wins_over_env() {
    let config = Config {
        editor: Some("nano".to_string()),
        ..Default::default()
    };
    let get_env = |k: &str| match k {
        "EDITOR" => Some("vim".to_string()),
        _ => None,
    };
    let effective = resolve(&config, get_env);
    assert_eq!(effective.editor, Some("nano".to_string()));
}

#[test]
fn resolve_config_update_check_wins_over_env() {
    let config = Config {
        update_check: Some(true),
        ..Default::default()
    };
    let get_env = |k: &str| match k {
        "HERDR_FILE_VIEWER_NO_UPDATE_CHECK" => Some("1".to_string()),
        _ => None,
    };
    let effective = resolve(&config, get_env);
    assert!(effective.update_check);
}

#[test]
fn resolve_config_markdown_wins_over_default() {
    let config = Config {
        markdown: Some("mdcat --x".to_string()),
        ..Default::default()
    };
    let effective = resolve(&config, |_| None);
    assert_eq!(
        effective.markdown,
        Some(vec!["mdcat".to_string(), "--x".to_string()])
    );
}

#[test]
fn resolve_env_editor_fallback_when_config_absent() {
    let config = Config::default();
    let get_env = |k: &str| match k {
        "EDITOR" => Some("vim".to_string()),
        _ => None,
    };
    let effective = resolve(&config, get_env);
    assert_eq!(effective.editor, Some("vim".to_string()));
}

#[test]
fn resolve_env_no_update_check_fallback_when_config_absent() {
    let config = Config::default();
    let get_env = |k: &str| match k {
        "HERDR_FILE_VIEWER_NO_UPDATE_CHECK" => Some("1".to_string()),
        _ => None,
    };
    let effective = resolve(&config, get_env);
    assert!(!effective.update_check);
}

#[test]
fn resolve_defaults_when_config_and_env_absent() {
    let config = Config::default();
    let effective = resolve(&config, |_| None);
    assert_eq!(effective.editor, None);
    assert!(effective.update_check);
    assert!(!effective.hide_dotfiles);
    assert!(
        effective.confirm_discard,
        "the quit guard defaults ON: annotations are session-only, so the confirm is the only \
         thing between a stray q and losing the batch"
    );
    assert_eq!(effective.markdown, None);
    assert_eq!(effective.diff, None);
    assert_eq!(effective.syntax, None);
    assert_eq!(effective.open, None);
    assert_eq!(effective.reveal, None);
    assert_eq!(effective.scroll_lines, 3);
}

#[test]
fn resolve_partial_config_only_sets_specified_field() {
    let config = Config {
        editor: Some("code".to_string()),
        ..Default::default()
    };
    let effective = resolve(&config, |_| None);
    assert_eq!(effective.editor, Some("code".to_string()));
    assert!(effective.update_check);
    assert!(!effective.hide_dotfiles);
    assert_eq!(effective.markdown, None);
    assert_eq!(effective.diff, None);
    assert_eq!(effective.syntax, None);
    assert_eq!(effective.open, None);
    assert_eq!(effective.reveal, None);
    assert_eq!(effective.scroll_lines, 3);
}

#[test]
fn resolve_open_tokenizes_to_distinct_argv() {
    let config = Config {
        open: Some("myopen --flag a".to_string()),
        ..Default::default()
    };
    let effective = resolve(&config, |_| None);
    assert_eq!(
        effective.open,
        Some(vec![
            "myopen".to_string(),
            "--flag".to_string(),
            "a".to_string()
        ])
    );
}

#[test]
fn resolve_reveal_tokenizes_quoted_path() {
    let config = Config {
        reveal: Some("\"/a b/c\" -R".to_string()),
        ..Default::default()
    };
    let effective = resolve(&config, |_| None);
    assert_eq!(
        effective.reveal,
        Some(vec!["/a b/c".to_string(), "-R".to_string()])
    );
}

#[test]
fn resolve_empty_string_editor_env_treated_as_absent() {
    let config = Config::default();
    let get_env = |k: &str| match k {
        "EDITOR" => Some("".to_string()),
        _ => None,
    };
    let effective = resolve(&config, get_env);
    assert_eq!(effective.editor, None);
}

#[test]
fn scroll_lines_valid_value_parses() {
    let (config, outcome) = parse_config(read("scroll_lines = 5\n"));
    assert_eq!(config.scroll_lines, Some(5));
    assert_eq!(outcome, LoadOutcome::Loaded);
}

#[test]
fn preview_cap_keys_parse_from_toml() {
    let (config, outcome) = parse_config(read("preview_max_lines = 20000\npreview_max_kib = 4096\n"));
    assert_eq!(config.preview_max_lines, Some(20000));
    assert_eq!(config.preview_max_kib, Some(4096));
    assert_eq!(outcome, LoadOutcome::Loaded);
}

#[test]
fn resolve_scroll_lines_config_value_wins() {
    let config = Config {
        scroll_lines: Some(5),
        ..Default::default()
    };
    let effective = resolve(&config, |_| None);
    assert_eq!(effective.scroll_lines, 5);
}

#[test]
fn resolve_scroll_lines_defaults_when_absent() {
    let effective = resolve(&Config::default(), |_| None);
    assert_eq!(effective.scroll_lines, DEFAULT_SCROLL_LINES);
    assert_eq!(effective.scroll_lines, 3);
}

#[test]
fn resolve_scroll_lines_zero_clamps_to_one() {
    let config = Config {
        scroll_lines: Some(0),
        ..Default::default()
    };
    let effective = resolve(&config, |_| None);
    assert_eq!(effective.scroll_lines, 1);
}

#[test]
fn resolve_scroll_lines_clamps_to_max() {
    assert_eq!(MAX_SCROLL_LINES, 10);
    for over in [11u32, 1000, 100_000, u32::MAX] {
        let cfg = Config {
            scroll_lines: Some(over),
            ..Default::default()
        };
        assert_eq!(
            resolve(&cfg, |_| None).scroll_lines,
            MAX_SCROLL_LINES,
            "value {over} must clamp to the max"
        );
    }
    let at_max = Config {
        scroll_lines: Some(MAX_SCROLL_LINES as u32),
        ..Default::default()
    };
    assert_eq!(resolve(&at_max, |_| None).scroll_lines, MAX_SCROLL_LINES);
}

#[test]
fn scroll_lines_non_representable_degrades_to_default() {
    let (config, outcome) = parse_config(read("scroll_lines = -1\n"));
    assert_eq!(config.scroll_lines, None);
    match outcome {
        LoadOutcome::Malformed(_) => {}
        other => panic!("expected Malformed, got {other:?}"),
    }
    let effective = resolve(&config, |_| None);
    assert_eq!(effective.scroll_lines, 3);
}

#[test]
fn resolve_tree_width_config_value_wins() {
    let config = Config {
        tree_width: Some(25),
        ..Default::default()
    };
    assert_eq!(resolve(&config, |_| None).tree_width, 25);
}

#[test]
fn resolve_tree_width_defaults_when_absent() {
    let effective = resolve(&Config::default(), |_| None);
    assert_eq!(effective.tree_width, DEFAULT_TREE_WIDTH);
    assert_eq!(effective.tree_width, 30);
}

#[test]
fn resolve_tree_width_clamps_to_range() {
    assert_eq!((MIN_TREE_WIDTH, MAX_TREE_WIDTH), (20, 80));
    for (input, want) in [
        (0u32, 20u16),
        (5, 20),
        (19, 20),
        (81, 80),
        (95, 80),
        (u32::MAX, 80),
    ] {
        let cfg = Config {
            tree_width: Some(input),
            ..Default::default()
        };
        assert_eq!(
            resolve(&cfg, |_| None).tree_width,
            want,
            "value {input} must clamp to {want}"
        );
    }
    for edge in [MIN_TREE_WIDTH, MAX_TREE_WIDTH] {
        let cfg = Config {
            tree_width: Some(edge as u32),
            ..Default::default()
        };
        assert_eq!(resolve(&cfg, |_| None).tree_width, edge);
    }
}

#[test]
fn tree_width_non_representable_degrades_to_default() {
    for src in [
        "tree_width = -1\nhide_dotfiles = true\n",
        "tree_width = \"wide\"\nhide_dotfiles = true\n",
    ] {
        let (config, outcome) = parse_config(read(src));
        assert_eq!(
            config.tree_width, None,
            "{src:?} must not populate tree_width"
        );
        assert_eq!(
            config.hide_dotfiles, None,
            "{src:?} must default the WHOLE config (the valid hide_dotfiles is dropped too)"
        );
        match outcome {
            LoadOutcome::Malformed(_) => {}
            other => panic!("expected Malformed for {src:?}, got {other:?}"),
        }
        assert_eq!(
            resolve(&config, |_| None).tree_width,
            30,
            "{src:?} to default 30"
        );
    }
}

#[test]
fn resolve_tree_position_config_value_wins() {
    for (value, want) in [("right", TreePosition::Right), ("left", TreePosition::Left)] {
        let cfg = Config {
            tree_position: Some(value.to_string()),
            ..Default::default()
        };
        assert_eq!(resolve(&cfg, |_| None).tree_position, want);
    }
}

#[test]
fn resolve_tree_position_defaults_when_absent() {
    assert_eq!(
        resolve(&Config::default(), |_| None).tree_position,
        TreePosition::Left
    );
}

#[test]
fn resolve_tree_position_lenient_and_case_insensitive() {
    for (value, want) in [
        ("sideways", TreePosition::Left),
        ("", TreePosition::Left),
        (" RIGHT ", TreePosition::Right),
        ("Left", TreePosition::Left),
        ("RiGhT", TreePosition::Right),
    ] {
        let cfg = Config {
            tree_position: Some(value.to_string()),
            ..Default::default()
        };
        assert_eq!(
            resolve(&cfg, |_| None).tree_position,
            want,
            "{value:?} must resolve to {want:?}"
        );
    }
}

#[test]
fn resolve_file_icons_supports_all_modes_and_safe_default() {
    for (value, expected) in [
        ("off", TreeIcons::Off),
        (" Unicode ", TreeIcons::Unicode),
        ("NERD", TreeIcons::Nerd),
        ("unknown", TreeIcons::Unicode),
    ] {
        let cfg = Config {
            file_icons: Some(value.to_string()),
            ..Config::default()
        };
        assert_eq!(resolve(&cfg, |_| None).file_icons, expected);
    }
    assert_eq!(
        resolve(&Config::default(), |_| None).file_icons,
        TreeIcons::Unicode
    );
}

#[test]
fn resolve_tree_max_cols_config_value_wins() {
    let cfg = Config {
        tree_max_cols: Some(60),
        ..Default::default()
    };
    assert_eq!(resolve(&cfg, |_| None).tree_max_cols, 60);
}

#[test]
fn resolve_tree_max_cols_defaults_when_absent() {
    let effective = resolve(&Config::default(), |_| None);
    assert_eq!(effective.tree_max_cols, DEFAULT_TREE_MAX_COLS);
    assert_eq!(effective.tree_max_cols, 30);
}

#[test]
fn resolve_tree_max_cols_clamps_to_range() {
    assert_eq!((MIN_TREE_MAX_COLS, MAX_TREE_MAX_COLS), (10, 1000));
    for (input, want) in [(0u32, 10u16), (5, 10), (1001, 1000), (u32::MAX, 1000)] {
        let cfg = Config {
            tree_max_cols: Some(input),
            ..Default::default()
        };
        assert_eq!(
            resolve(&cfg, |_| None).tree_max_cols,
            want,
            "value {input} must clamp to {want}"
        );
    }
}

#[test]
fn resolve_preview_max_lines_config_value_wins() {
    let cfg = Config {
        preview_max_lines: Some(12_000),
        ..Default::default()
    };
    assert_eq!(resolve(&cfg, |_| None).preview_max_lines, 12_000);
}

#[test]
fn resolve_preview_max_lines_defaults_when_absent() {
    let effective = resolve(&Config::default(), |_| None);
    assert_eq!(effective.preview_max_lines, DEFAULT_PREVIEW_MAX_LINES);
    assert_eq!(effective.preview_max_lines, 10000);
}

#[test]
fn resolve_preview_max_lines_clamps_to_range() {
    assert_eq!(
        (MIN_PREVIEW_MAX_LINES, MAX_PREVIEW_MAX_LINES),
        (100, 100_000)
    );
    for (input, want) in [
        (0u32, 100u32),
        (99, 100),
        (100_001, 100_000),
        (u32::MAX, 100_000),
    ] {
        let cfg = Config {
            preview_max_lines: Some(input),
            ..Default::default()
        };
        assert_eq!(
            resolve(&cfg, |_| None).preview_max_lines,
            want,
            "value {input} must clamp to {want}"
        );
    }
}

#[test]
fn resolve_preview_max_kib_config_value_wins() {
    let cfg = Config {
        preview_max_kib: Some(4096),
        ..Default::default()
    };
    assert_eq!(resolve(&cfg, |_| None).preview_max_kib, 4096);
}

#[test]
fn resolve_preview_max_kib_defaults_when_absent() {
    let effective = resolve(&Config::default(), |_| None);
    assert_eq!(effective.preview_max_kib, DEFAULT_PREVIEW_MAX_KIB);
    assert_eq!(effective.preview_max_kib, 1024);
}

#[test]
fn resolve_preview_max_kib_clamps_to_range() {
    assert_eq!((MIN_PREVIEW_MAX_KIB, MAX_PREVIEW_MAX_KIB), (64, 65_536));
    for (input, want) in [
        (0u32, 64u32),
        (63, 64),
        (65_537, 65_536),
        (u32::MAX, 65_536),
    ] {
        let cfg = Config {
            preview_max_kib: Some(input),
            ..Default::default()
        };
        assert_eq!(
            resolve(&cfg, |_| None).preview_max_kib,
            want,
            "value {input} must clamp to {want}"
        );
    }
}

#[test]
fn preview_caps_converts_kib_to_bytes() {
    let cfg = Config {
        preview_max_lines: Some(3000),
        preview_max_kib: Some(512),
        ..Default::default()
    };
    let caps = resolve(&cfg, |_| None).preview_caps();
    assert_eq!(caps.max_lines, 3000);
    assert_eq!(caps.max_bytes, 512 * 1024);
}

#[test]
fn render_caps_default_matches_config_defaults() {
    let from_config = resolve(&Config::default(), |_| None).preview_caps();
    assert_eq!(Caps::default(), from_config);
}

#[test]
fn tree_max_cols_non_representable_degrades_to_default() {
    for src in [
        "tree_max_cols = -1\nhide_dotfiles = true\n",
        "tree_max_cols = \"wide\"\nhide_dotfiles = true\n",
    ] {
        let (config, outcome) = parse_config(read(src));
        assert_eq!(
            config.tree_max_cols, None,
            "{src:?} must not populate the field"
        );
        assert_eq!(
            config.hide_dotfiles, None,
            "{src:?} must default the WHOLE config (valid hide_dotfiles dropped too)"
        );
        match outcome {
            LoadOutcome::Malformed(_) => {}
            other => panic!("expected Malformed for {src:?}, got {other:?}"),
        }
        assert_eq!(
            resolve(&config, |_| None).tree_max_cols,
            30,
            "{src:?} to default 30"
        );
    }
}

#[test]
fn effective_editor_config_wins_over_platform_default() {
    let eff = EffectiveSettings {
        editor: Some("nano".to_string()),
        ..resolve(&Config::default(), |_| None)
    };
    assert_eq!(
        effective_editor(&eff, Some("notepad".to_string())),
        Some("nano".to_string())
    );
}

#[test]
fn effective_editor_falls_back_to_platform_default_when_unset() {
    let eff = resolve(&Config::default(), |_| None);
    assert_eq!(eff.editor, None);
    assert_eq!(
        effective_editor(&eff, Some("notepad".to_string())),
        Some("notepad".to_string())
    );
}

#[test]
fn effective_renderers_markdown_override_leaves_others_at_base() {
    let base = test_base_renderers();
    let eff = EffectiveSettings {
        markdown: Some(vec!["mdcat".to_string()]),
        ..resolve(&Config::default(), |_| None)
    };
    let result = effective_renderers(&eff, &base);
    assert_eq!(result.markdown, vec!["mdcat".to_string()]);
    assert_eq!(result.syntax, base.syntax);
    assert_eq!(result.diff, base.diff);
    assert_eq!(result.timeout_ms, base.timeout_ms);
}

#[test]
fn effective_renderers_full_diff_derives_from_overridden_diff() {
    let base = test_base_renderers();
    let eff = EffectiveSettings {
        diff: Some(vec!["mydiff".to_string(), "-u".to_string()]),
        ..resolve(&Config::default(), |_| None)
    };
    let result = effective_renderers(&eff, &base);
    assert_eq!(
        result.full_diff,
        vec![
            "mydiff".to_string(),
            "-u".to_string(),
            "--line-numbers".to_string()
        ]
    );
}

#[test]
fn effective_renderers_full_diff_stays_at_base_when_diff_not_overridden() {
    let base = test_base_renderers();
    let eff = resolve(&Config::default(), |_| None);
    assert_eq!(eff.diff, None);
    let result = effective_renderers(&eff, &base);
    assert_eq!(result.full_diff, base.full_diff);
    assert_eq!(result.diff, base.diff);
}

#[test]
fn should_start_update_check_reflects_eff_update_check() {
    let mut eff = resolve(&Config::default(), |_| None);
    eff.update_check = false;
    assert!(!should_start_update_check(&eff));
    eff.update_check = true;
    assert!(should_start_update_check(&eff));
}

#[test]
fn bool_fields_parse() {
    let (config, _outcome) = parse_config(read(
        "hide_dotfiles = true\nupdate_check = false\nconfirm_discard = false\n\
         open_workspace_with_viewer = false\nviewer_pane_ratio = 0.5\n",
    ));
    assert_eq!(config.hide_dotfiles, Some(true));
    assert_eq!(config.update_check, Some(false));
    assert_eq!(config.confirm_discard, Some(false));
    assert_eq!(config.open_workspace_with_viewer, Some(false));
    assert_eq!(config.viewer_pane_ratio, Some(500_000));
}

#[test]
fn viewer_pane_ratio_validates_and_derives_host_layout() {
    for (input, viewer, spec) in [
        (100_000, "0.200000", "0.800000 right 0.300000"),
        (500_000, "0.500000", "0.500000 none 0.000000"),
        (600_000, "0.600000", "0.400000 left 0.100000"),
        (900_000, "0.800000", "0.200000 left 0.300000"),
    ] {
        let effective = resolve(
            &Config {
                viewer_pane_ratio: Some(input),
                ..Default::default()
            },
            |_| None,
        );
        assert_eq!(effective.viewer_pane_ratio.viewer_decimal(), viewer);
        assert_eq!(effective.viewer_pane_ratio.launcher_spec(), spec);
    }
}

#[test]
fn ratios_resize_the_terminal() {
    let smaller = ViewerPaneRatio::resolve(None);
    assert_eq!(smaller.terminal_resize(), Some(("right", "0.300000".to_string())));
    assert_eq!(smaller.terminal_decimal(), "0.800000");
    assert_eq!(ViewerPaneRatio::resolve(Some(500_000)).terminal_resize(), None);
    let larger = ViewerPaneRatio::resolve(Some(612_345));
    assert_eq!(larger.terminal_resize(), Some(("left", "0.112345".to_string())));
    assert_eq!(larger.viewer_decimal(), "0.612345");
    assert_eq!(larger.terminal_decimal(), "0.387655");
}

#[test]
fn keys_table_parses_string_and_array_specs() {
    let (config, outcome) =
        parse_config(read("[keys]\nrefresh = \"g\"\nnav_up = [\"w\", \"Up\"]\n"));
    assert_eq!(outcome, LoadOutcome::Loaded);
    let keys = config.keys.expect("[keys] table should be present");
    let get = |name: &str| keys.iter().find(|(k, _)| k == name).map(|(_, spec)| spec);
    assert_eq!(get("refresh"), Some(&KeySpec::One("g".to_string())));
    assert_eq!(
        get("nav_up"),
        Some(&KeySpec::Many(vec!["w".to_string(), "Up".to_string()])),
    );
}

#[test]
fn cwd_relative_config_with_keys_table_is_never_read() {
    let get = |_: &str| None;
    assert!(!may_read(&config_path(get)));
    let planted = |_: &str| ConfigSource::Read(read("[keys]\nrefresh = \"/evil\"\n"));
    let (config, outcome) = load_config(get, planted);
    assert_eq!(config.keys, None);
    assert_eq!(outcome, LoadOutcome::Absent);
}

fn abs_cfg_get(name: &str) -> Option<String> {
    match name {
        "HERDR_PLUGIN_CONFIG_DIR" => Some("/tmp".to_string()),
        _ => None,
    }
}

#[test]
fn missing_file_yields_default_and_absent() {
    let (config, outcome) = load_config(abs_cfg_get, |_: &str| ConfigSource::NotFound);
    assert_eq!(config.editor, None);
    assert_eq!(outcome, LoadOutcome::Absent);
}

#[test]
fn cwd_relative_config_path_is_never_read_from_the_working_directory() {
    let get = |_: &str| None;
    assert_eq!(config_path(get), ".config/advanced-herdr-file-viewer/config.toml");
    let asked = std::cell::Cell::new(false);
    let planted = |_: &str| {
        asked.set(true);
        ConfigSource::Read(read("editor = \"/evil\"\nopen = \"/evil\"\n"))
    };
    let (config, outcome) = load_config(get, planted);
    assert_eq!(config.editor, None);
    assert_eq!(config.open, None);
    assert_eq!(outcome, LoadOutcome::Absent);
    assert!(!asked.get(), "the file is not even asked for");
}

#[test]
fn present_valid_file_loads() {
    let file = |path: &str| {
        assert_eq!(path, "/tmp/config.toml");
        ConfigSource::Read(read("editor = \"vim\"\n"))
    };
    let (config, outcome) = load_config(abs_cfg_get, file);
    assert_eq!(config.editor, Some("vim".to_string()));
    assert_eq!(outcome, LoadOutcome::Loaded);
}

#[test]
fn present_malformed_file_yields_default_and_malformed() {
    let file = |_: &str| ConfigSource::Read(read("bad = = ["));
    let (config, outcome) = load_config(abs_cfg_get, file);
    assert_eq!(config.editor, None);
    assert!(matches!(outcome, LoadOutcome::Malformed(_)));
}

#[test]
fn read_error_other_than_not_found_yields_default_and_malformed() {
    let file = |_: &str| ConfigSource::Failed("denied".to_string());
    let (config, outcome) = load_config(abs_cfg_get, file);
    assert_eq!(config.editor, None);
    assert_eq!(outcome, LoadOutcome::Malformed("denied".to_string()));
}

#[test]
fn labels_name_the_settings() {
    assert_eq!(TreePosition::Left.label(), "left");
    assert_eq!(TreePosition::Right.label(), "right");
    assert_eq!(TreeIcons::Off.label(), "off");
    assert_eq!(TreeIcons::Unicode.label(), "unicode");
    assert_eq!(TreeIcons::Nerd.label(), "nerd");
}
