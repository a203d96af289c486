//! Commands of renderers and the clipboard's escape sequence.

use herdr_file_viewer::clipboard::{base64_encode, osc52_sequence};
use herdr_file_viewer::controller::help::{help_renderers, HELP_RENDER_TIMEOUT};
use herdr_file_viewer::herdr::{herdr_overlay, reply_text, resolve_program, HerdrCli};
use herdr_file_viewer::paths::FilePath;
use herdr_file_viewer::renderers::{
    add_delta_option, bundled_style_path, default_renderers, is_delta_renderer, plan_render,
    reads_file, side_by_side_renderer, source_lines, style_candidates, tokenize_command,
    with_wrap_width, RenderPlan, Renderers,
};
use herdr_file_viewer::view_policy::{
    default_mode, next_mode, DiffRenderMode, ViewMode,
};

fn list(words: &[&str]) -> Vec<String> {
    words.iter().map(|w| w.to_string()).collect()
}

#[test]
fn side_by_side_renderer_adds_delta_flags_once_before_stdin() {
    assert_eq!(
        side_by_side_renderer(&vec!["delta".into(), "-".into()]),
        ["delta", "--side-by-side", "--wrap-right-percent", "1", "-"]
            .map(String::from)
            .to_vec()
    );
    assert_eq!(
        side_by_side_renderer(&vec![
            "delta".into(),
            "--side-by-side".into(),
            "--wrap-right-percent".into(),
            "37".into(),
            "-".into()
        ]),
        ["delta", "--side-by-side", "--wrap-right-percent", "37", "-"]
            .map(String::from)
            .to_vec()
    );
}

#[test]
fn side_by_side_renderer_leaves_custom_tools_unchanged() {
    let command = vec!["my-diff".into(), "--style=plain".into(), "-".into()];
    assert_eq!(side_by_side_renderer(&command), command);
}

#[test]
fn bundled_style_is_found_in_the_executables_install_tree() {
    let exe = FilePath::of_text("/opt/viewer/target/release/herdr-file-viewer");
    let places: Vec<String> = style_candidates(&exe).iter().map(|p| p.text()).collect();
    let present: Vec<bool> =
        places.iter().map(|p| p == "/opt/viewer/assets/markdown-style.json").collect();
    let s = bundled_style_path(Some(&exe), &present).expect("style found in the install tree");
    assert_eq!(s, "/opt/viewer/assets/markdown-style.json");
}

#[test]
fn no_bundled_style_yields_none_and_never_consults_the_cwd() {
    let exe = FilePath::of_text("/opt/viewer/target/release/herdr-file-viewer");
    let places = style_candidates(&exe);
    assert!(places.iter().all(|p| p.is_absolute()));
    assert_eq!(places.len(), 6);
    assert_eq!(bundled_style_path(Some(&exe), &vec![false; 6]), None);
}

#[test]
fn missing_executable_path_yields_none() {
    assert_eq!(bundled_style_path(None, &vec![true]), None);
}

#[test]
fn markdown_renderer_forces_a_concrete_glow_style() {
    let r = default_renderers(None);
    let s = r.markdown.iter().position(|a| a == "-s");
    assert!(
        s.is_some_and(|i| r.markdown.get(i + 1).is_some_and(|v| !v.is_empty())),
        "a concrete -s style is passed: {:?}",
        r.markdown
    );
    let w = r.markdown.iter().position(|a| a == "-w");
    assert!(
        w.is_some_and(|i| r.markdown.get(i + 1).is_some_and(|v| v == "0")),
        "glow width disabled with `-w 0`: {:?}",
        r.markdown
    );
}

#[test]
fn syntax_renderer_forces_color_and_line_numbers() {
    let r = default_renderers(None);
    assert!(
        r.syntax.iter().any(|a| a == "--color=always"),
        "bat color forced: {:?}",
        r.syntax
    );
    assert!(
        r.syntax.iter().any(|a| a == "--style=numbers"),
        "bat line numbers: {:?}",
        r.syntax
    );
}

#[test]
fn full_diff_renderer_adds_delta_line_numbers() {
    let r = default_renderers(None);
    assert_eq!(
        r.full_diff.first().map(String::as_str),
        Some("delta"),
        "full_diff uses delta: {:?}",
        r.full_diff
    );
    assert!(
        r.full_diff.iter().any(|a| a == "--line-numbers"),
        "full_diff shows line numbers: {:?}",
        r.full_diff
    );
    assert!(
        !r.diff.iter().any(|a| a == "--line-numbers"),
        "the compact diff does NOT add line numbers: {:?}",
        r.diff
    );
}

#[test]
fn base64_encode_matches_rfc4648_including_padding() {
    assert_eq!(base64_encode(b""), "");
    assert_eq!(base64_encode(b"f"), "Zg==");
    assert_eq!(base64_encode(b"fo"), "Zm8=");
    assert_eq!(base64_encode(b"foo"), "Zm9v");
    assert_eq!(base64_encode(b"foob"), "Zm9vYg==");
    assert_eq!(base64_encode(b"fooba"), "Zm9vYmE=");
    assert_eq!(base64_encode(b"foobar"), "Zm9vYmFy");
    assert_eq!(base64_encode(b"src/app.rs"), "c3JjL2FwcC5ycw==");
}

#[test]
fn base64_confines_control_bytes_to_the_safe_alphabet() {
    let hostile = b"\x1b]52;c;evil\x07\x1b\\name\nwith\x07bel";
    let encoded = base64_encode(hostile);
    assert!(
        encoded
            .bytes()
            .all(|b| b.is_ascii_alphanumeric() || matches!(b, b'+' | b'/' | b'=')),
        "encoded output stays within the base64 alphabet: {encoded}"
    );
}

#[test]
fn help_render_timeout_within_ac22_budget() {
    assert!(
        HELP_RENDER_TIMEOUT <= 300,
        "HELP_RENDER_TIMEOUT ({HELP_RENDER_TIMEOUT:?}) must stay within the 300ms budget"
    );
}

/// A markdown command that shows the width it is given.
fn echoing() -> Renderers {
    Renderers {
        markdown: list(&["sh", "-w", "0", "-"]),
        diff: list(&["delta"]),
        full_diff: list(&["cat"]),
        syntax: list(&["cat"]),
        timeout_ms: 5000,
    }
}

#[test]
fn render_at_width_points_markdown_wrap_at_the_pane_width() {
    let plan =
        plan_render(&echoing(), ViewMode::RenderedMarkdown, Some(80), None, DiffRenderMode::Delta);
    match plan {
        RenderPlan::Delegate(r) => assert_eq!(r.markdown, list(&["sh", "-w", "80", "-"])),
        RenderPlan::RawDiff => panic!("a renderer is used"),
    }
}

#[test]
fn render_at_width_leaves_wrap_unbounded_without_a_pane_width() {
    for w in [None, Some(0)] {
        let plan =
            plan_render(&echoing(), ViewMode::RenderedMarkdown, w, None, DiffRenderMode::Delta);
        match plan {
            RenderPlan::Delegate(r) => assert_eq!(r.markdown, list(&["sh", "-w", "0", "-"])),
            RenderPlan::RawDiff => panic!("a renderer is used"),
        }
    }
}

#[test]
fn diffs_are_laid_out_for_the_pane() {
    let plan =
        plan_render(&echoing(), ViewMode::Diff, Some(9), Some(70), DiffRenderMode::DeltaSideBySide);
    match plan {
        RenderPlan::Delegate(r) => {
            assert_eq!(r.diff[0], "delta");
            assert!(r.diff.contains(&"--side-by-side".to_string()));
            assert!(r.diff.contains(&"70".to_string()));
            assert_eq!(r.full_diff, list(&["cat"]));
        }
        RenderPlan::RawDiff => panic!("a renderer is used"),
    }
    let raw = plan_render(&echoing(), ViewMode::FullDiff, None, Some(70), DiffRenderMode::Raw);
    assert!(matches!(raw, RenderPlan::RawDiff));
}

#[test]
fn help_is_rendered_in_less_time() {
    let r = help_renderers(&echoing(), 60);
    assert_eq!(r.timeout_ms, HELP_RENDER_TIMEOUT);
    assert_eq!(r.markdown, list(&["sh", "-w", "60", "-"]));
    assert_eq!(r.diff, list(&["delta"]));
}

#[test]
fn only_delta_gets_the_options_of_delta() {
    assert!(is_delta_renderer(&list(&["/usr/bin/Delta.exe"])));
    assert!(!is_delta_renderer(&list(&["my-delta"])));
    assert!(!is_delta_renderer(&Vec::new()));
    let once = add_delta_option(&list(&["delta", "-"]), "--x", Some("1"), Some("-x"));
    assert_eq!(once, list(&["delta", "--x", "1", "-"]));
    assert_eq!(add_delta_option(&once, "--x", Some("2"), None), once);
    let short = list(&["delta", "-x"]);
    assert_eq!(add_delta_option(&short, "--x", None, Some("-x")), short);
    assert_eq!(with_wrap_width(&list(&["glow", "-w", "0", "-"]), 40), list(&["glow", "-w", "40", "-"]));
}

#[test]
fn only_source_views_keep_the_source() {
    let text = "a\r\n\tb\n\nc\r";
    let kept = source_lines(ViewMode::SyntaxContent, Some(text)).unwrap();
    assert_eq!(kept, ["a", "\tb", "", "c\r"]);
    assert_eq!(kept, text.lines().collect::<Vec<_>>());
    assert_eq!(source_lines(ViewMode::SyntaxContent, Some("x\n")).unwrap(), ["x"]);
    assert!(source_lines(ViewMode::SyntaxContent, Some("")).unwrap().is_empty());
    assert!(source_lines(ViewMode::SyntaxContent, None).is_none());
    for mode in [ViewMode::RenderedMarkdown, ViewMode::Diff, ViewMode::FullDiff] {
        assert!(source_lines(mode, Some(text)).is_none());
    }
    assert!(reads_file(ViewMode::RenderedMarkdown));
    assert!(!reads_file(ViewMode::FullDiff));
}

#[test]
fn views_cycle_among_those_that_apply() {
    assert_eq!(default_mode(true, false), ViewMode::RenderedMarkdown);
    assert_eq!(default_mode(false, false), ViewMode::SyntaxContent);
    assert_eq!(default_mode(false, true), ViewMode::Diff);
    let mut mode = default_mode(true, true);
    let mut seen = Vec::new();
    for _ in 0..4 {
        seen.push(mode);
        mode = next_mode(mode, true, true);
    }
    assert_eq!(mode, default_mode(true, true));
    seen.sort_by_key(|m| format!("{m:?}"));
    seen.dedup();
    assert_eq!(seen.len(), 4);
    assert_eq!(next_mode(ViewMode::SyntaxContent, false, false), ViewMode::SyntaxContent);
}

#[test]
fn command_lines_are_split_at_unquoted_spaces() {
    assert_eq!(tokenize_command("  a  'b c' "), list(&["a", "'b", "c'"]));
    assert_eq!(tokenize_command("a \"\" b"), list(&["a", "", "b"]));
    assert!(tokenize_command("   ").is_empty());
}

#[test]
fn the_escape_sequence_carries_the_encoded_text() {
    assert_eq!(osc52_sequence("src/app.rs"), "\u{1b}]52;c;c3JjL2FwcC5ycw==\u{7}");
}

#[test]
fn with_exe_suffix_unix_returns_the_value_unchanged() {
    assert_eq!(resolve_program(Some("/custom/herdr".to_string())), "/custom/herdr");
}

#[test]
fn resolve_program_with_none_or_empty_falls_back_to_herdr() {
    assert_eq!(resolve_program(None), "herdr");
    assert_eq!(resolve_program(Some(String::new())), "herdr");
}

#[test]
fn failed_host_commands_print_nothing() {
    assert_eq!(reply_text(true, b"{\xff}"), Ok("{\u{fffd}}".to_string()));
    assert_eq!(reply_text(false, b"x"), Err("herdr exited non-zero".to_string()));
}

/// A host that answers one question.
struct Answers(&'static str);

impl HerdrCli for Answers {
    fn run_json(&self, args: &[&str]) -> Result<String, String> {
        if self.0 == "all" || args[0] == self.0 {
            Ok(args.join(" "))
        } else {
            Err("no".to_string())
        }
    }

    fn run(&self, _args: &[&str]) -> Result<(), String> {
        Ok(())
    }
}

#[test]
fn the_overlay_of_agents_needs_both_answers() {
    assert_eq!(
        herdr_overlay(Some(&Answers("all"))),
        Some(("worktree list".to_string(), "agent list".to_string()))
    );
    assert_eq!(herdr_overlay(Some(&Answers("worktree"))), None);
    assert_eq!(herdr_overlay(Some(&Answers("agent"))), None);
    assert_eq!(herdr_overlay::<Answers>(None), None);
}
