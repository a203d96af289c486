//! Reading git's output and building its commands.

use herdr_file_viewer::git::{
    base_candidates, base_fork_point, branch_query, changed_query, changed_set, classify,
    classify_name_status, current_branch, default_baseline, diff, diff_directory,
    directory_query, directory_untracked, fork_query, git_command, head_or_empty_tree,
    head_query, is_safe_ref, is_untracked, is_within_root, parse_name_status,
    parse_porcelain_status, path_from_git_bytes, ref_exists, resolve_base_branch, status,
    status_query, tracked_query, Baseline, GitCommand, RepoFacts, Status, EMPTY_TREE,
    MAX_DIFF_BYTES, MAX_UNTRACKED_DIFF_FILES, NULL_DEVICE,
};
use herdr_file_viewer::paths::FilePath;

fn path(text: &str) -> FilePath {
    FilePath::of_text(text)
}

/// A `-z` stream: each field followed by a NUL.
fn fields(list: &[&[u8]]) -> Vec<u8> {
    let mut out = Vec::new();
    for f in list {
        out.extend_from_slice(f);
        out.push(0);
    }
    out
}

#[test]
fn diff_directory_rejects_parent_dir_and_absolute_pathspecs() {
    for dir in ["..", "../outside", "/etc"] {
        let dir = path(dir);
        assert!(directory_query(&dir, &None, Baseline::Head, None, true).is_none());
        let text = diff_directory(&dir, &None, "tracked", &vec!["patch".to_string()]);
        assert_eq!(text, "");
    }
}

#[test]
fn path_from_git_bytes_unix_maps_arbitrary_bytes_losslessly() {
    let bytes = "my r\u{e9}sum\u{e9} file.txt".as_bytes();
    let decoded = path_from_git_bytes(bytes).unwrap();
    assert!(decoded.same(&path("my r\u{e9}sum\u{e9} file.txt")));
}

#[test]
fn path_from_git_bytes_unix_preserves_non_utf8_bytes() {
    let bytes = [b'a', 0xFF, b'b'];
    let decoded = path_from_git_bytes(&bytes).expect("non-UTF-8 bytes still decode");
    assert_eq!(decoded.as_bytes(), &bytes);
    assert_eq!(decoded.text(), "a\u{fffd}b");
}

#[test]
fn null_device_is_dev_null_on_unix() {
    assert_eq!(NULL_DEVICE, "/dev/null");
}

#[test]
fn hooks_path_hardening_uses_the_null_device_constant() {
    let cmd = git_command(&path("/some/repo"), status_query());
    assert!(arguments(&cmd).contains(&format!("core.hooksPath={NULL_DEVICE}")));
}

/// The arguments as texts.
fn arguments(cmd: &GitCommand) -> Vec<String> {
    cmd.args.iter().map(|arg| String::from_utf8_lossy(arg).into_owned()).collect()
}

#[test]
fn git_command_applies_every_untrusted_repo_guard() {
    let cmd = git_command(&path("/some/repo"), status_query());
    let args = arguments(&cmd);
    assert!(args.iter().any(|a| a == "-C"), "runs with -C <dir>: {args:?}");
    assert!(args.contains(&"core.fsmonitor=false".to_string()));
    assert!(args.contains(&format!("core.hooksPath={NULL_DEVICE}")));
    assert!(args.iter().any(|a| a.starts_with("--attr-source=")));
    assert_eq!(args[..2], ["-C", "/some/repo"]);
    assert!(cmd.set_env.iter().any(|(k, v)| k == "GIT_OPTIONAL_LOCKS" && v == "0"));
    for var in [
        "GIT_DIR",
        "GIT_WORK_TREE",
        "GIT_COMMON_DIR",
        "GIT_INDEX_FILE",
        "GIT_OBJECT_DIRECTORY",
    ] {
        assert!(cmd.remove_env.iter().any(|k| k == var), "{var} is removed");
    }
}

#[test]
fn classify_maps_every_status_code_branch() {
    let cases: &[(&str, Option<Status>)] = &[
        ("??", Some(Status::Untracked)),
        (" D", Some(Status::Deleted)),
        ("D ", Some(Status::Deleted)),
        ("DD", Some(Status::Deleted)),
        ("MD", Some(Status::Deleted)),
        ("AD", Some(Status::Deleted)),
        ("A ", Some(Status::Added)),
        (" A", Some(Status::Added)),
        ("AM", Some(Status::Added)),
        (" M", Some(Status::Modified)),
        ("M ", Some(Status::Modified)),
        ("MM", Some(Status::Modified)),
        ("MR", Some(Status::Modified)),
        ("MC", Some(Status::Modified)),
        ("MT", Some(Status::Modified)),
        ("RM", Some(Status::Modified)),
        ("CM", Some(Status::Modified)),
        ("TM", Some(Status::Modified)),
        ("", None),
        ("  ", None),
        ("!!", Some(Status::Modified)),
        ("UU", Some(Status::Modified)),
        ("XY", Some(Status::Modified)),
    ];
    for (code, expected) in cases {
        assert_eq!(
            classify(code),
            *expected,
            "classify({code:?}) - branch coverage"
        );
    }
}

#[test]
fn classify_name_status_maps_every_letter() {
    let cases: &[(&str, Option<Status>)] = &[
        ("A", Some(Status::Added)),
        ("D", Some(Status::Deleted)),
        ("M", Some(Status::Modified)),
        ("T", Some(Status::Modified)),
        ("R", Some(Status::Modified)),
        ("C", Some(Status::Modified)),
        ("X", None),
        ("", None),
        ("Z", None),
        ("?", None),
    ];
    for (code, expected) in cases {
        assert_eq!(
            classify_name_status(code),
            *expected,
            "classify_name_status({code:?}) - letter coverage"
        );
    }
}

#[test]
fn parse_porcelain_status_empty_input() {
    assert!(parse_porcelain_status(b"").len() == 0);
    assert!(parse_porcelain_status(&fields(&[])).len() == 0);
}

#[test]
fn parse_porcelain_status_skips_truncated_records() {
    let out = fields(&[b"", b"X", b"XY", b" M mod.txt"]);
    let map = parse_porcelain_status(&out);
    assert_eq!(map.len(), 1, "only the well-formed record survives");
    assert_eq!(map.get(&path("mod.txt")), Some(Status::Modified));
}

#[test]
fn parse_porcelain_status_invalid_utf8_code_is_dropped() {
    let bad_code = [0xFFu8, 0xFF, b' ', b'p'];
    let out = fields(&[&bad_code, b" M ok.txt"]);
    let map = parse_porcelain_status(&out);
    assert_eq!(
        map.len(),
        1,
        "invalid-utf8 code is dropped, the next record still parses"
    );
    assert_eq!(map.get(&path("ok.txt")), Some(Status::Modified));
}

#[test]
fn parse_porcelain_status_rename_consumes_old_path_field() {
    let out = fields(&[b"RM new.txt", b"old.txt", b" M after.txt"]);
    let map = parse_porcelain_status(&out);
    assert_eq!(
        map.get(&path("new.txt")),
        Some(Status::Modified),
        "rename's NEW path is keyed (R to Modified)"
    );
    assert!(
        !map.contains_key(&path("old.txt")),
        "rename's old path is consumed as the extra field, not keyed"
    );
    assert_eq!(
        map.get(&path("after.txt")),
        Some(Status::Modified),
        "the record after the rename parses correctly (no desync)"
    );
}

#[test]
fn parse_porcelain_status_copy_consumes_old_path_field() {
    let out = fields(&[b"CM c.txt", b"orig.txt", b"?? untracked.txt"]);
    let map = parse_porcelain_status(&out);
    assert_eq!(map.get(&path("c.txt")), Some(Status::Modified));
    assert!(!map.contains_key(&path("orig.txt")));
    assert_eq!(
        map.get(&path("untracked.txt")),
        Some(Status::Untracked)
    );
}

#[test]
fn parse_porcelain_status_rename_with_missing_old_field_does_not_panic() {
    let out = fields(&[b"RM only.txt"]);
    let map = parse_porcelain_status(&out);
    assert_eq!(map.get(&path("only.txt")), Some(Status::Modified));
}

#[test]
fn parse_porcelain_status_preserves_paths_with_spaces_and_high_bytes() {
    let out = fields(&[b"?? my file.txt", "?? r\u{e9}sum\u{e9}.txt".as_bytes()]);
    let map = parse_porcelain_status(&out);
    assert_eq!(
        map.get(&path("my file.txt")),
        Some(Status::Untracked)
    );
    assert_eq!(
        map.get(&path("r\u{e9}sum\u{e9}.txt")),
        Some(Status::Untracked)
    );
}

#[test]
fn parse_porcelain_status_unknown_xy_code_maps_to_modified() {
    let out = fields(&[b"ZZ weird.txt"]);
    let map = parse_porcelain_status(&out);
    assert_eq!(
        map.get(&path("weird.txt")),
        Some(Status::Modified),
        "unknown XY code falls through classify to Modified"
    );
}

#[test]
fn parse_name_status_empty_input() {
    assert!(parse_name_status(b"").len() == 0);
    assert!(parse_name_status(&fields(&[])).len() == 0);
}

#[test]
fn parse_name_status_rename_triple_keys_new_path() {
    let out = fields(&[b"R100", b"old.txt", b"new.txt", b"M", b"mod.txt"]);
    let map = parse_name_status(&out);
    assert_eq!(map.get(&path("new.txt")), Some(Status::Modified));
    assert!(!map.contains_key(&path("old.txt")));
    assert_eq!(map.get(&path("mod.txt")), Some(Status::Modified));
}

#[test]
fn parse_name_status_copy_triple_keys_new_path() {
    let out = fields(&[b"C100", b"src.txt", b"dst.txt", b"A", b"add.txt"]);
    let map = parse_name_status(&out);
    assert_eq!(map.get(&path("dst.txt")), Some(Status::Modified));
    assert!(!map.contains_key(&path("src.txt")));
    assert_eq!(map.get(&path("add.txt")), Some(Status::Added));
}

#[test]
fn parse_name_status_rename_with_missing_new_field_breaks_cleanly() {
    let out = fields(&[b"R100", b"old.txt"]);
    let map = parse_name_status(&out);
    assert!(map.len() == 0, "truncated rename triple yields no entry");
}

#[test]
fn parse_name_status_invalid_utf8_code_is_dropped() {
    let bad_code = [0xFFu8, 0xFF];
    let out = fields(&[&bad_code, b"p.txt", b"M", b"ok.txt"]);
    let map = parse_name_status(&out);
    assert_eq!(
        map.len(),
        1,
        "invalid-utf8 code dropped, next record parses"
    );
    assert_eq!(map.get(&path("ok.txt")), Some(Status::Modified));
}

#[test]
fn parse_name_status_unknown_code_letter_is_dropped() {
    let out = fields(&[b"X", b"weird.txt", b"M", b"ok.txt"]);
    let map = parse_name_status(&out);
    assert_eq!(map.len(), 1, "unknown letter dropped");
    assert_eq!(map.get(&path("ok.txt")), Some(Status::Modified));
}

#[test]
fn parse_name_status_maps_by_leading_letter_ignoring_trailing_digits() {
    let out = fields(&[b"A100", b"a.txt", b"D100", b"d.txt", b"M100", b"m.txt"]);
    let map = parse_name_status(&out);
    assert_eq!(map.get(&path("a.txt")), Some(Status::Added));
    assert_eq!(map.get(&path("d.txt")), Some(Status::Deleted));
    assert_eq!(map.get(&path("m.txt")), Some(Status::Modified));
}

#[test]
fn parse_name_status_preserves_paths_with_spaces_and_high_bytes() {
    let out = fields(&[b"M", b"my file.txt", b"A", "r\u{e9}sum\u{e9}.txt".as_bytes()]);
    let map = parse_name_status(&out);
    assert_eq!(
        map.get(&path("my file.txt")),
        Some(Status::Modified)
    );
    assert_eq!(map.get(&path("r\u{e9}sum\u{e9}.txt")), Some(Status::Added));
}

#[test]
fn the_status_of_a_failed_query_is_empty() {
    assert_eq!(status(None).len(), 0);
    let map = status(Some(&fields(&[b" M b.txt", b"?? a.txt"])));
    let listed: Vec<String> = map.entries().iter().map(|e| e.path.text()).collect();
    assert_eq!(listed, ["a.txt", "b.txt"]);
}

#[test]
fn changes_against_the_base_hold_untracked_files_too() {
    let changed = fields(&[b"M", b"mod.txt", b"D", b"gone.txt"]);
    let porcelain = fields(&[b"?? new.txt", b" M other.txt", b"?? mod.txt"]);
    let base = changed_set(Baseline::Base, true, Some(&changed), Some(&porcelain));
    assert_eq!(base.len(), 3);
    assert_eq!(base.get(&path("mod.txt")), Some(Status::Modified));
    assert_eq!(base.get(&path("gone.txt")), Some(Status::Deleted));
    assert_eq!(base.get(&path("new.txt")), Some(Status::Untracked));
    let unknown = changed_set(Baseline::Base, false, None, Some(&porcelain));
    assert_eq!(unknown.len(), 3);
    assert_eq!(unknown.get(&path("other.txt")), Some(Status::Modified));
    let head = changed_set(Baseline::Head, true, Some(&changed), Some(&porcelain));
    assert_eq!(head.get(&path("gone.txt")), None);
}

#[test]
fn paths_are_confined_to_the_root() {
    assert!(is_within_root(&path("a/b"), &None));
    assert!(!is_within_root(&path("a/../../b"), &None));
    assert!(!is_within_root(&path("/a"), &None));
    let inside = Some((path("/r/a"), path("/r")));
    let outside = Some((path("/elsewhere/a"), path("/r")));
    assert!(is_within_root(&path("a"), &inside));
    assert!(!is_within_root(&path("a"), &outside));
    assert!(diff(&path("a"), &outside, false, Baseline::Head, None, true, false).is_none());
}

#[test]
fn a_base_hint_comes_first_unless_it_is_an_option() {
    assert!(is_safe_ref("dev"));
    assert!(!is_safe_ref(""));
    assert!(!is_safe_ref("--upload-pack=x"));
    let usual = ["main", "master", "origin/main", "origin/master"];
    assert_eq!(base_candidates(None), usual);
    assert_eq!(base_candidates(Some("-x")), usual);
    assert_eq!(base_candidates(Some("dev"))[0], "dev");
    assert_eq!(
        resolve_base_branch(Some("dev"), &vec![false, false, true]),
        Some("master".to_string())
    );
    assert_eq!(resolve_base_branch(None, &vec![false; 4]), None);
}

#[test]
fn a_session_starts_with_the_base_on_another_branch() {
    let facts = |base: Option<&str>, current: Option<&str>, is_worktree: bool| {
        Some(RepoFacts {
            base: base.map(str::to_string),
            current: current.map(str::to_string),
            is_worktree,
        })
    };
    assert_eq!(default_baseline(&None), Baseline::Head);
    assert_eq!(default_baseline(&facts(Some("main"), Some("main"), false)), Baseline::Head);
    assert_eq!(default_baseline(&facts(Some("main"), Some("dev"), false)), Baseline::Base);
    assert_eq!(default_baseline(&facts(Some("main"), None, true)), Baseline::Base);
    assert_eq!(default_baseline(&facts(Some("main"), None, false)), Baseline::Head);
    assert_eq!(default_baseline(&facts(None, Some("dev"), true)), Baseline::Head);
}

#[test]
fn a_detached_head_has_no_branch() {
    assert_eq!(current_branch(Some(b"dev\n")), Some("dev".to_string()));
    assert_eq!(current_branch(Some(b"HEAD\n")), None);
    assert_eq!(current_branch(None), None);
    assert_eq!(base_fork_point(Some(b" abc123 \n")), Some("abc123".to_string()));
    assert_eq!(head_or_empty_tree(true), "HEAD");
    assert_eq!(head_or_empty_tree(false), EMPTY_TREE);
}

#[test]
fn queries_have_their_arguments() {
    assert_eq!(status_query().args, ["status", "--porcelain=v1", "-z", "-uall"]);
    assert_eq!(branch_query().args, ["rev-parse", "--abbrev-ref", "HEAD"]);
    assert_eq!(head_query().args, ["rev-parse", "--verify", "--quiet", "HEAD"]);
    assert_eq!(fork_query("main").args, ["merge-base", "main", "HEAD"]);
    assert_eq!(ref_exists("main").args[4], "main^{commit}");
    assert_eq!(changed_query("abc").args[5], "abc");
    let known = tracked_query(&path("a.txt"));
    assert_eq!(known.args, ["ls-files", "--error-unmatch", "--"]);
    assert!(known.path.unwrap().same(&path("a.txt")));
    assert!(is_untracked(false, true));
    assert!(!is_untracked(true, true));
    assert!(!is_untracked(false, false));
}

#[test]
fn diffs_compare_with_the_baseline() {
    let file = path("a.txt");
    let head = diff(&file, &None, false, Baseline::Head, Some("fork"), true, false).unwrap();
    assert_eq!(
        head.args,
        ["diff", "--no-ext-diff", "--no-textconv", "--no-color", "HEAD", "--"]
    );
    let base = diff(&file, &None, false, Baseline::Base, Some("fork"), true, true).unwrap();
    assert_eq!(base.args[4], "-U1000000");
    assert_eq!(base.args[5], "fork");
    let first = diff(&file, &None, false, Baseline::Base, None, false, false).unwrap();
    assert_eq!(first.args[4], EMPTY_TREE);
    let added = diff(&file, &None, true, Baseline::Head, None, true, false).unwrap();
    assert_eq!(
        added.args,
        [
            "diff",
            "--no-ext-diff",
            "--no-textconv",
            "--no-index",
            "--no-color",
            "--",
            "/dev/null"
        ]
    );
    let whole = directory_query(&path(""), &None, Baseline::Head, None, true).unwrap();
    assert!(whole.path.is_none());
}

#[test]
fn directory_diffs_add_untracked_files() {
    let map = status(Some(&fields(&[b"?? d/b", b"?? d/a", b"?? e/c", b" M d/m"])));
    let below: Vec<String> =
        directory_untracked(&map, &path("d")).iter().map(|p| p.text()).collect();
    assert_eq!(below, ["d/a", "d/b"]);
    assert_eq!(directory_untracked(&map, &path("")).len(), 3);
    let patches = vec!["one\n".to_string(), "".to_string(), "two".to_string()];
    assert_eq!(diff_directory(&path("d"), &None, "tracked", &patches), "tracked\none\ntwo");
    assert_eq!(diff_directory(&path(""), &None, "", &patches), "one\ntwo");
}

#[test]
fn directory_diffs_are_bounded() {
    let big = "x".repeat(MAX_DIFF_BYTES - 1);
    let patches = vec!["\u{e9}\u{e9}".to_string(), "more".to_string()];
    let text = diff_directory(&path("d"), &None, &big, &patches);
    assert!(text.len() <= MAX_DIFF_BYTES);
    assert!(text.starts_with(&big));
    let many: Vec<Vec<u8>> = (0..600).map(|i| format!("?? f{i:04}").into_bytes()).collect();
    let list: Vec<&[u8]> = many.iter().map(|f| f.as_slice()).collect();
    let map = status(Some(&fields(&list)));
    assert_eq!(directory_untracked(&map, &path("")).len(), MAX_UNTRACKED_DIFF_FILES);
}
