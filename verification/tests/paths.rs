//! Paths, and the ranking of file names.

use herdr_file_viewer::fuzzy::match_and_rank;
use herdr_file_viewer::git::{parse_name_status, parse_porcelain_status, Status};
use herdr_file_viewer::paths::FilePath;

fn path(text: &str) -> FilePath {
    FilePath::of_text(text)
}

fn ranked(query: &str, names: &[&str]) -> Vec<usize> {
    let candidates: Vec<String> = names.iter().map(|n| n.to_string()).collect();
    match_and_rank(query, &candidates)
}

#[test]
fn slashes_at_the_end_do_not_matter() {
    assert!(path("/a/").same(&path("/a")));
    assert!(path("//").same(&path("/")));
    assert_eq!(path("/a/").file_name().text(), "a");
    assert_eq!(path("/a/").parent().unwrap().text(), "/");
    assert_eq!(path("a//b").parent().unwrap().text(), "a");
    assert!(path("/").parent().is_none());
    assert_eq!(path("/").file_name().text(), "");
    assert_eq!(path("/r").join(&path("")).text(), "/r");
    assert_eq!(path("/").join(&path("a")).text(), "/a");
    assert_eq!(path("/r/a/").strip_prefix(&path("/r/")).unwrap().text(), "a");
    assert_eq!(path("/a").strip_prefix(&path("/")).unwrap().text(), "a");
}

#[test]
fn paths_compare_by_their_components() {
    for (a, b) in [
        ("a//b/c", "a/b/c"),
        ("a/./b", "a/b"),
        ("/a/.", "/a"),
        ("/./a", "/a"),
        ("//", "/"),
        ("./", "."),
        ("././a", "./a"),
        ("a/../b/", "a/../b"),
    ] {
        assert!(path(a).same(&path(b)), "{a} and {b}");
        assert_eq!(path(a).text(), b);
        assert_eq!(std::path::Path::new(a), std::path::Path::new(b));
    }
    assert!(!path("./a").same(&path("a")));
    assert_eq!(path("a//b/c").strip_prefix(&path("a/b")).unwrap().text(), "c");
    assert!(path("a/bc").strip_prefix(&path("a/b")).is_none());
    assert!(path("/a").strip_prefix(&path("a")).is_none());
    assert_eq!(path("/a/.").file_name().text(), "a");
    assert_eq!(path("/r").join(&path("./x")).text(), "/r/x");
    assert_eq!(path("").join(&path("x")).text(), "x");
    assert!(!path(".").is_ordinary() && !path("..").is_ordinary() && path(".a").is_ordinary());
}

#[test]
fn output_is_read_in_pieces() {
    let (a, b) = (&b" M a\0R  new\0old\0"[..], &b"?? a\0 D c\0"[..]);
    let whole = parse_porcelain_status(&[a, b].concat());
    assert_eq!(whole.len(), 3);
    assert_eq!(whole.get(&path("a")), Some(Status::Untracked));
    assert_eq!(whole.get(&path("new")), Some(Status::Modified));
    assert_eq!(whole.get(&path("c")), Some(Status::Deleted));
    let (a, b) = (&b"M\0a\0R100\0old\0new\0"[..], &b"A\0a\0"[..]);
    let whole = parse_name_status(&[a, b].concat());
    assert_eq!(whole.get(&path("a")), Some(Status::Added));
    assert_eq!(whole.get(&path("new")), Some(Status::Modified));
}

#[test]
fn nested_repositories_have_a_status() {
    let map = parse_porcelain_status(b"?? nested/\0");
    assert_eq!(map.get(&path("nested")), Some(Status::Untracked));
    assert_eq!(map.get(&path("nested/")), Some(Status::Untracked));
    let map = parse_name_status(b"A\0sub/\0");
    assert_eq!(map.get(&path("sub")), Some(Status::Added));
}

#[test]
fn names_leave_out_what_only_leads_somewhere() {
    assert_eq!(path("/a/../b/./c").names_text(), "a/b/c");
    assert_eq!(path("a//b").names_text(), "a/b");
    assert_eq!(path("..").names_text(), "");
    assert_eq!(path("/").names_text(), "");
    assert_eq!(path("...").names_text(), "...");
}

#[test]
fn basename_hits_come_first_whatever_their_length() {
    assert!(ranked("", &["a"]).is_empty());
    assert_eq!(ranked("main", &["main/x.rs", "src/domain.rs"]), [1, 0]);
    assert_eq!(ranked("A", &["bbba", "a", "A"]), [1, 2, 0]);
    let long = format!("{}/a", "d".repeat(1_500_000));
    assert_eq!(ranked("a", &["a/x", &long]), [1, 0]);
}
