//! Clicks, drags along scrollbars, and the context menu.

use herdr_file_viewer::controller::state::ContextMenuState;
use herdr_file_viewer::input::Intent;
use herdr_file_viewer::pointer::{
    is_double_click, track_to_offset, Click, ClickOrigin, DOUBLE_CLICK_MS,
};

fn click(column: u16, row: u16, at: u64, origin: ClickOrigin) -> Option<Click> {
    Some(Click { column, row, at, origin })
}

#[test]
fn is_double_click_requires_the_same_row_within_the_window() {
    let t0 = 1_000u64;
    let within = t0 + DOUBLE_CLICK_MS / 2;
    let after = t0 + DOUBLE_CLICK_MS * 2;
    let tree = ClickOrigin::Tree;
    assert!(is_double_click(
        click(5, 5, t0, tree),
        (5, 5),
        within,
        tree
    ));
    assert!(is_double_click(
        click(5, 5, t0, tree),
        (40, 5),
        within,
        tree
    ));
    assert!(!is_double_click(
        click(5, 5, t0, tree),
        (5, 5),
        after,
        tree
    ));
    assert!(!is_double_click(
        click(5, 5, t0, tree),
        (5, 6),
        within,
        tree
    ));
    assert!(!is_double_click(None, (5, 5), within, tree));
}

#[test]
fn is_double_click_rejects_cross_origin_same_row() {
    let t0 = 1_000u64;
    let within = t0 + DOUBLE_CLICK_MS / 2;
    assert!(!is_double_click(
        click(10, 0, t0, ClickOrigin::Tree),
        (50, 0),
        within,
        ClickOrigin::ContentTitle,
    ));
    assert!(!is_double_click(
        click(50, 0, t0, ClickOrigin::ContentTitle),
        (10, 0),
        within,
        ClickOrigin::Tree,
    ));
    assert!(!is_double_click(
        click(10, 3, t0, ClickOrigin::Finder),
        (10, 3),
        within,
        ClickOrigin::Tree,
    ));
    assert!(is_double_click(
        click(10, 0, t0, ClickOrigin::ContentTitle),
        (50, 0),
        within,
        ClickOrigin::ContentTitle,
    ));
}

#[test]
fn for_dir_includes_open_workspace_and_navigates_correctly() {
    let mut menu = ContextMenuState::for_dir((10, 5));
    assert_eq!(
        menu.items
            .iter()
            .map(|item| item.intent)
            .collect::<Vec<_>>(),
        vec![
            Intent::OpenWorkspace,
            Intent::OpenPaneHere,
            Intent::CopyAbsPath,
            Intent::CopyRepoPath,
        ]
    );
    assert_eq!(menu.selected_intent(), Some(Intent::OpenWorkspace));
    menu.navigate(1);
    assert_eq!(menu.selected_intent(), Some(Intent::OpenPaneHere));
    menu.navigate(1);
    assert_eq!(menu.selected_intent(), Some(Intent::CopyAbsPath));
    menu.navigate(-2);
    assert_eq!(menu.selected_intent(), Some(Intent::OpenWorkspace));
    menu.navigate(-1);
    assert_eq!(menu.selected_intent(), Some(Intent::CopyRepoPath));
}

#[test]
fn file_menu_keeps_only_the_same_four_common_actions() {
    let menu = ContextMenuState::for_file((5, 5));
    assert_eq!(
        menu.items
            .iter()
            .map(|item| item.intent)
            .collect::<Vec<_>>(),
        vec![
            Intent::OpenWorkspace,
            Intent::OpenPaneHere,
            Intent::CopyAbsPath,
            Intent::CopyRepoPath,
        ]
    );
    assert_eq!(menu.selected_intent(), Some(Intent::OpenWorkspace));
}

#[test]
fn one_based_number_selects_the_matching_action_without_a_zero_or_overflow_fallback() {
    let menu = ContextMenuState::for_dir((5, 5));
    assert_eq!(menu.intent_for_number('1'), Some(Intent::OpenWorkspace));
    assert_eq!(menu.intent_for_number('2'), Some(Intent::OpenPaneHere));
    assert_eq!(menu.intent_for_number('3'), Some(Intent::CopyAbsPath));
    assert_eq!(menu.intent_for_number('4'), Some(Intent::CopyRepoPath));
    assert_eq!(menu.intent_for_number('0'), None);
    assert_eq!(menu.intent_for_number('5'), None);
}

#[test]
fn menus_show_labels_and_shortcuts() {
    let view = ContextMenuState::for_dir((10, 5)).to_view();
    let rows: Vec<(&str, &str)> = view.items.iter().map(|i| (i.label, i.shortcut)).collect();
    assert_eq!(
        rows,
        [
            ("Open workspace here", "s"),
            ("Open pane here", "G"),
            ("Copy absolute path", "Y"),
            ("Copy relative path", "y"),
        ]
    );
    assert_eq!(view.cursor, 0);
    assert_eq!(view.anchor, (10, 5));
}

#[test]
fn the_clock_may_stand_still_between_clicks() {
    let last = click(1, 1, 500, ClickOrigin::Tree);
    assert!(is_double_click(last, (1, 1), 500, ClickOrigin::Tree));
    assert!(is_double_click(last, (1, 1), 400, ClickOrigin::Tree));
    assert!(is_double_click(last, (1, 1), 500 + DOUBLE_CLICK_MS, ClickOrigin::Tree));
    assert!(!is_double_click(last, (1, 1), 501 + DOUBLE_CLICK_MS, ClickOrigin::Tree));
}

#[test]
fn scrollbars_reach_both_ends() {
    assert_eq!(track_to_offset(5, 5, 11, 100), Some(0));
    assert_eq!(track_to_offset(15, 5, 11, 100), Some(100));
    assert_eq!(track_to_offset(10, 5, 11, 100), Some(50));
    assert_eq!(track_to_offset(200, 5, 11, 100), Some(100));
    assert_eq!(track_to_offset(0, 5, 11, 100), Some(0));
}
