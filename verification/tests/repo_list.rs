//! The list of repositories.
use gitpane::action::Action;
use gitpane::repo_list::label::{display_path, middle_ellipsize, rendered_name};
use gitpane::repo_list::render::{indicator_columns, repo_row_text};
use gitpane::repo_list::{make_entry, DisplayRow, RepoEntry, RepoList};
use gitpane::screen::{
    Color, GraphTheme, Key, Mouse, MouseKind, Rect, RepoListTheme, Theme,
};
use gitpane::status::{RefsFingerprint, RepoId, RepoStatus, StashEntry, WorktreeEntry};

fn theme() -> Theme {
    let c = Color::Indexed;
    Theme {
        graph: GraphTheme {
            border_focused: c(1),
            border_unfocused: c(2),
            loading: c(3),
            error_text: c(4),
            empty: c(5),
            dimmed: c(6),
            collapsed_message: c(7),
            commit_id: c(8),
            merge_message: c(9),
            commit_message: c(10),
            time: c(11),
            addition: c(12),
            deletion: c(13),
            selection_bg: c(14),
            commit_msg_border: c(15),
            commit_msg_text: c(16),
            commit_files_border: c(17),
            commit_files_empty: c(18),
            commit_files_status_modified: c(19),
            commit_files_status_added: c(20),
            commit_files_status_deleted: c(21),
            commit_files_status_renamed: c(22),
            commit_files_status_other: c(23),
            commit_files_path: c(24),
            commit_diff_border: c(25),
            commit_diff_added: c(26),
            commit_diff_removed: c(27),
            commit_diff_hunk: c(28),
            commit_diff_meta: c(29),
            commit_diff_context: c(30),
            search_overlay_fg: c(31),
            search_overlay_bg: c(32),
        },
        repo_list: RepoListTheme {
            border_focused: c(41),
            border_unfocused: c(42),
            selection_bg: c(43),
        },
    }
}

fn texts(items: &[&str]) -> Vec<String> {
    items.iter().map(|s| s.to_string()).collect()
}

fn id(path: &str) -> RepoId {
    RepoId(path.to_string())
}

fn empty_status(branch: &str) -> RepoStatus {
    RepoStatus {
        branch: branch.to_string(),
        head_oid: None,
        files: Vec::new(),
        ahead: 0,
        behind: 0,
        is_dirty: false,
        worktree_info: Vec::new(),
        has_submodules: false,
        submodules: Vec::new(),
        has_dirty_submodules: false,
        has_unpushed_submodules: false,
        fetch_failed: false,
        stashes: Vec::new(),
        refs: RefsFingerprint { local: 0, remote: 0, tags: 0 },
    }
}

fn stash_entry(index: usize) -> StashEntry {
    StashEntry { index, message: format!("WIP {index}"), oid: format!("{index:040x}") }
}

fn worktree_entry(name: &str) -> WorktreeEntry {
    WorktreeEntry {
        name: name.to_string(),
        path: format!("/wt/{name}"),
        branch: name.to_string(),
        ahead: 0,
        behind: 0,
        is_dirty: false,
        file_count: 0,
        has_dirty_submodules: false,
        has_unpushed_submodules: false,
    }
}

fn entry_with_status(path: &str, status: RepoStatus) -> RepoEntry {
    RepoEntry {
        path: path.to_string(),
        name: path.trim_start_matches('/').to_string(),
        display: path.trim_start_matches('/').to_string(),
        status: Some(status),
        git_op: false,
    }
}

fn make_list(paths: &[&str]) -> RepoList {
    RepoList::new(texts(paths), vec![], theme())
}

fn paths_of(list: &RepoList) -> Vec<String> {
    list.repos.iter().map(|r| r.path.clone()).collect()
}

#[test]
fn sync_paths_noop_when_set_unchanged() {
    let mut list = make_list(&["/a", "/b"]);
    let diff = list.sync_paths(texts(&["/a", "/b"]));
    assert!(diff.is_empty());
    assert_eq!(list.repos.len(), 2);
}

#[test]
fn sync_paths_reports_added_paths() {
    let mut list = make_list(&["/a"]);
    let diff = list.sync_paths(texts(&["/a", "/b"]));
    assert!(!diff.is_empty());
    assert_eq!(diff.added, texts(&["/b"]));
    assert!(diff.removed.is_empty());
    assert_eq!(list.repos.len(), 2);
}

#[test]
fn sync_paths_reports_removed_paths_and_prunes_expansion() {
    let mut list = make_list(&["/a", "/b"]);
    list.expanded_repos.insert("/b".to_string());
    list.expanded_stashes.insert("/b".to_string());

    let diff = list.sync_paths(texts(&["/a"]));
    assert_eq!(diff.removed, texts(&["/b"]));
    assert!(diff.added.is_empty());
    assert_eq!(list.repos.len(), 1);
    assert!(!list.expanded_repos.contains("/b"));
    assert!(!list.expanded_stashes.contains("/b"));
}

#[test]
fn sync_paths_preserves_existing_entry_status() {
    let mut list = make_list(&["/a"]);
    list.repos[0].git_op = true;
    let diff = list.sync_paths(texts(&["/a", "/b"]));
    assert_eq!(diff.added, texts(&["/b"]));
    let a = list.repos.iter().find(|r| r.path == "/a").unwrap();
    assert!(a.git_op);
    let b = list.repos.iter().find(|r| r.path == "/b").unwrap();
    assert!(!b.git_op);
    assert!(b.status.is_none());
}

#[test]
fn indicator_columns_returns_none_when_neither_subtree_present() {
    let entry = entry_with_status("/r", empty_status("main"));
    let cols = indicator_columns(&entry, 0, 1);
    assert_eq!(cols.stash, None);
    assert_eq!(cols.worktree, None);
}

#[test]
fn indicator_columns_locates_stash_then_worktree() {
    let mut status = empty_status("main");
    status.stashes.push(stash_entry(0));
    status.worktree_info.push(worktree_entry("wt"));
    let entry = entry_with_status("/r", status);

    let cols = indicator_columns(&entry, 0, 1);
    let (s_start, s_end) = cols.stash.expect("stash range");
    let (w_start, w_end) = cols.worktree.expect("worktree range");
    assert_eq!(s_start, 16);
    assert_eq!(s_end, 20);
    assert_eq!(w_start, 20);
    assert_eq!(w_end, 23);
}

#[test]
fn indicator_columns_accounts_for_ahead_behind() {
    let mut status = empty_status("main");
    status.ahead = 3;
    status.behind = 22;
    status.stashes.push(stash_entry(0));
    let entry = entry_with_status("/r", status);

    let cols = indicator_columns(&entry, 0, 1);
    let (s_start, _) = cols.stash.expect("stash range");
    assert_eq!(s_start, 23);
}

#[test]
fn indicator_columns_respects_long_branch_name() {
    let mut status = empty_status("feature/very-long-branch");
    status.worktree_info.push(worktree_entry("wt"));
    let entry = entry_with_status("/r", status);

    let cols = indicator_columns(&entry, 0, 1);
    let (w_start, _) = cols.worktree.expect("worktree range");
    assert_eq!(w_start, 28);
}

/// One repository with a linked worktree, expanded so that the row of the worktree
/// is shown, in an area that can be clicked.
fn list_with_expanded_worktree() -> RepoList {
    let mut list = make_list(&["/r"]);
    let mut status = empty_status("main");
    status.worktree_info.push(worktree_entry("feature"));
    list.repos[0].status = Some(status);
    list.expanded_repos.insert("/r".to_string());
    list.rebuild_display_rows();
    list.render_area = Rect::new(0, 0, 40, 10);
    list
}

fn right_click(row: u16) -> Mouse {
    Mouse { kind: MouseKind::RightDown, column: 5, row }
}

fn left_click(column: u16, row: u16) -> Mouse {
    Mouse { kind: MouseKind::LeftDown, column, row }
}

#[test]
fn resolve_target_maps_worktree_path_to_its_branch_and_parent() {
    let list = list_with_expanded_worktree();
    let target =
        list.resolve_target(&id("/wt/feature")).expect("worktree path resolves to a target");
    assert_eq!(target.exec_path, "/wt/feature");
    assert_eq!(target.branch, "feature");
    assert_eq!(target.parent_index, 0);
    assert!(!target.has_submodules);
}

#[test]
fn resolve_target_maps_repo_path_to_itself() {
    let list = list_with_expanded_worktree();
    let target = list.resolve_target(&id("/r")).expect("repo path resolves to a target");
    assert_eq!(target.exec_path, "/r");
    assert_eq!(target.branch, "main");
    assert_eq!(target.parent_index, 0);
}

#[test]
fn resolve_target_returns_none_for_unknown_path() {
    let list = list_with_expanded_worktree();
    assert!(list.resolve_target(&id("/nope")).is_none());
}

fn menu_id(action: Option<Action>) -> Option<String> {
    match action {
        Some(Action::ShowContextMenu { id, .. }) => Some(id.0),
        _ => None,
    }
}

#[test]
fn right_click_on_worktree_row_opens_menu_targeting_the_worktree() {
    let mut list = list_with_expanded_worktree();
    let action = list.handle_mouse_event(right_click(2));
    assert_eq!(menu_id(action), Some("/wt/feature".to_string()));
}

#[test]
fn right_click_on_repo_row_opens_menu_targeting_the_repo() {
    let mut list = list_with_expanded_worktree();
    let action = list.handle_mouse_event(right_click(1));
    assert_eq!(menu_id(action), Some("/r".to_string()));
}

#[test]
fn right_click_on_stash_row_opens_no_menu() {
    let mut list = make_list(&["/r"]);
    let mut status = empty_status("main");
    status.stashes.push(stash_entry(0));
    list.repos[0].status = Some(status);
    list.expanded_stashes.insert("/r".to_string());
    list.rebuild_display_rows();
    list.render_area = Rect::new(0, 0, 40, 10);
    let action = list.handle_mouse_event(right_click(2));
    assert!(action.is_none(), "stash rows have no context menu");
}

#[test]
fn selected_worktree_reports_worktree_when_worktree_row_is_selected() {
    let mut list = list_with_expanded_worktree();
    list.state.select(Some(1));
    let (repo_id, wt) = list.selected_worktree().expect("worktree selected");
    assert_eq!(repo_id.0, "/r");
    assert_eq!(wt.path, "/wt/feature");
    assert_eq!(wt.branch, "feature");

    list.state.select(Some(0));
    assert!(list.selected_worktree().is_none());
}

#[test]
fn display_path_uses_relative_path_under_a_root() {
    let roots = texts(&["/ws"]);
    assert_eq!(display_path("/ws/hbre/libmm", &roots), "hbre/libmm");
    assert_eq!(display_path("/elsewhere/pinned", &roots), "pinned");
}

#[test]
fn display_path_keeps_basename_for_top_level_repo() {
    let roots = texts(&["/ws"]);
    assert_eq!(display_path("/ws/kernel-6.12", &roots), "kernel-6.12");
}

#[test]
fn middle_ellipsize_keeps_head_and_tail() {
    assert_eq!(middle_ellipsize("hbre/camsys", 30), "hbre/camsys");
    let deep = "kernel-6.12/drivers/media/platform/horizon/camsys";
    assert_eq!(middle_ellipsize(deep, 20), "kernel-6.12/…/camsys");
    assert_eq!(middle_ellipsize(deep, 12), "…/camsys");
    assert_eq!(middle_ellipsize(deep, 5), "kern…");
    assert_eq!(middle_ellipsize(deep, 0), "");
}

#[test]
fn renders_breadcrumb_paths_and_ellipsizes_deep_ones() {
    let mut list = RepoList::new(
        texts(&[
            "/ws/hbre/camsys",
            "/ws/kernel-6.1/drivers/media/platform/horizon/camsys",
            "/ws/kernel-6.12/drivers/media/platform/horizon/camsys",
            "/ws/build",
        ]),
        texts(&["/ws"]),
        theme(),
    );
    list.render_area = Rect::new(0, 0, 40, 8);

    let picture = list.draw(Rect::new(0, 0, 40, 8));
    let text: String = picture.rows.iter().map(|r| format!("{}\n", r.text)).collect();

    assert!(text.contains("hbre/camsys"), "got: {text}");
    assert!(text.contains("kernel-6.1/…/camsys"), "got: {text}");
    assert!(text.contains("kernel-6.12/…/camsys"), "got: {text}");
    assert!(text.contains("build"), "got: {text}");
}

#[test]
fn new_list_selects_its_first_row() {
    let list = make_list(&["/a/x", "/b"]);
    assert_eq!(list.state.selected, Some(0));
    assert_eq!(list.selected_index(), Some(0));
    assert_eq!(list.selected_repo().unwrap().name, "x");
    assert_eq!(list.display_rows, vec![DisplayRow::Repo(0), DisplayRow::Repo(1)]);
    assert_eq!(list.len(), 2);
    assert_eq!(list.entry(1).path, "/b");

    let none = make_list(&[]);
    assert_eq!(none.state.selected, None);
    assert!(none.selected_repo().is_none());
}

#[test]
fn synced_twice_changes_nothing_more() {
    let mut list = make_list(&["/a", "/b"]);
    let first = list.sync_paths(texts(&["/c", "/b"]));
    assert_eq!(first.added, texts(&["/c"]));
    assert_eq!(first.removed, texts(&["/a"]));
    let shown = paths_of(&list);
    let second = list.sync_paths(texts(&["/c", "/b"]));
    assert!(second.is_empty());
    assert_eq!(paths_of(&list), shown);
}

#[test]
fn lookup_finds_the_first_match() {
    let list = make_list(&["/a", "/b", "/a"]);
    assert_eq!(list.resolve_index(&id("/a")), Some(0));
    assert_eq!(list.resolve_index(&id("/b")), Some(1));
    assert_eq!(list.resolve_index(&id("/c")), None);
}

#[test]
fn indicators_are_shifted_by_the_base() {
    let mut status = empty_status("main");
    status.stashes.push(stash_entry(0));
    let entry = entry_with_status("/r", status);
    assert_eq!(indicator_columns(&entry, 10, 1).stash, Some((26, 30)));
    let bare = RepoEntry { status: None, ..make_entry("/r".to_string(), &vec![]) };
    let cols = indicator_columns(&bare, 0, 1);
    assert_eq!((cols.stash, cols.worktree), (None, None));
}

#[test]
fn indicators_stand_in_their_columns() {
    let mut status = empty_status("main");
    status.is_dirty = true;
    status.ahead = 3;
    status.behind = 22;
    status.stashes.push(stash_entry(0));
    status.worktree_info.push(worktree_entry("wt"));
    let mut entry = entry_with_status("/r", status);
    let row = repo_row_text(&entry, "r");
    assert_eq!(row, "* r        main ↑3 ↓22 ▶$1 ▶1 ");
    let between = |(from, to): (u16, u16)| -> String {
        row.chars().skip(from as usize).take((to - from) as usize).collect()
    };
    let cols = indicator_columns(&entry, 0, 1);
    assert_eq!(between(cols.stash.unwrap()), "▶$1 ");
    assert_eq!(between(cols.worktree.unwrap()), "▶1 ");
    entry.git_op = true;
    assert!(repo_row_text(&entry, "r").starts_with("~ r"));
    let long = entry_with_status("/r", empty_status("feature/very-long-branch"));
    assert_eq!(repo_row_text(&long, "r"), "  rfeature/very-long-branch ");
}

#[test]
fn names_are_cut_to_the_row() {
    let entry = make_entry("/ws/kernel-6.12/drivers/camsys".to_string(), &texts(&["/ws"]));
    assert_eq!(entry.display, "kernel-6.12/drivers/camsys");
    assert_eq!(entry.name, "camsys");
    assert_eq!(rendered_name(&entry, 100), "kernel-6.12/drivers/camsys");
    assert!(rendered_name(&entry, 40).chars().count() <= 40);
}

#[test]
fn clicking_a_row_selects_it() {
    let mut list = make_list(&["/a", "/b"]);
    list.render_area = Rect::new(0, 0, 40, 10);
    let action = list.handle_mouse_event(left_click(5, 2));
    assert_eq!(list.state.selected, Some(1));
    match action {
        Some(Action::SelectRepo(chosen)) => assert_eq!(chosen.0, "/b"),
        _ => panic!("a click on a row selects its repository"),
    }
    assert!(list.handle_mouse_event(left_click(5, 9)).is_none());
    assert_eq!(list.state.selected, Some(1));
}

#[test]
fn clicking_the_worktree_indicator_expands_and_collapses() {
    let mut list = make_list(&["/r"]);
    let mut status = empty_status("main");
    status.worktree_info.push(worktree_entry("feature"));
    list.repos[0].status = Some(status);
    list.render_area = Rect::new(0, 0, 60, 10);
    list.rebuild_display_rows();
    let cols = indicator_columns(&list.repos[0], 1, 1);
    let (start, _) = cols.worktree.unwrap();
    list.handle_mouse_event(left_click(start, 1));
    assert_eq!(list.display_rows, vec![DisplayRow::Repo(0), DisplayRow::Worktree(0, 0)]);
    list.handle_mouse_event(left_click(start, 1));
    assert_eq!(list.display_rows, vec![DisplayRow::Repo(0)]);
}

#[test]
fn keys_move_through_the_rows() {
    let mut list = make_list(&["/a", "/b"]);
    list.handle_key_event(Key::Down);
    assert_eq!(list.state.selected, Some(1));
    list.handle_key_event(Key::Up);
    assert_eq!(list.state.selected, Some(0));
    list.handle_key_event(Key::Char('j'));
    assert_eq!(list.state.selected, Some(1));
    list.handle_key_event(Key::Char('k'));
    assert_eq!(list.state.selected, Some(0));
}

#[test]
fn new_status_ends_the_operation_and_shows_its_subtrees() {
    let mut list = list_with_expanded_worktree();
    list.set_git_op(0, true);
    assert!(list.entry(0).git_op);
    list.update_status(0, empty_status("main"));
    assert!(!list.entry(0).git_op);
    assert_eq!(list.display_rows, vec![DisplayRow::Repo(0)]);
}

#[test]
fn sorting_keeps_equal_entries_in_place() {
    let mut list = make_list(&["/x/b", "/y/a", "/z/b"]);
    list.sort(false);
    assert_eq!(paths_of(&list), texts(&["/y/a", "/x/b", "/z/b"]));
    let mut dirty = empty_status("main");
    dirty.is_dirty = true;
    list.update_status(2, dirty);
    list.sort(true);
    assert_eq!(paths_of(&list), texts(&["/z/b", "/y/a", "/x/b"]));
}

#[test]
fn worktree_to_remove_is_named_with_its_repository() {
    let list = list_with_expanded_worktree();
    assert_eq!(
        list.worktree_remove_target(&id("/wt/feature")),
        Some(("/r".to_string(), "/wt/feature".to_string(), "feature".to_string())),
    );
    assert_eq!(list.worktree_remove_target(&id("/r")), None);
}

#[test]
fn removing_a_repository_closes_the_gap() {
    let mut list = make_list(&["/a", "/b"]);
    list.remove_repo(0);
    assert_eq!(paths_of(&list), texts(&["/b"]));
    assert_eq!(list.display_rows, vec![DisplayRow::Repo(0)]);
    list.push_repo(make_entry("/c".to_string(), &vec![]));
    assert_eq!(paths_of(&list), texts(&["/b", "/c"]));
    list.select_repo_row(1);
    assert_eq!(list.state.selected, Some(1));
}

#[test]
fn picture_of_the_list_follows_the_focus() {
    let mut list = make_list(&["/a"]);
    list.focused = true;
    let area = Rect::new(3, 4, 30, 5);
    let picture = list.draw(area);
    assert_eq!(picture.title, " Repositories ");
    assert_eq!(picture.border, Color::Indexed(41));
    assert_eq!(picture.selection_bg, Color::Indexed(43));
    assert_eq!(picture.area, area);
    assert_eq!(list.render_area, area);
    assert_eq!(picture.rows.len(), 1);
    assert_eq!(picture.rows[0].text, "  a ...");
}
