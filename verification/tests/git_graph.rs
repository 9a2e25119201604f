//! The graph panel.
use gitpane::action::Action;
use gitpane::git_graph::draw::{
    color_of_diff_line, color_of_status, files_layout, Emphasis, ListBody, Piece,
};
use gitpane::git_graph::load::GraphLoadGuard;
use gitpane::git_graph::search::{found_in, SearchState};
use gitpane::git_graph::{GitGraph, LoadRequest, MAX_CONSECUTIVE_ABORTS};
use gitpane::model::{
    BranchFilter, BranchLabel, BranchSegment, DiffStat, GraphFilters, GraphOptions, GraphRow, Oid,
};
use gitpane::names::NameSet;
use gitpane::screen::{
    Color, Constraint, Direction, GraphTheme, Key, Mouse, MouseKind, Rect, RepoListTheme, Theme,
};

fn theme() -> Theme {
    let c = Color::Indexed;
    Theme {
        graph: GraphTheme {
            border_focused: c(1),
            border_unfocused: c(2),
            loading: c(3),
            error_text: c(4),
            empty: c(5),
            dimmed: c(6),
            collapsed_message: c(7),
            commit_id: c(8),
            merge_message: c(9),
            commit_message: c(10),
            time: c(11),
            addition: c(12),
            deletion: c(13),
            selection_bg: c(14),
            commit_msg_border: c(15),
            commit_msg_text: c(16),
            commit_files_border: c(17),
            commit_files_empty: c(18),
            commit_files_status_modified: c(19),
            commit_files_status_added: c(20),
            commit_files_status_deleted: c(21),
            commit_files_status_renamed: c(22),
            commit_files_status_other: c(23),
            commit_files_path: c(24),
            commit_diff_border: c(25),
            commit_diff_added: c(26),
            commit_diff_removed: c(27),
            commit_diff_hunk: c(28),
            commit_diff_meta: c(29),
            commit_diff_context: c(30),
            search_overlay_fg: c(31),
            search_overlay_bg: c(32),
        },
        repo_list: RepoListTheme {
            border_focused: c(41),
            border_unfocused: c(42),
            selection_bg: c(43),
        },
    }
}

fn options() -> GraphOptions {
    GraphOptions {
        branch_filter: BranchFilter::All,
        label_max_len: 24,
        first_parent: false,
        show_stats: false,
        filters: GraphFilters::new(),
    }
}

fn new_graph() -> GitGraph {
    GitGraph::new(theme(), options())
}

fn oid_of(hex: &str) -> Oid {
    Oid {
        hi: u128::from_str_radix(&hex[..32], 16).unwrap(),
        lo: u32::from_str_radix(&hex[32..], 16).unwrap(),
    }
}

fn mock_row(short_id: &str, message: &str, author: &str) -> GraphRow {
    GraphRow {
        commit_col: 0,
        oid: oid_of("aaaaaaaaaaaaaaaaaaaaaaaaaaaaaaaaaaaaaaaa"),
        short_id: short_id.to_string(),
        message: message.to_string(),
        author: author.to_string(),
        time: 0,
        labels: Vec::new(),
        is_merge: false,
        parent_oids: Vec::new(),
        diff_stat: None,
        collapsed: None,
    }
}

fn click(kind: MouseKind, column: u16, row: u16) -> Mouse {
    Mouse { kind, column, row }
}

#[test]
fn right_clicking_a_graph_row_opens_its_context_menu() {
    let mut graph = new_graph();
    graph.set_rows(vec![mock_row("abc1234", "first", "Alice")], vec![]);
    graph.graph_list_area = Rect::new(0, 0, 80, 4);

    let reaction = graph.handle_mouse_event(click(MouseKind::RightDown, 1, 1));

    assert!(matches!(reaction.action, Some(Action::OpenGraphContextMenu)));
    assert_eq!(graph.state.selected, Some(0));
}

#[test]
fn test_search_matches_message() {
    let mut graph = new_graph();
    graph.set_rows(
        vec![
            mock_row("abc1234", "fix: resolve crash", "Alice"),
            mock_row("def5678", "feat: add login", "Bob"),
            mock_row("ghi9012", "chore: update deps", "Alice"),
        ],
        vec![],
    );

    graph.search.input = "login".to_string();
    graph.update_search_matches();

    assert_eq!(graph.search.matches, vec![1]);
}

#[test]
fn test_search_matches_author() {
    let mut graph = new_graph();
    graph.set_rows(
        vec![
            mock_row("abc1234", "first", "Alice"),
            mock_row("def5678", "second", "Bob"),
            mock_row("ghi9012", "third", "Alice"),
        ],
        vec![],
    );

    graph.search.input = "alice".to_string();
    graph.update_search_matches();

    assert_eq!(graph.search.matches, vec![0, 2]);
}

#[test]
fn test_search_matches_short_id() {
    let mut graph = new_graph();
    graph.set_rows(
        vec![mock_row("abc1234", "first", "Alice"), mock_row("def5678", "second", "Bob")],
        vec![],
    );

    graph.search.input = "def".to_string();
    graph.update_search_matches();

    assert_eq!(graph.search.matches, vec![1]);
}

#[test]
fn test_search_case_insensitive() {
    let mut graph = new_graph();
    graph.set_rows(vec![mock_row("abc1234", "Fix Bug", "Alice")], vec![]);

    graph.search.input = "fix bug".to_string();
    graph.update_search_matches();

    assert_eq!(graph.search.matches, vec![0]);
}

fn graph_with_two_matches() -> GitGraph {
    let mut graph = new_graph();
    graph.set_rows(
        vec![mock_row("a", "match", "X"), mock_row("b", "no", "Y"), mock_row("c", "match", "Z")],
        vec![],
    );
    graph.search.input = "match".to_string();
    graph.update_search_matches();
    graph
}

#[test]
fn test_search_next_wraps_around() {
    let mut graph = graph_with_two_matches();
    assert_eq!(graph.search.current_match, Some(0));

    graph.search_next();
    assert_eq!(graph.search.current_match, Some(1));
    assert_eq!(graph.state.selected, Some(2));

    graph.search_next();
    assert_eq!(graph.search.current_match, Some(0));
    assert_eq!(graph.state.selected, Some(0));
}

#[test]
fn test_search_prev_wraps_around() {
    let mut graph = graph_with_two_matches();

    graph.search_prev();
    assert_eq!(graph.search.current_match, Some(1));
    assert_eq!(graph.state.selected, Some(2));
}

#[test]
fn test_search_empty_input_no_matches() {
    let mut graph = new_graph();
    graph.set_rows(vec![mock_row("a", "hello", "X")], vec![]);

    graph.search.input.clear();
    graph.update_search_matches();

    assert!(graph.search.matches.is_empty());
    assert_eq!(graph.search.current_match, None);
}

#[test]
fn test_search_no_results() {
    let mut graph = new_graph();
    graph.set_rows(vec![mock_row("a", "hello", "Alice")], vec![]);

    graph.search.input = "zzzzz".to_string();
    graph.update_search_matches();

    assert!(graph.search.matches.is_empty());
    assert_eq!(graph.search.current_match, None);
}

fn make_label(name: &str) -> BranchLabel {
    BranchLabel {
        name: name.to_string(),
        is_head: false,
        is_remote: false,
        is_worktree: false,
        is_tag: false,
        is_stash: false,
    }
}

const OID_M: &str = "1111111111111111111111111111111111111111";
const OID_A: &str = "aaaaaaaaaaaaaaaaaaaaaaaaaaaaaaaaaaaaaaaa";
const OID_B: &str = "bbbbbbbbbbbbbbbbbbbbbbbbbbbbbbbbbbbbbbbb";
const OID_C: &str = "cccccccccccccccccccccccccccccccccccccccc";

fn dag_row(
    oid_str: &str,
    short_id: &str,
    parent_oids: Vec<Oid>,
    col: usize,
    labels: Vec<BranchLabel>,
) -> GraphRow {
    GraphRow {
        commit_col: col,
        oid: oid_of(oid_str),
        short_id: short_id.to_string(),
        message: format!("msg-{short_id}"),
        author: "Author".to_string(),
        time: 0,
        labels,
        is_merge: parent_oids.len() > 1,
        parent_oids,
        diff_stat: None,
        collapsed: None,
    }
}

/// The trunk in row 0, and a side branch with its tip in row 1 and its base in
/// row 2.
fn make_branch_rows(tip_labels: Vec<BranchLabel>) -> Vec<GraphRow> {
    vec![
        dag_row(OID_M, "m", vec![], 0, vec![make_label("main")]),
        dag_row(OID_A, "a", vec![oid_of(OID_B)], 1, tip_labels),
        dag_row(OID_B, "b", vec![oid_of(OID_M)], 1, vec![]),
    ]
}

/// The side branch, known by its tip and shown under this name.
fn side_branch(name: &str, rows: Vec<usize>) -> Vec<BranchSegment> {
    vec![BranchSegment {
        id: OID_A.to_string(),
        display_name: name.to_string(),
        row_indices: rows,
    }]
}

#[test]
fn test_collapse_labeled_branch() {
    let mut graph = new_graph();
    graph.set_rows(
        make_branch_rows(vec![make_label("feature")]),
        side_branch("feature", vec![1, 2]),
    );
    graph.state.select(Some(1));
    graph.toggle_collapse_selected();

    assert!(graph.collapsed_branches.contains(OID_A));
    assert_eq!(graph.rows.len(), 2);
    let (_, count) = graph.rows[1].collapsed.as_ref().unwrap();
    assert_eq!(*count, 2);
    assert!(graph.rows[1].message.contains("feature"));
}

#[test]
fn test_collapse_unlabeled_merge_lane() {
    let mut graph = new_graph();
    graph.set_rows(make_branch_rows(vec![]), side_branch("a", vec![1, 2]));
    graph.state.select(Some(2));
    graph.toggle_collapse_selected();

    assert!(graph.collapsed_branches.contains(OID_A));
    assert_eq!(graph.rows.len(), 2);
    assert!(graph.rows[1].message.contains("a"));
}

#[test]
fn test_expand_collapsed_group() {
    let mut graph = new_graph();
    graph.set_rows(
        make_branch_rows(vec![make_label("feature")]),
        side_branch("feature", vec![1, 2]),
    );
    graph.state.select(Some(1));
    graph.toggle_collapse_selected();
    assert_eq!(graph.rows.len(), 2);

    graph.state.select(Some(1));
    graph.toggle_collapse_selected();

    assert!(graph.collapsed_branches.is_empty());
    assert_eq!(graph.display_rows().len(), 3);
}

#[test]
fn test_collapse_from_middle_of_branch() {
    let mut graph = new_graph();
    graph.set_rows(
        make_branch_rows(vec![make_label("feature")]),
        side_branch("feature", vec![1, 2]),
    );
    graph.state.select(Some(2));
    graph.toggle_collapse_selected();

    assert!(graph.collapsed_branches.contains(OID_A));
    assert_eq!(graph.rows.len(), 2);
    assert!(graph.rows[1].collapsed.is_some());
}

#[test]
fn test_expand_all() {
    let mut graph = new_graph();
    graph.set_rows(
        make_branch_rows(vec![make_label("feat-a")]),
        side_branch("feat-a", vec![1, 2]),
    );
    graph.state.select(Some(1));
    graph.toggle_collapse_selected();
    assert!(!graph.collapsed_branches.is_empty());

    graph.expand_all_branches();
    assert!(graph.collapsed_branches.is_empty());
    assert_eq!(graph.display_rows().len(), 3);
}

#[test]
fn test_main_trunk_not_collapsible() {
    let mut graph = new_graph();
    graph.set_rows(make_branch_rows(vec![]), side_branch("a", vec![1, 2]));
    graph.state.select(Some(0));
    graph.toggle_collapse_selected();

    assert!(graph.collapsed_branches.is_empty());
    assert_eq!(graph.display_rows().len(), 3);
}

#[test]
fn test_interleaved_commits_collapse_together() {
    let mut graph = new_graph();
    graph.set_rows(
        vec![
            dag_row(OID_M, "m0", vec![oid_of(OID_C)], 0, vec![make_label("main")]),
            dag_row(OID_A, "a", vec![oid_of(OID_B)], 1, vec![]),
            dag_row(OID_C, "c", vec![], 0, vec![]),
            dag_row(OID_B, "b", vec![oid_of(OID_M)], 1, vec![]),
        ],
        side_branch("a", vec![1, 3]),
    );

    graph.state.select(Some(1));
    graph.toggle_collapse_selected();

    assert!(graph.collapsed_branches.contains(OID_A));
    assert_eq!(graph.rows.len(), 3);
    let (_, count) = graph.rows[1].collapsed.as_ref().unwrap();
    assert_eq!(*count, 2);
}

#[test]
fn test_unlabeled_branch_collapsible() {
    let mut graph = new_graph();
    graph.set_rows(make_branch_rows(vec![]), side_branch("a", vec![1, 2]));
    graph.state.select(Some(1));
    graph.toggle_collapse_selected();

    assert!(!graph.collapsed_branches.is_empty());
    let placeholder = &graph.rows[1];
    assert!(placeholder.collapsed.is_some());
    assert!(placeholder.message.contains("a"));
}

#[test]
fn test_abort_load_releases_latch() {
    let mut graph = new_graph();
    graph.load_in_flight = true;
    graph.loading = true;

    graph.abort_load();

    assert!(!graph.load_in_flight, "latch must be released on abort");
    assert!(!graph.loading);
}

#[test]
fn test_abort_load_consumes_pending_reload() {
    let mut graph = new_graph();
    graph.load_in_flight = true;
    graph.needs_reload = true;
    graph.abort_load();

    assert!(!graph.load_in_flight);
    assert!(!graph.needs_reload, "pending reload flag must be consumed");
}

#[test]
fn test_abort_load_ignored_when_not_in_flight() {
    let mut graph = new_graph();
    graph.load_in_flight = false;
    graph.needs_reload = true;

    graph.abort_load();

    assert!(graph.needs_reload, "stale abort must not consume a pending reload");
    assert!(graph.error.is_none(), "stale abort must not surface an error");
}

#[test]
fn test_abort_load_bounds_repeated_panics() {
    let mut graph = new_graph();
    for _ in 0..=MAX_CONSECUTIVE_ABORTS {
        graph.load_in_flight = true;
        graph.needs_reload = true;
        graph.abort_load();
    }

    assert!(graph.error.is_some(), "must surface an error once the retry budget is exhausted");
    assert!(
        !graph.needs_reload,
        "must stop replaying the coalesced reload after the budget"
    );
}

#[test]
fn test_set_rows_resets_abort_counter() {
    let mut graph = new_graph();
    graph.load_in_flight = true;
    graph.abort_load();
    assert_eq!(graph.consecutive_aborts, 1);

    graph.set_rows(vec![mock_row("abc1234", "ok", "Alice")], vec![]);
    assert_eq!(graph.consecutive_aborts, 0);
}

#[test]
fn clicking_a_commit_row_opens_its_files() {
    let mut graph = new_graph();
    graph.repo_path = Some("/repo".to_string());
    graph.set_rows(vec![mock_row("abc1234", "first", "Alice")], vec![]);
    graph.graph_list_area = Rect::new(0, 0, 80, 4);

    let reaction = graph.handle_mouse_event(click(MouseKind::LeftDown, 1, 1));
    assert!(matches!(reaction.action, Some(Action::ShowCommitFiles { .. })));
    assert_eq!(graph.state.selected, Some(0));
}

fn files(items: &[(&str, &str)]) -> Vec<(String, String)> {
    items.iter().map(|(s, p)| (s.to_string(), p.to_string())).collect()
}

fn asked_diff(action: Option<Action>) -> Option<(String, String)> {
    match action {
        Some(Action::ShowCommitDiff { oid, file_path, .. }) => Some((oid, file_path)),
        _ => None,
    }
}

#[test]
fn highlighted_file_diff_is_requested_after_files_load() {
    let mut graph = new_graph();
    graph.repo_path = Some("/repo".to_string());
    graph.set_rows(vec![mock_row("abc1234", "first", "Alice")], vec![]);
    graph.state.select(Some(0));

    graph.set_commit_files(
        "abc1234".to_string(),
        "first".to_string(),
        files(&[("M", "src/main.rs"), ("A", "src/lib.rs")]),
    );

    let action = graph.try_show_commit_diff();
    assert_eq!(
        asked_diff(action),
        Some(("abc1234".to_string(), "src/main.rs".to_string())),
    );
}

#[test]
fn moving_through_files_requests_their_diff() {
    let mut graph = new_graph();
    graph.repo_path = Some("/repo".to_string());
    graph.set_commit_files(
        "abc1234".to_string(),
        "first".to_string(),
        files(&[("M", "a.rs"), ("M", "b.rs")]),
    );
    let reaction = graph.handle_key_event(Key::Down);
    assert_eq!(
        asked_diff(reaction.action),
        Some(("abc1234".to_string(), "b.rs".to_string())),
    );
}

#[test]
fn clicking_a_file_row_refreshes_its_diff() {
    let mut graph = new_graph();
    graph.repo_path = Some("/repo".to_string());
    graph.set_commit_files(
        "abc1234".to_string(),
        "first".to_string(),
        files(&[("M", "a.rs"), ("M", "b.rs")]),
    );
    if let Some(detail) = graph.commit_detail.as_mut() {
        detail.file_list_area = Rect::new(0, 0, 40, 10);
    }

    let reaction = graph.handle_mouse_event(click(MouseKind::LeftDown, 2, 2));
    assert_eq!(
        asked_diff(reaction.action),
        Some(("abc1234".to_string(), "b.rs".to_string())),
    );
    assert_eq!(graph.commit_detail.as_ref().unwrap().file_state.selected, Some(1));
}

#[test]
fn search_ignores_case_beyond_ascii() {
    let mut graph = new_graph();
    graph.set_rows(
        vec![mock_row("a", "Ärger mit ÖL", "X"), mock_row("b", "nichts", "Y")],
        vec![],
    );
    graph.search.input = "öl".to_string();
    graph.update_search_matches();
    assert_eq!(graph.search.matches, vec![0]);
}

#[test]
fn search_is_typed_confirmed_and_left() {
    let mut graph = new_graph();
    graph.set_rows(
        vec![mock_row("a", "one", "X"), mock_row("b", "two", "Y"), mock_row("c", "tow", "Z")],
        vec![],
    );
    graph.open_search();
    assert!(graph.search_visible());
    graph.handle_search_key(Key::Char('t'));
    graph.handle_search_key(Key::Char('o'));
    assert_eq!(graph.search.matches, vec![2]);
    graph.handle_search_key(Key::Backspace);
    assert_eq!(graph.search.input, "t");
    assert_eq!(graph.search.matches, vec![1, 2]);
    graph.handle_search_key(Key::Enter);
    assert!(!graph.search_visible());
    assert_eq!(graph.search.matches, vec![1, 2]);
    graph.open_search();
    graph.handle_search_key(Key::Esc);
    assert!(!graph.search_visible());
    assert!(graph.search.matches.is_empty());
    assert_eq!(graph.search.input, "");

    let mut fresh = SearchState::new();
    assert!(!fresh.visible && fresh.input.is_empty() && fresh.matches.is_empty());
    fresh.input = "x".to_string();
    fresh.matches = vec![3];
    fresh.current_match = Some(0);
    fresh.clear();
    assert!(fresh.input.is_empty() && fresh.matches.is_empty() && fresh.current_match.is_none());
}

#[test]
fn collapsing_leaves_the_selection_where_it_is() {
    let mut graph = new_graph();
    graph.set_rows(
        make_branch_rows(vec![make_label("feature")]),
        side_branch("feature", vec![1, 2]),
    );
    graph.state.select(Some(2));
    assert!(graph.can_toggle_selected_branch());
    graph.toggle_selected_branch();
    assert_eq!(graph.state.selected, Some(2));
    assert_eq!(graph.rows[1].collapsed, Some((OID_A.to_string(), 2)));
    graph.expand_all();
    assert_eq!(graph.display_rows().len(), 3);
    graph.state.select(Some(0));
    assert!(!graph.can_toggle_selected_branch());
}

fn counted_row(hex: &str, author: &str, stat: Option<DiffStat>) -> GraphRow {
    GraphRow { oid: oid_of(hex), diff_stat: stat, ..mock_row("x", "y", author) }
}

#[test]
fn known_line_counts_are_carried_over_to_new_rows() {
    let mut graph = new_graph();
    graph.set_rows(vec![counted_row(OID_A, "Bob", None), counted_row(OID_B, "Al", None)], vec![]);
    let stat = DiffStat { additions: 4, deletions: 2 };
    graph.set_diff_stats(vec![(oid_of(OID_A), stat)]);
    assert_eq!(graph.all_rows[0].diff_stat, Some(stat));
    assert_eq!(graph.all_rows[1].diff_stat, None);

    graph.set_rows(
        vec![counted_row(OID_C, "Cy", None), counted_row(OID_A, "Bob", None)],
        vec![],
    );
    assert_eq!(graph.all_rows[0].diff_stat, None);
    assert_eq!(graph.all_rows[1].diff_stat, Some(stat));
    assert_eq!(graph.filter_authors(), vec!["Al", "Bob", "Cy"]);
}

#[test]
fn selection_stays_among_the_rows() {
    let mut graph = new_graph();
    let row = || mock_row("a", "b", "c");
    graph.set_rows(vec![row(), row(), row()], vec![]);
    assert_eq!(graph.state.selected, Some(0));
    graph.state.select(Some(2));
    graph.set_rows(vec![row(), row(), row()], vec![]);
    assert_eq!(graph.state.selected, Some(2));
    graph.set_rows(vec![row()], vec![]);
    assert_eq!(graph.state.selected, Some(0));
}

#[test]
fn seen_branches_stay_and_are_ordered() {
    let mut graph = new_graph();
    graph.set_filter_branches(vec!["main".to_string(), "dev".to_string()]);
    graph.set_filter_branches(vec!["aux".to_string(), "main".to_string()]);
    assert_eq!(graph.filter_branches(), vec!["aux", "dev", "main"]);
}

fn request(load: Option<LoadRequest>) -> (u64, String) {
    let load = load.expect("a build is asked for");
    (load.generation, load.path)
}

#[test]
fn loads_of_one_repository_are_put_together() {
    let mut graph = new_graph();
    graph.register_action_handler();
    assert_eq!(request(graph.load_repo("/r".to_string(), "r")), (1, "/r".to_string()));
    assert!(graph.loading && graph.load_in_flight);
    assert!(graph.load_repo("/r".to_string(), "r").is_none());
    assert!(graph.reload_graph().is_none());
    assert!(graph.needs_reload);
    let again = graph.set_rows(vec![mock_row("a", "b", "c")], vec![]);
    assert_eq!(request(again), (2, "/r".to_string()));
    assert!(!graph.needs_reload);
    assert_eq!(request(graph.load_repo("/s".to_string(), "s")), (3, "/s".to_string()));
    assert_eq!(graph.repo_name, "s");
    assert!(graph.all_rows.is_empty());
}

#[test]
fn failed_build_shows_its_error() {
    let mut graph = new_graph();
    graph.register_action_handler();
    graph.load_repo("/r".to_string(), "r");
    graph.set_error("no HEAD".to_string());
    assert_eq!(graph.error, Some("no HEAD".to_string()));
    assert!(!graph.loading && !graph.load_in_flight);
}

#[test]
fn equal_filters_ask_for_nothing() {
    let mut graph = new_graph();
    graph.register_action_handler();
    graph.repo_path = Some("/r".to_string());
    let mut chosen = NameSet::new();
    chosen.insert("main".to_string());
    let some = GraphFilters { branches: Some(chosen), authors: None };
    let same = some.clone();
    assert!(graph.set_filters(some).is_some());
    assert!(graph.set_filters(same).is_none());
    assert!(graph.set_first_parent(false).is_none());
    graph.set_filter_branches(vec!["main".to_string(), "dev".to_string()]);
    assert_eq!(graph.filter_summary(), Some(" [branches 1/2]".to_string()));
}

#[test]
fn build_reports_once() {
    let request = LoadRequest { generation: 7, path: "/r".to_string(), options: options() };
    let mut guard = GraphLoadGuard::new(7);
    assert!(matches!(guard.on_drop(), Some(Action::GraphLoadAborted { generation: 7 })));
    let report = request.build_report(&mut guard, Ok((vec![mock_row("a", "b", "c")], vec![])));
    assert!(matches!(report.action, Action::GraphLoaded { generation: 7, .. }));
    assert!(report.stats_for.is_none());
    assert!(guard.on_drop().is_none());

    let mut other = GraphLoadGuard::new(7);
    let failed = request.build_report(&mut other, Err("broken".to_string()));
    match failed.action {
        Action::GraphError { generation, message } => {
            assert_eq!((generation, message.as_str()), (7, "Failed to load graph: broken"));
        }
        _ => panic!("a failed build reports its error"),
    }
    assert!(other.on_drop().is_none());

    assert!(request.branches_report(Err("no".to_string())).is_none());
    assert!(request.branches_report(Ok(vec!["main".to_string()])).is_some());
    assert!(request.stats_report(Err("no".to_string())).is_none());
    let mut counting = options();
    counting.show_stats = true;
    let request = LoadRequest { options: counting, ..request };
    let mut guard = GraphLoadGuard::new(7);
    let report = request.build_report(&mut guard, Ok((vec![mock_row("a", "b", "c")], vec![])));
    assert_eq!(report.stats_for, Some(vec![oid_of(OID_A)]));
}

#[test]
fn menu_data_names_the_whole_id() {
    let mut graph = new_graph();
    graph.set_rows(vec![counted_row("0123456789abcdef0123456789abcdef00000fff", "X", None)], vec![]);
    graph.state.select(Some(0));
    assert_eq!(
        graph.selected_commit_menu_data(),
        Some((
            "0123456789abcdef0123456789abcdef00000fff".to_string(),
            "x".to_string(),
            "y".to_string(),
        )),
    );
    assert_eq!(graph.selected_text(), Some("x y".to_string()));
}

#[test]
fn keys_move_and_scroll() {
    let mut graph = new_graph();
    graph.set_rows(vec![mock_row("a", "b", "c"), mock_row("d", "e", "f")], vec![]);
    assert_eq!(graph.state.selected, Some(0));
    graph.handle_key_event(Key::Down);
    assert_eq!(graph.state.selected, Some(1));
    graph.handle_key_event(Key::Up);
    assert_eq!(graph.state.selected, Some(0));
    let wheel = click(MouseKind::ScrollDown, 1, 1);
    graph.graph_list_area = Rect::new(0, 0, 80, 4);
    graph.handle_mouse_event(wheel);
    assert_eq!(graph.state.selected, Some(1));
    graph.select_prev();
    assert_eq!(graph.state.selected, Some(0));
    graph.select_next();
    assert_eq!(graph.state.selected, Some(1));
}

fn remark(graph: &GitGraph) -> (String, Color) {
    match graph.draw_graph_list().body {
        ListBody::Remark { text, color } => (text, color),
        ListBody::Rows { .. } => panic!("a remark is shown"),
    }
}

#[test]
fn remarks_stand_in_place_of_commits() {
    let mut graph = new_graph();
    assert_eq!(remark(&graph), ("No commits".to_string(), Color::Indexed(5)));
    graph.error = Some("broken".to_string());
    assert_eq!(remark(&graph), ("broken".to_string(), Color::Indexed(4)));
    graph.loading = true;
    assert_eq!(remark(&graph), ("Loading graph...".to_string(), Color::Indexed(3)));
}

fn texts_of(pieces: &[Piece]) -> Vec<String> {
    pieces
        .iter()
        .map(|p| match p {
            Piece::Text { text, .. } => text.clone(),
            Piece::Author { text, .. } => text.clone(),
            Piece::Lanes { .. } => "lanes".to_string(),
            Piece::Labels { max_len } => format!("labels {max_len}"),
            Piece::Age { .. } => "age".to_string(),
        })
        .collect()
}

fn rows_of(body: ListBody) -> Vec<Vec<Piece>> {
    match body {
        ListBody::Rows { rows, .. } => rows,
        ListBody::Remark { text, .. } => panic!("commits are shown, got {text}"),
    }
}

#[test]
fn rows_show_what_a_commit_is() {
    let mut graph = new_graph();
    graph.repo_name = "r".to_string();
    let stat = DiffStat { additions: 12, deletions: 0 };
    graph.set_rows(
        vec![counted_row(OID_A, "Bob", Some(stat)), mock_row("d", "other", "Al")],
        vec![],
    );
    let picture = graph.draw(Rect::new(0, 0, 80, 20));
    assert_eq!(picture.list.title, " Git Graph — r ");
    assert_eq!(picture.list.area, Rect::new(0, 0, 80, 20));
    assert_eq!(picture.list.border, Color::Indexed(2));
    assert!(picture.files.is_none() && picture.diff.is_none() && picture.overlay.is_none());
    let rows = rows_of(picture.list.body);
    assert_eq!(
        texts_of(&rows[0]),
        vec!["lanes", "x ", "labels 24", "y", "  — Bob", "age", " +12"],
    );

    graph.search.input = "other".to_string();
    graph.update_search_matches();
    let rows = rows_of(graph.draw_graph_list().body);
    assert_eq!(texts_of(&rows[0]), vec!["lanes", "x ", "y", "  — Bob", "age"]);
    assert!(matches!(rows[0][0], Piece::Lanes { recolor: Some(Color::Indexed(6)) }));
}

#[test]
fn collapsed_branches_are_counted_in_the_title() {
    let mut graph = new_graph();
    graph.repo_name = "r".to_string();
    graph.graph_options.first_parent = true;
    graph.set_rows(make_branch_rows(vec![]), side_branch("side", vec![1, 2]));
    graph.state.select(Some(1));
    graph.toggle_collapse_selected();
    let list = graph.draw_graph_list();
    assert_eq!(list.title, " Git Graph — r [1st-parent] (1 collapsed) ");
    let rows = rows_of(list.body);
    assert_eq!(rows.len(), 2);
    match &rows[1][1] {
        Piece::Text { text, color, emphasis } => {
            assert!(text.contains("side") && text.contains('2'));
            assert_eq!((*color, *emphasis), (Color::Indexed(7), Emphasis::Italic));
        }
        _ => panic!("a placeholder shows its text"),
    }
}

#[test]
fn open_commit_divides_the_panel() {
    let mut graph = new_graph();
    graph.set_rows(vec![mock_row("a", "b", "c")], vec![]);
    graph.set_commit_files("a".to_string(), "msg".to_string(), files(&[("M", "x.rs")]));
    let picture = graph.draw(Rect::new(0, 0, 80, 20));
    assert_eq!(picture.list.area, Rect::new(0, 0, 40, 20));
    assert_eq!(graph.files_area, Rect::new(40, 0, 40, 20));
    let shown = picture.files.expect("the files are shown");
    assert_eq!(shown.files[0].label, " M ");
    assert_eq!(shown.files[0].label_color, Color::Indexed(19));
    assert_eq!(shown.files[0].path, "x.rs");
    assert_eq!(shown.msg_area.height + shown.list_area.height, 20);
    assert!(picture.diff.is_none());

    graph.set_commit_diff("@@ -1 +1 @@\n-a\n+b\n".to_string());
    let picture = graph.draw(Rect::new(0, 0, 80, 20));
    assert_eq!(picture.list.area, Rect::new(0, 0, 32, 20));
    let diff = picture.diff.expect("the diff is shown");
    assert_eq!(diff.area, Rect::new(52, 0, 28, 20));
    let lines: Vec<(&str, Color)> =
        diff.lines.iter().map(|l| (l.text.as_str(), l.color)).collect();
    assert_eq!(
        lines,
        vec![
            ("@@ -1 +1 @@", Color::Indexed(28)),
            ("-a", Color::Indexed(27)),
            ("+b", Color::Indexed(26)),
        ],
    );
}

#[test]
fn panels_share_every_area() {
    let border = |len: u32, percent: u32| ((len * percent + 50) / 100) as u16;
    let mut lengths: Vec<u16> = (0..=420).collect();
    lengths.extend([999, 1000, 1001, 4321, 9999, 32767, 32768, 50001, 65534, 65535]);
    for len in lengths {
        for from in [0u16, 7, 300] {
            let len = len.min(u16::MAX - from);
            let l = len as u32;
            let mut graph = new_graph();
            graph.set_commit_files("a".to_string(), "m".to_string(), files(&[("M", "x")]));
            graph.draw(Rect::new(from, 3, len, 20));
            let half = border(l, 50);
            assert_eq!(graph.graph_list_area, Rect::new(from, 3, half, 20));
            assert_eq!(graph.files_area, Rect::new(from + half, 3, len - half, 20));
            graph.set_commit_diff("+a".to_string());
            graph.horizontal_layout = true;
            graph.draw(Rect::new(3, from, 20, len));
            let (one, two) = (border(l, 40), border(l, 65));
            assert_eq!(graph.graph_list_area, Rect::new(3, from, 20, one));
            assert_eq!(graph.files_area, Rect::new(3, from + one, 20, two - one));
            assert_eq!(graph.diff_area, Rect::new(3, from + two, 20, len - two));
        }
    }
}

#[test]
fn message_and_files_share_every_height() {
    for lines in [1usize, 2, 4, 5, 6, 9] {
        for height in 0..=120u16 {
            let mut graph = new_graph();
            let message = "x\n".repeat(lines);
            graph.set_commit_files("a".to_string(), message, files(&[("M", "x")]));
            graph.draw(Rect::new(0, 5, 80, height));
            let wanted = (lines as u16 + 2).min(height / 3).clamp(3, 8);
            let first = wanted.min(height.saturating_sub(3));
            let detail = graph.commit_detail.as_ref().unwrap();
            assert_eq!(detail.msg_area, Rect::new(40, 5, 40, first), "{lines} {height}");
            assert_eq!(
                detail.file_list_area,
                Rect::new(40, 5 + first, 40, height - first),
                "{lines} {height}",
            );
        }
    }
}

#[test]
fn area_beyond_the_last_coordinate_is_cut() {
    let mut graph = new_graph();
    graph.set_commit_files("a".to_string(), "m".to_string(), files(&[("M", "x")]));
    graph.draw(Rect::new(65500, 0, 100, 20));
    assert_eq!(graph.graph_list_area, Rect::new(65500, 0, 18, 20));
    assert_eq!(graph.files_area, Rect::new(65518, 0, 17, 20));
}

#[test]
fn search_looks_into_lower_case_texts() {
    assert!(found_in("log", "add login", "bob", "def"));
    assert!(found_in("bob", "add login", "bob", "def"));
    assert!(found_in("de", "add login", "bob", "def"));
    assert!(!found_in("alice", "add login", "bob", "def"));
}

#[test]
fn layout_of_an_open_commit() {
    let mut graph = new_graph();
    graph.set_commit_files("a".to_string(), "msg".to_string(), files(&[("M", "x.rs")]));
    assert_eq!(
        graph.panel_layout(),
        vec![Constraint::Percentage(50), Constraint::Percentage(50)],
    );
    assert_eq!(graph.panel_direction(), Direction::Horizontal);
    graph.set_commit_diff("+a".to_string());
    graph.horizontal_layout = true;
    assert_eq!(
        graph.panel_layout(),
        vec![Constraint::Percentage(40), Constraint::Percentage(25), Constraint::Percentage(35)],
    );
    assert_eq!(graph.panel_direction(), Direction::Vertical);
    let height = |message: &str, room: u16| files_layout(message, room)[0];
    assert_eq!(height("one", 60), Constraint::Length(3));
    assert_eq!(height("1\n2\n3\n4", 60), Constraint::Length(6));
    assert_eq!(height("1\n2\n3\n4", 12), Constraint::Length(4));
    assert_eq!(height(&"x\n".repeat(40), 60), Constraint::Length(8));
    assert_eq!(files_layout("one", 60)[1], Constraint::Min(3));
}

#[test]
fn toggling_changes_what_can_be_toggled() {
    let mut graph = new_graph();
    graph.set_rows(make_branch_rows(vec![]), side_branch("a", vec![1, 2]));
    for (row, can) in [(0, false), (1, true), (1, true), (2, true), (9, false)] {
        graph.state.select(Some(row));
        let before = graph.collapsed_branches.len();
        assert_eq!(graph.can_toggle_selected_branch(), can);
        graph.toggle_selected_branch();
        assert_eq!(graph.collapsed_branches.len() != before, can);
    }
}

#[test]
fn open_search_is_shown_over_the_list() {
    let mut graph = graph_with_two_matches();
    graph.search.visible = true;
    let picture = graph.draw(Rect::new(2, 3, 80, 20));
    let overlay = picture.overlay.expect("the search is shown");
    assert_eq!(overlay.text, " / match 1/2 ");
    assert_eq!(overlay.area, Rect::new(2, 22, 15, 1));
}

#[test]
fn statuses_and_diff_lines_have_colors() {
    let t = theme().graph;
    assert_eq!(color_of_status("A", &t), Color::Indexed(20));
    assert_eq!(color_of_status("D", &t), Color::Indexed(21));
    assert_eq!(color_of_status("R", &t), Color::Indexed(22));
    assert_eq!(color_of_status("?", &t), Color::Indexed(23));
    assert_eq!(color_of_diff_line("+x", &t), Color::Indexed(26));
    assert_eq!(color_of_diff_line("-x", &t), Color::Indexed(27));
    assert_eq!(color_of_diff_line("@@ x", &t), Color::Indexed(28));
    assert_eq!(color_of_diff_line("diff --git", &t), Color::Indexed(29));
    assert_eq!(color_of_diff_line(" x", &t), Color::Indexed(30));
}
