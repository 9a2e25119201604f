//! The program as a whole.
use gitpane::action::{
    Action, ClipboardReply, FileChange, SubmoduleOperation, Transfer,
};
use gitpane::app::diff::{
    args_for_file_diff, args_for_new_file, args_for_submodule_diff, args_for_submodule_log,
    args_for_submodule_status, commit_diff_report, commit_files_report, file_diff, new_file_diff, plan_submodule,
    submodule_diff, submodule_log, submodule_status, DiffAnswer,
};
use gitpane::app::effect::{Effect, PendingLaunch};
use gitpane::app::events::Event;
use gitpane::app::git_ops::{
    args_for_change, args_for_submodules, args_for_transfer, git_report, GitOutcome,
};
use gitpane::app::messages::{clean_error, url_command};
use gitpane::app::repos::is_repository;
use gitpane::app::tracking::{
    query_report, refresh_decision, GitOpGuard, RefreshDecision, StatusGuard, Tracking,
};
use gitpane::app::{App, FocusPanel, PendingPick, SortOrder};
use gitpane::base64::base64_encode;
use gitpane::config::Config;
use gitpane::model::{BranchFilter, GraphRow, Oid};
use gitpane::order::{sort_by_keys, stable_order, SortKey};
use gitpane::screen::{Color, GraphTheme, RepoListTheme, Theme};
use gitpane::status::{
    graph_status_changed, FileEntry, RefsFingerprint, RepoId, RepoStatus, SubmoduleInfo,
    SubmoduleState, WorktreeEntry,
};
use gitpane::text::{byte_len, contains_text, is_whitespace, lines, number, take_bytes, trim};

fn theme() -> Theme {
    let c = Color::Indexed;
    Theme {
        graph: GraphTheme {
            border_focused: c(1),
            border_unfocused: c(2),
            loading: c(3),
            error_text: c(4),
            empty: c(5),
            dimmed: c(6),
            collapsed_message: c(7),
            commit_id: c(8),
            merge_message: c(9),
            commit_message: c(10),
            time: c(11),
            addition: c(12),
            deletion: c(13),
            selection_bg: c(14),
            commit_msg_border: c(15),
            commit_msg_text: c(16),
            commit_files_border: c(17),
            commit_files_empty: c(18),
            commit_files_status_modified: c(19),
            commit_files_status_added: c(20),
            commit_files_status_deleted: c(21),
            commit_files_status_renamed: c(22),
            commit_files_status_other: c(23),
            commit_files_path: c(24),
            commit_diff_border: c(25),
            commit_diff_added: c(26),
            commit_diff_removed: c(27),
            commit_diff_hunk: c(28),
            commit_diff_meta: c(29),
            commit_diff_context: c(30),
            search_overlay_fg: c(31),
            search_overlay_bg: c(32),
        },
        repo_list: RepoListTheme {
            border_focused: c(41),
            border_unfocused: c(42),
            selection_bg: c(43),
        },
    }
}

const SECOND: u128 = 1_000_000_000;

fn texts(items: &[&str]) -> Vec<String> {
    items.iter().map(|s| s.to_string()).collect()
}

fn id(path: &str) -> RepoId {
    RepoId(path.to_string())
}

fn config() -> Config {
    Config {
        root_dirs: texts(&["/ws"]),
        pinned_repos: vec![],
        excluded_repos: vec![],
        refresh_cooldown_ms: 2000,
        discovery_cooldown_secs: 5,
        debounce_ms: 300,
        watch_exclude_dirs: texts(&["target"]),
        watch_worktree_dirs: true,
        show_liveness: true,
        check_for_updates: true,
        branches: BranchFilter::All,
        label_max_len: 24,
        show_stats: false,
        theme: theme(),
        theme_name: "default".to_string(),
        runtime_theme_override: None,
    }
}

fn status(branch: &str) -> RepoStatus {
    RepoStatus {
        branch: branch.to_string(),
        head_oid: None,
        files: vec![FileEntry { status: "M".to_string(), path: "x.rs".to_string() }],
        ahead: 0,
        behind: 0,
        is_dirty: true,
        worktree_info: Vec::new(),
        has_submodules: false,
        submodules: Vec::new(),
        has_dirty_submodules: false,
        has_unpushed_submodules: false,
        fetch_failed: false,
        stashes: Vec::new(),
        refs: RefsFingerprint { local: 1, remote: 2, tags: 3 },
    }
}

fn started(paths: &[&str]) -> App {
    let mut app = App::new(config(), texts(paths));
    app.start(true);
    app
}

fn sent(action: &Action) -> String {
    match action {
        Action::Quit => "quit".to_string(),
        Action::Tick => "tick".to_string(),
        Action::Render => "render".to_string(),
        Action::PollLocal => "poll".to_string(),
        Action::PollFetch => "fetch".to_string(),
        Action::Resize { width, height } => format!("resize {width} {height}"),
        Action::SelectRepo(id) => format!("select {}", id.0),
        Action::RefreshRepo(id) => format!("refresh {}", id.0),
        Action::RefreshRepoAfterCooldown(id) => format!("refresh later {}", id.0),
        Action::StatusQueryDone(id) => format!("done {}", id.0),
        Action::RepoStatusUpdated { id, .. } => format!("status {}", id.0),
        Action::GitOpComplete { id, message } => format!("complete {}: {message}", id.0),
        Action::SelectWorktree { worktree_path, .. } => format!("worktree {worktree_path}"),
        Action::ShowCommitFiles { oid, .. } => format!("commit files {oid}"),
        Action::ShowCommitDiff { file_path, .. } => format!("commit diff {file_path}"),
        Action::Error(text) => format!("error {text}"),
        _ => "other".to_string(),
    }
}

fn told(effects: &[Effect]) -> Vec<String> {
    effects
        .iter()
        .map(|e| match e {
            Effect::Send(action) => format!("send {}", sent(action)),
            Effect::Forward(_) => "forward".to_string(),
            Effect::Draw => "draw".to_string(),
            Effect::ClearExpiredMessages => "expire".to_string(),
            Effect::CopyToClipboard { text, connect } => format!("copy {text} {connect}"),
            Effect::HideContextMenu => "hide menu".to_string(),
            Effect::SetFiles { files, name, id } => {
                format!("files {} {name} {}", files.len(), id.0)
            }
            Effect::GithubTouchSelection => "touch".to_string(),
            Effect::Load(load) => format!("load {} {}", load.generation, load.path),
            Effect::OpenPathContext { path, display_name, .. } => {
                format!("open {path} {display_name}")
            }
            Effect::RefreshPathContext { path, .. } => format!("reopen {path}"),
            Effect::QueryStatus { id, fetch, announce, .. } => {
                format!("query {} {fetch} {announce}", id.0)
            }
            Effect::RefreshLater { id, wait } => format!("later {} {wait}", id.0),
            Effect::ProbeLiveness => "probe".to_string(),
            Effect::LaunchOpen(dir) => format!("open at {dir}"),
            Effect::LaunchReview(dir) => format!("review at {dir}"),
            Effect::RepoGitOp { repo, args } => format!("git in {repo}: {}", args.join(" ")),
            Effect::FileGitOp { dir, args, .. } => format!("git at {dir}: {}", args.join(" ")),
            Effect::RunGit { dir, id, args } => {
                format!("git for {} in {dir}: {}", id.0, args.join(" "))
            }
            Effect::ConfirmRemoveWorktree { worktree_path, .. } => {
                format!("confirm removal {worktree_path}")
            }
            Effect::ConfirmDiscard { message, .. } => format!("confirm {message}"),
            Effect::HidePicker => "hide picker".to_string(),
            Effect::ResumeLaunch { launch, placement } => {
                format!("resume {} {placement}", launch.dir)
            }
            Effect::GotoSession(name) => format!("go to {name}"),
            Effect::ShowGraphFilters { branches, .. } => format!("filters {}", branches.len()),
            Effect::HideGraphFilters => "hide filters".to_string(),
            Effect::ShowGraphMenu { full_hash, .. } => format!("graph menu {full_hash}"),
            Effect::ShowMenu { id, is_worktree, .. } => format!("menu {} {is_worktree}", id.0),
            Effect::WriteTerminal(text) => format!("write {text}"),
            Effect::SubmoduleDiff { dir, .. } => format!("submodule diff {dir}"),
            Effect::SubmoduleLog { dir, range, .. } => format!("submodule log {dir} {range}"),
            Effect::FileDiff { dir, file, generation } => format!("diff {dir} {file} {generation}"),
            Effect::SetDiff(text) => format!("show diff {text}"),
            Effect::ListCommitFiles { oid, generation, .. } => format!("list {oid} {generation}"),
            Effect::GetCommitDiff { file_path, generation, .. } => {
                format!("get {file_path} {generation}")
            }
            Effect::HidePathInput => "hide input".to_string(),
            Effect::SaveConfig => "save".to_string(),
            Effect::SaveTheme(name) => format!("save theme {name}"),
            Effect::Rescan => "rescan".to_string(),
            Effect::Discover => "discover".to_string(),
            Effect::DiscoverLater(wait) => format!("discover later {wait}"),
            Effect::Watch { repo_paths, .. } => format!("watch {}", repo_paths.join(" ")),
            Effect::PruneGithub(paths) => format!("prune {}", paths.join(" ")),
            Effect::CheckForUpdates => "check for updates".to_string(),
            Effect::ApplyTheme(_) => "apply theme".to_string(),
            Effect::HideThemePicker => "hide themes".to_string(),
        })
        .collect()
}

fn act(app: &mut App, action: Action, now: u128) -> Vec<String> {
    told(&app.handle_action(action, now))
}

#[test]
fn start_queries_watches_and_shows_the_first_repository() {
    let mut app = App::new(config(), texts(&["/ws/a", "/ws/b"]));
    assert_eq!(
        told(&app.start(false)),
        texts(&[
            "send poll",
            "watch /ws/a /ws/b",
            "check for updates",
            "send error git not found on PATH: viewing works, but fetch/pull and submodule actions need git",
            "touch",
            "files 0 a /ws/a",
            "load 1 /ws/a",
        ]),
    );
    let mut quiet = App::new(Config { check_for_updates: false, ..config() }, vec![]);
    assert_eq!(told(&quiet.start(true)), texts(&["send poll", "watch ", "touch"]));
}

#[test]
fn events_become_actions() {
    let mut app = started(&["/ws/a"]);
    let mut told_by = |event: Event| told(&app.handle_event(event, 0));
    assert_eq!(told_by(Event::Quit), texts(&["send quit"]));
    assert_eq!(told_by(Event::Tick { has_pending_actions: false }), texts(&["send tick"]));
    assert_eq!(
        told_by(Event::Tick { has_pending_actions: true }),
        texts(&["send tick", "send render"]),
    );
    assert_eq!(told_by(Event::Render), texts(&["send render"]));
    assert_eq!(told_by(Event::Resize { width: 3, height: 4 }), texts(&["send resize 3 4"]));
    assert_eq!(
        told_by(Event::RepoChanged("/ws/a".to_string())),
        texts(&["send refresh /ws/a"]),
    );
    assert_eq!(told_by(Event::ReposRootChanged), texts(&["discover"]));
    assert_eq!(told_by(Event::PollLocal), texts(&["send poll"]));
    assert_eq!(told_by(Event::PollFetch), texts(&["send fetch"]));
    assert_eq!(told_by(Event::FocusGained), texts(&["send refresh /ws/a"]));
    assert_eq!(told_by(Event::Other), texts(&[]));
}

#[test]
fn refreshes_wait_for_the_cooldown() {
    assert_eq!(refresh_decision(None, 0, SECOND), RefreshDecision::Now);
    assert_eq!(refresh_decision(Some(5), 5 + SECOND, SECOND), RefreshDecision::Now);
    assert_eq!(refresh_decision(Some(5), 6, SECOND), RefreshDecision::Later(SECOND - 1));

    let mut app = started(&["/ws/a"]);
    assert_eq!(
        act(&mut app, Action::RefreshRepo(id("/ws/a")), 0),
        texts(&["query /ws/a false false"]),
    );
    assert_eq!(act(&mut app, Action::RefreshRepo(id("/ws/a")), 1), texts(&[]));
    assert_eq!(act(&mut app, Action::RefreshRepo(id("/ws/a")), 2), texts(&[]));
    assert_eq!(
        act(&mut app, Action::StatusQueryDone(id("/ws/a")), SECOND),
        texts(&["later /ws/a 2000000000"]),
    );
    assert_eq!(act(&mut app, Action::RefreshRepo(id("/ws/a")), SECOND + 1), texts(&[]));
    assert_eq!(
        act(&mut app, Action::RefreshRepoAfterCooldown(id("/ws/a")), 3 * SECOND),
        texts(&["query /ws/a false false"]),
    );
    assert_eq!(
        act(&mut app, Action::RefreshRepoAfterCooldown(id("/ws/a")), 9 * SECOND),
        texts(&[]),
    );
    assert_eq!(act(&mut app, Action::RefreshRepo(id("/elsewhere")), 0), texts(&[]));
}

#[test]
fn new_state_of_the_selected_repository_is_shown() {
    let mut app = started(&["/ws/a", "/ws/b"]);
    let shown = act(
        &mut app,
        Action::RepoStatusUpdated { id: id("/ws/a"), status: status("main") },
        SECOND,
    );
    assert_eq!(shown, texts(&["files 1 a /ws/a"]));
    assert!(app.git_graph.needs_reload);
    let other = act(
        &mut app,
        Action::RepoStatusUpdated { id: id("/ws/b"), status: status("main") },
        SECOND,
    );
    assert_eq!(other, texts(&[]));
    assert_eq!(app.repo_list.entry(1).status.as_ref().unwrap().branch, "main");
}

#[test]
fn polls_pass_over_what_is_busy() {
    let mut app = started(&["/ws/a", "/ws/b", "/ws/c"]);
    app.repo_list.set_git_op(1, true);
    assert_eq!(
        act(&mut app, Action::PollLocal, 0),
        texts(&["probe", "query /ws/a false false", "query /ws/c false false"]),
    );
    assert_eq!(act(&mut app, Action::PollFetch, 0), texts(&[]));
    assert_eq!(act(&mut app, Action::PollLocal, 0), texts(&[]));
    act(&mut app, Action::LiveSessionsLoaded(texts(&["/ws/a"])), 0);
    assert_eq!(act(&mut app, Action::PollLocal, 0), texts(&["probe"]));
    assert_eq!(
        act(&mut app, Action::RefreshAll, 0),
        texts(&["query /ws/a true true", "query /ws/b true true", "query /ws/c true true"]),
    );
    assert!(app.repo_list.entry(2).git_op);
}

#[test]
fn selecting_shows_files_and_graph() {
    let mut app = started(&["/ws/a", "/ws/b"]);
    assert_eq!(
        act(&mut app, Action::SelectRepo(id("/ws/b")), 0),
        texts(&["hide menu", "files 0 b /ws/b", "load 2 /ws/b", "touch"]),
    );
    assert_eq!(app.repo_list.selected_index(), Some(1));
    assert_eq!(
        act(&mut app, Action::FocusRepoDetails(id("/ws/a")), 0),
        texts(&["hide menu", "files 0 a /ws/a", "load 3 /ws/a", "touch"]),
    );
    assert_eq!(app.repo_list.selected_index(), Some(1));
    assert_eq!(act(&mut app, Action::ShowGitGraph, 0), texts(&["hide menu", "load 4 /ws/b"]));
    assert_eq!(app.focus, FocusPanel::Graph);
    act(&mut app, Action::ShowFileList, 0);
    assert_eq!(app.focus, FocusPanel::Changes);
}

fn worktree(path: &str, branch: &str) -> WorktreeEntry {
    WorktreeEntry {
        name: branch.to_string(),
        path: path.to_string(),
        branch: branch.to_string(),
        ahead: 0,
        behind: 0,
        is_dirty: false,
        file_count: 0,
        has_dirty_submodules: false,
        has_unpushed_submodules: false,
    }
}

#[test]
fn worktree_that_is_shown_stays_shown() {
    let mut app = started(&["/ws/a"]);
    let mut known = status("main");
    known.worktree_info.push(worktree("/wt/f", "f"));
    app.repo_list.update_status(0, known);
    let opened = act(
        &mut app,
        Action::SelectWorktree {
            repo_id: id("/ws/a"),
            worktree_path: "/wt/f".to_string(),
            worktree_branch: "f".to_string(),
        },
        0,
    );
    assert_eq!(opened, texts(&["open /wt/f a:f", "touch"]));
    assert_eq!(
        act(&mut app, Action::CycleSortOrder, 0),
        texts(&["touch", "reopen /wt/f"]),
    );
    assert_eq!(app.sort_order, SortOrder::DirtyFirst);
    assert_eq!(
        act(&mut app, Action::ShowGitGraph, 0),
        texts(&["hide menu", "reopen /wt/f"]),
    );
    let mut same = status("main");
    same.worktree_info.push(worktree("/wt/f", "f"));
    assert_eq!(
        act(&mut app, Action::RepoStatusUpdated { id: id("/ws/a"), status: same }, 0),
        texts(&[]),
    );
    let files = |path: &str| Action::WorktreeFilesLoaded {
        repo_id: id("/ws/a"),
        worktree_path: path.to_string(),
        name: "a:f".to_string(),
        changes: vec![],
    };
    assert_eq!(act(&mut app, files("/wt/f"), 0), texts(&["files 0 a:f /ws/a"]));
    assert_eq!(act(&mut app, files("/wt/g"), 0), texts(&[]));
    assert_eq!(
        act(&mut app, Action::RefreshRepo(id("/wt/f")), 9 * SECOND),
        texts(&["query /ws/a false false"]),
    );
    assert_eq!(
        act(&mut app, Action::RemoveWorktreeAt(id("/wt/f")), 0),
        texts(&["confirm removal /wt/f"]),
    );
    let removed = act(
        &mut app,
        Action::RemoveWorktree { repo: "/ws/a".to_string(), worktree_path: "/wt/f".to_string() },
        0,
    );
    assert_eq!(removed, texts(&["git in /ws/a: worktree remove -- /wt/f"]));
    assert!(app.active_worktree.is_none());
}

#[test]
fn uninitialized_submodules_cannot_be_shown() {
    let mut app = started(&["/ws/a"]);
    let mut known = status("main");
    known.submodules.push(SubmoduleInfo {
        path: "lib".to_string(),
        state: Some(SubmoduleState::Uninitialized),
        head_oid: None,
        workdir_oid: None,
    });
    app.repo_list.update_status(0, known);
    let select = |path: &str| Action::SelectSubmodule {
        repo_id: id("/ws/a"),
        sub_path: path.to_string(),
    };
    assert_eq!(
        act(&mut app, select("lib"), 0),
        texts(&["send error Submodule lib is not initialized"]),
    );
    assert_eq!(act(&mut app, select("dep"), 0), texts(&["open /ws/a/dep a/dep", "touch"]));
}

#[test]
fn stale_builds_are_dropped() {
    let mut app = started(&["/ws/a"]);
    let row = || GraphRow {
        commit_col: 0,
        oid: Oid { hi: 0, lo: 1 },
        short_id: "0000000".to_string(),
        message: "m".to_string(),
        author: "A".to_string(),
        time: 0,
        labels: vec![],
        is_merge: false,
        parent_oids: vec![],
        diff_stat: None,
        collapsed: None,
    };
    let loaded = |generation: u64| Action::GraphLoaded {
        generation,
        rows: vec![row()],
        segments: vec![],
    };
    assert_eq!(act(&mut app, loaded(7), 0), texts(&[]));
    assert!(app.git_graph.all_rows.is_empty() && app.git_graph.loading);
    act(&mut app, Action::GraphError { generation: 7, message: "x".to_string() }, 0);
    act(&mut app, Action::GraphLoadAborted { generation: 7 }, 0);
    assert!(app.git_graph.error.is_none() && app.git_graph.loading);
    act(&mut app, loaded(1), 0);
    assert_eq!(app.git_graph.all_rows.len(), 1);
    assert_eq!(
        act(&mut app, Action::OpenGraphContextMenu, 0),
        texts(&["hide filters", "graph menu 0000000000000000000000000000000000000001"]),
    );
    assert_eq!(
        act(&mut app, Action::OpenGraphCommitFiles, 0),
        texts(&["send commit files 0000000000000000000000000000000000000001"]),
    );
    let files = |generation: u64| Action::CommitFilesLoaded {
        generation,
        oid: "1".to_string(),
        message: "m".to_string(),
        files: vec![("M".to_string(), "x.rs".to_string())],
    };
    act(&mut app, files(99), 0);
    assert!(app.git_graph.commit_detail.is_none());
    let now = app.git_graph.current_detail_generation();
    assert_eq!(act(&mut app, files(now), 0), texts(&["send commit diff x.rs"]));
    assert!(app.git_graph.has_detail());
    assert_eq!(app.git_graph.commit_detail.as_ref().unwrap().file_state.selected, Some(0));
    act(&mut app, Action::SetGraphFirstParent(true), 0);
    assert!(app.git_graph.first_parent());
    act(&mut app, Action::ResetGraphFilters, 0);
    assert!(!app.git_graph.first_parent());
    assert_eq!(act(&mut app, Action::OpenGraphFilters, 0), texts(&["filters 0"]));
}

#[test]
fn git_gets_its_arguments() {
    let mut app = started(&["/ws/a"]);
    app.repo_list.update_status(0, status("main"));
    assert_eq!(
        act(&mut app, Action::GitTransfer { id: id("/ws/a"), transfer: Transfer::Push }, 0),
        texts(&["git for /ws/a in /ws/a: push origin main"]),
    );
    assert!(app.repo_list.entry(0).git_op);
    assert_eq!(args_for_transfer(Transfer::Pull, ""), texts(&["pull"]));
    assert_eq!(
        args_for_transfer(Transfer::PullRebase, "(no branch)"),
        texts(&["pull", "--rebase"]),
    );
    assert_eq!(
        args_for_transfer(Transfer::PullSubmodules, "dev"),
        texts(&["pull", "--recurse-submodules", "origin", "dev"]),
    );
    assert_eq!(
        args_for_submodules(SubmoduleOperation::Update),
        texts(&["submodule", "update", "--init", "--recursive"]),
    );
    assert_eq!(args_for_submodules(SubmoduleOperation::Sync), texts(&["submodule", "sync"]));
    assert_eq!(
        args_for_submodules(SubmoduleOperation::UpdateLatest),
        texts(&["submodule", "foreach", "git", "pull", "origin", "HEAD"]),
    );
    assert_eq!(args_for_change(FileChange::Stage, "-x"), texts(&["add", "-A", "--", "-x"]));
    assert_eq!(args_for_change(FileChange::Unstage, "x"), texts(&["reset", "-q", "--", "x"]));
    assert_eq!(
        args_for_change(FileChange::DiscardUntracked, "x"),
        texts(&["clean", "-fdq", "--", "x"]),
    );
    assert_eq!(
        args_for_change(FileChange::DiscardTracked, "x"),
        texts(&["restore", "--staged", "--worktree", "--", "x"]),
    );
    assert_eq!(
        act(
            &mut app,
            Action::CreateWorktree {
                repo: "/ws/a".to_string(),
                branch: "f".to_string(),
                new_path: "/wt/f".to_string(),
            },
            0,
        ),
        texts(&["git in /ws/a: worktree add -b f -- /wt/f"]),
    );
    assert_eq!(
        act(
            &mut app,
            Action::DiscardFile {
                id: id("/ws/a"),
                path: "src/x.rs".to_string(),
                is_untracked: true,
            },
            0,
        ),
        texts(&["confirm Delete untracked 'x.rs'? This cannot be undone."]),
    );
    let change = |dir: Option<String>| Action::ChangeFile {
        id: id("/ws/a"),
        path: "x".to_string(),
        change: FileChange::Stage,
        dir,
    };
    assert_eq!(
        act(&mut app, change(Some("/ws/a".to_string())), 0),
        texts(&["git at /ws/a: add -A -- x"]),
    );
    assert_eq!(act(&mut app, change(None), 0), texts(&[]));
    assert_eq!(act(&mut app, Action::OpenAt(id("/ws/a")), 0), texts(&["open at /ws/a"]));
    assert_eq!(act(&mut app, Action::ReviewAt(id("/ws/a")), 0), texts(&["review at /ws/a"]));
    assert_eq!(act(&mut app, Action::ReviewAt(id("/nope")), 0), texts(&[]));
}

#[test]
fn git_reports_its_outcome() {
    let args = texts(&["push", "origin"]);
    let report = |outcome: GitOutcome| {
        let mut guard = GitOpGuard::new(id("/r"));
        let actions = git_report(&mut guard, &args, outcome);
        assert!(guard.on_drop().is_none());
        actions.iter().map(sent).collect::<Vec<String>>()
    };
    assert_eq!(report(GitOutcome::Succeeded), texts(&["complete /r: git push origin succeeded"]));
    assert_eq!(
        report(GitOutcome::Failed("\n  \n rejected \nmore".to_string())),
        texts(&["error git push origin failed: rejected", "refresh /r"]),
    );
    assert_eq!(
        report(GitOutcome::Failed(" \n".to_string())),
        texts(&["error git push origin failed: unknown error", "refresh /r"]),
    );
    assert_eq!(
        report(GitOutcome::NotRun("no git".to_string())),
        texts(&["error git push origin failed: no git", "refresh /r"]),
    );
    assert_eq!(sent(&GitOpGuard::new(id("/r")).on_drop().unwrap()), "refresh /r");
    let mut app = started(&["/ws/a"]);
    let complete =
        Action::GitOpComplete { id: id("/ws/a"), message: "git push succeeded".to_string() };
    assert_eq!(act(&mut app, complete, 3), texts(&["send refresh /ws/a"]));
    assert_eq!(app.success_message.as_ref().unwrap().text, "git push succeeded");
    assert_eq!(app.success_message.as_ref().unwrap().at, 3);
}

#[test]
fn queries_report_once() {
    let mut guard = StatusGuard::new(id("/r"));
    assert_eq!(sent(&guard.on_drop().unwrap()), "done /r");
    let found = query_report(&mut guard, Ok(status("main")), true);
    assert_eq!(found.iter().map(sent).collect::<Vec<String>>(), texts(&["status /r"]));
    assert!(guard.on_drop().is_none());
    let mut quiet = StatusGuard::new(id("/r"));
    let failed = query_report(&mut quiet, Err("broken".to_string()), false);
    assert_eq!(failed.iter().map(sent).collect::<Vec<String>>(), texts(&["done /r"]));
    let mut loud = StatusGuard::new(id("/r"));
    let shown = query_report(&mut loud, Err("broken".to_string()), true);
    assert_eq!(shown.len(), 2);
    assert!(loud.on_drop().is_none());

    let mut tracking = Tracking::new();
    tracking.start(&id("/r"));
    assert!(tracking.is_pending(&id("/r")));
    tracking.mark(&id("/r"));
    assert!(tracking.finish(&id("/r"), 4));
    assert!(!tracking.is_pending(&id("/r")));
    assert_eq!(tracking.last_refresh_of("/r"), Some(4));
    tracking.put_off(&id("/r"));
    assert!(tracking.is_scheduled(&id("/r")));
    tracking.forget("/r");
    assert!(!tracking.is_scheduled(&id("/r")));
    assert_eq!(tracking.last_refresh_of("/r"), None);
}

#[test]
fn errors_are_cut_to_one_line() {
    assert_eq!(clean_error("a\nb"), "a b");
    let long = "x".repeat(121);
    let cut = clean_error(&long);
    assert_eq!(cut, format!("{}...", "x".repeat(117)));
    assert_eq!(cut.len(), 120);
    assert_eq!(clean_error(&"x".repeat(120)), "x".repeat(120));
    assert_eq!(clean_error(&"\u{e9}".repeat(61)), "\u{e9}".repeat(61));
    assert_eq!(clean_error(&"\u{20ac}".repeat(121)), format!("{}...", "\u{20ac}".repeat(117)));

    let mut app = started(&[]);
    act(&mut app, Action::Error("bad\nthing".to_string()), 5);
    assert_eq!(app.error_message.as_ref().unwrap().text, "bad thing");
    assert!(!app.clear_expired_messages(false, true));
    assert!(app.error_message.is_some());
    assert!(app.clear_expired_messages(true, false));
    assert!(app.error_message.is_none());
}

#[test]
fn clipboard_is_connected_to_when_needed() {
    let mut app = started(&["/ws/a"]);
    let copy = || Action::CopyText("t".to_string());
    assert_eq!(act(&mut app, copy(), 0), texts(&["copy t true"]));
    act(&mut app, Action::ClipboardReplied(ClipboardReply::Copied), 0);
    assert_eq!(act(&mut app, copy(), 0), texts(&["copy t false"]));
    act(&mut app, Action::ClipboardReplied(ClipboardReply::Failed("gone".to_string())), 0);
    assert!(!app.clipboard_connected);
    assert_eq!(act(&mut app, copy(), 0), texts(&["copy t true"]));
    act(&mut app, Action::ClipboardReplied(ClipboardReply::NoBackend), 0);
    assert!(!app.clipboard_connected);
    assert_eq!(
        act(&mut app, Action::CopyPath(id("/ws/a")), 0),
        vec![format!("write \u{1b}]52;c;{}\u{1b}\\", base64_encode(b"/ws/a"))],
    );
}

#[test]
fn pages_are_opened_by_the_system() {
    assert_eq!(url_command("https://x", true), texts(&["open", "https://x"]));
    assert_eq!(url_command("https://x", false), texts(&["xdg-open", "https://x"]));
}

#[test]
fn white_space_is_what_the_standard_library_says() {
    for c in '\u{0}'..=char::MAX {
        assert_eq!(is_whitespace(c), c.is_whitespace(), "{c:?}");
    }
}

#[test]
fn base64_is_padded() {
    assert_eq!(base64_encode(b""), "");
    assert_eq!(base64_encode(b"f"), "Zg==");
    assert_eq!(base64_encode(b"fo"), "Zm8=");
    assert_eq!(base64_encode(b"foo"), "Zm9v");
    assert_eq!(base64_encode(b"foob"), "Zm9vYg==");
    assert_eq!(base64_encode(&[0xfb, 0xff, 0xbf]), "+/+/");
    for n in 0..40usize {
        let text = base64_encode(&vec![200u8; n]);
        let pad = (3 - n % 3) % 3;
        assert_eq!(text.len() % 4, 0);
        let (body, end) = text.split_at(text.len() - pad);
        assert_eq!(end, "=".repeat(pad));
        assert!(body.chars().all(|c| c.is_ascii_alphanumeric() || c == '+' || c == '/'));
    }
}

#[test]
fn choices_are_carried_out() {
    let mut app = started(&["/ws/a"]);
    app.pending_pick = Some(PendingPick::GotoSession);
    assert_eq!(
        act(&mut app, Action::PickerChose("s1".to_string()), 0),
        texts(&["hide picker", "go to s1"]),
    );
    assert!(app.pending_pick.is_none());
    app.pending_pick = Some(PendingPick::Launch(PendingLaunch {
        dir: "/ws/a".to_string(),
        command: None,
        base: None,
        label: "a".to_string(),
    }));
    assert_eq!(
        act(&mut app, Action::PickerChose("tab".to_string()), 0),
        texts(&["hide picker", "resume /ws/a tab"]),
    );
    app.pending_pick = Some(PendingPick::GotoSession);
    act(&mut app, Action::PickerCancel, 0);
    assert!(app.pending_pick.is_none());
    act(&mut app, Action::Quit, 0);
    assert!(app.should_quit);
    act(&mut app, Action::UpdateAvailable("9.9".to_string()), 0);
    assert_eq!(app.update_version, Some("9.9".to_string()));
    assert_eq!(act(&mut app, Action::Tick, 0), texts(&["expire"]));
    assert_eq!(act(&mut app, Action::Render, 0), texts(&["draw"]));
}

fn other_theme() -> Theme {
    let mut other = theme();
    other.repo_list.border_focused = Color::Red;
    other
}

#[test]
fn themes_are_previewed_kept_and_given_up() {
    let mut app = started(&["/ws/a"]);
    let preview = Action::PreviewTheme { name: "red".to_string(), loaded: Ok(other_theme()) };
    assert_eq!(act(&mut app, preview, 0), texts(&["apply theme"]));
    assert_eq!(app.theme, other_theme());
    assert_eq!(app.repo_list.theme, other_theme());
    assert_eq!(app.git_graph.theme, other_theme());
    let cancel = Action::CancelThemePreview {
        snapshot: Some(theme()),
        original_name: Some("default".to_string()),
    };
    act(&mut app, cancel, 0);
    assert_eq!(app.theme, theme());
    let missing = Action::PreviewTheme { name: "x".to_string(), loaded: Err("no".to_string()) };
    act(&mut app, missing, 0);
    assert_eq!(app.theme, theme());
    let commit = Action::CommitTheme { name: "red".to_string(), loaded: Ok(other_theme()) };
    let kept = act(&mut app, commit, 0);
    assert!(kept.contains(&"save theme red".to_string()), "got {kept:?}");
    assert_eq!(app.config.theme_name, "red");
    act(&mut app, Action::ThemeSaved { name: "red".to_string(), failure: None }, 0);
    assert!(app.success_message.is_some());
    let failed =
        Action::ThemeSaved { name: "red".to_string(), failure: Some("disk full".to_string()) };
    act(&mut app, failed, 0);
    assert!(app.error_message.is_some());
}

#[test]
fn repositories_are_added_and_removed() {
    let mut app = started(&["/ws/a"]);
    assert!(is_repository(true, false) && is_repository(false, true));
    assert!(!is_repository(false, false));
    let add = |path: &str, found: bool| Action::AddRepo {
        path: path.to_string(),
        has_dot_git: found,
        has_head: false,
    };
    assert_eq!(act(&mut app, add("/x/none", false), 0), texts(&["hide input"]));
    assert_eq!(
        act(&mut app, add("/x/b", true), 0),
        texts(&["hide input", "save", "send refresh /x/b", "send select /x/b"]),
    );
    assert_eq!(app.config.pinned_repos, texts(&["/x/b"]));
    assert_eq!(app.repo_list.len(), 2);
    assert_eq!(
        act(&mut app, Action::RemoveRepo(id("/x/b")), 0),
        texts(&["save", "send select /ws/a"]),
    );
    assert!(app.config.pinned_repos.is_empty());
    assert_eq!(app.config.excluded_repos, texts(&["b"]));
    assert_eq!(app.repo_list.len(), 1);
    assert_eq!(act(&mut app, Action::RescanRepos, 0), texts(&["save", "rescan"]));
    assert!(app.config.excluded_repos.is_empty());
    let rescanned = act(&mut app, Action::ReposRescanned(texts(&["/ws/z", "/ws/c"])), 0);
    assert_eq!(
        rescanned,
        texts(&["watch /ws/z /ws/c", "send poll", "touch", "files 0 c /ws/c", "load 2 /ws/c"]),
    );
}

#[test]
fn discovery_is_put_off_once() {
    let mut app = started(&["/ws/a"]);
    let same = act(&mut app, Action::DiscoverNewRepos(texts(&["/ws/a"])), SECOND);
    assert_eq!(same, texts(&[]));
    assert_eq!(app.last_discovery, Some(SECOND));
    assert_eq!(
        told(&app.handle_event(Event::ReposRootChanged, 2 * SECOND)),
        texts(&["discover later 4000000000"]),
    );
    assert_eq!(told(&app.handle_event(Event::ReposRootChanged, 3 * SECOND)), texts(&[]));
    let news = act(&mut app, Action::DiscoverNewRepos(texts(&["/ws/a", "/ws/b"])), 6 * SECOND);
    assert!(news.contains(&"send refresh /ws/b".to_string()), "got {news:?}");
    assert!(news.contains(&"watch /ws/a /ws/b".to_string()), "got {news:?}");
    assert_eq!(app.repo_list.len(), 2);
}

#[test]
fn discovery_keeps_the_selection_and_what_is_known() {
    let mut app = started(&["/ws/b", "/ws/c", "/ws/d"]);
    act(&mut app, Action::SelectRepo(id("/ws/c")), 0);
    act(&mut app, Action::RefreshRepo(id("/ws/c")), 0);
    act(&mut app, Action::RefreshRepo(id("/ws/d")), 0);
    act(&mut app, Action::RefreshRepo(id("/ws/c")), 0);
    app.config.excluded_repos.push("x".to_string());
    let news =
        act(&mut app, Action::DiscoverNewRepos(texts(&["/ws/c", "/ws/a", "/ws/b"])), SECOND);
    assert_eq!(
        news,
        texts(&[
            "prune /ws/d",
            "watch /ws/a /ws/b /ws/c",
            "send refresh /ws/a",
            "touch",
            "files 0 c /ws/c",
        ]),
    );
    assert_eq!(app.repo_list.selected_repo().unwrap().path, "/ws/c");
    assert!(app.tracking.is_pending(&id("/ws/c")));
    assert!(!app.tracking.is_pending(&id("/ws/d")));
    assert_eq!(app.config.excluded_repos, texts(&["x"]));
    assert_eq!(
        act(&mut app, Action::StatusQueryDone(id("/ws/c")), SECOND),
        texts(&["later /ws/c 2000000000"]),
    );
}

#[test]
fn diffs_are_planned_and_shown() {
    let mut app = started(&["/ws/a"]);
    let show = |path: &str| Action::ShowDiff {
        id: id("/ws/a"),
        file_path: path.to_string(),
        generation: 4,
    };
    assert_eq!(act(&mut app, show("x.rs"), 0), texts(&["diff /ws/a x.rs 4"]));
    let mut known = status("main");
    known.submodules.push(SubmoduleInfo {
        path: "lib".to_string(),
        state: Some(SubmoduleState::Dirty),
        head_oid: None,
        workdir_oid: None,
    });
    app.repo_list.update_status(0, known);
    assert_eq!(act(&mut app, show("lib"), 0), texts(&["submodule diff /ws/a/lib"]));
    let loaded = |generation: u64| Action::DiffLoaded {
        generation,
        current: 4,
        content: "d".to_string(),
    };
    assert_eq!(act(&mut app, loaded(3), 0), texts(&[]));
    assert_eq!(act(&mut app, loaded(4), 0), texts(&["show diff d"]));
    let files = Action::ShowCommitFiles { repo_path: "/ws/a".to_string(), oid: "1".to_string() };
    assert_eq!(act(&mut app, files, 0), texts(&["list 1 0"]));
    let diff = Action::ShowCommitDiff {
        repo_path: "/ws/a".to_string(),
        oid: "1".to_string(),
        file_path: "x.rs".to_string(),
    };
    assert_eq!(act(&mut app, diff, 0), texts(&["get x.rs 0"]));
}

#[test]
fn submodules_show_their_commits_or_their_changes() {
    let recorded = "1111111111";
    let present = "2222222222";
    let sub = |state: Option<SubmoduleState>, present: &str| SubmoduleInfo {
        path: "lib".to_string(),
        state,
        head_oid: Some(recorded.to_string()),
        workdir_oid: Some(present.to_string()),
    };
    let moved = sub(Some(SubmoduleState::Modified), present);
    match plan_submodule(&moved, "/r/lib".to_string(), "lib", 5) {
        Effect::SubmoduleLog { dir, header, range, generation } => {
            assert_eq!((dir.as_str(), generation), ("/r/lib", 5));
            assert_eq!(range, "1111111111..2222222222");
            assert_eq!(header, format!("Submodule 1111111 → 2222222\n{}\n", "─".repeat(40)));
        }
        _ => panic!("another commit shows the commits between"),
    }
    match plan_submodule(&sub(None, recorded), "/r/lib".to_string(), "lib", 5) {
        Effect::SubmoduleDiff { header, .. } => {
            assert_eq!(header, format!("Submodule lib (unpushed)\n{}\n", "─".repeat(40)));
        }
        _ => panic!("the recorded commit shows the changes"),
    }
    let dirty = sub(Some(SubmoduleState::Dirty), present);
    assert!(matches!(
        plan_submodule(&dirty, "/r/lib".to_string(), "lib", 5),
        Effect::SubmoduleDiff { .. }
    ));
}

fn answer(a: DiffAnswer) -> Option<String> {
    match a {
        DiffAnswer::Show(text) => Some(text),
        DiffAnswer::AskAgain => None,
    }
}

#[test]
fn answers_of_git_become_diffs() {
    assert_eq!(answer(file_diff(Ok("+a".to_string()))), Some("+a".to_string()));
    assert_eq!(answer(file_diff(Ok("".to_string()))), None);
    assert_eq!(
        answer(file_diff(Err("no".to_string()))),
        Some("Failed to get diff: no".to_string()),
    );
    assert_eq!(
        answer(submodule_diff("h\n", Ok("+a".to_string()))),
        Some("h\n+a".to_string()),
    );
    assert_eq!(answer(submodule_diff("h\n", Ok("".to_string()))), None);
    assert_eq!(
        answer(submodule_diff("h\n", Err("no".to_string()))),
        Some("h\nFailed to get submodule diff: no".to_string()),
    );
    assert_eq!(submodule_status("h\n", "M x"), "h\nM x");
    assert_eq!(submodule_status("h\n", ""), "h\n(no changes detected)");
    assert_eq!(submodule_log("h\n", Ok("c1".to_string())), "h\nc1");
    assert_eq!(submodule_log("h\n", Ok("".to_string())), "h\n(no commits in range)");
    assert_eq!(
        submodule_log("h\n", Err("no".to_string())),
        "h\nFailed to get submodule log: no",
    );
    assert_eq!(new_file_diff("+n".to_string()), "+n");
    assert_eq!(new_file_diff("".to_string()), "(no diff available)");
    assert_eq!(args_for_submodule_diff(), texts(&["diff", "HEAD"]));
    assert_eq!(args_for_submodule_status(), texts(&["status", "--short"]));
    assert_eq!(
        args_for_submodule_log("1..2"),
        texts(&["log", "--oneline", "--graph", "1..2"]),
    );
    assert_eq!(args_for_file_diff("x"), texts(&["diff", "HEAD", "--", "x"]));
    assert_eq!(args_for_new_file("x"), texts(&["diff", "--no-index", "/dev/null", "x"]));
    let listed = commit_files_report(3, "1".to_string(), Ok(("m".to_string(), vec![])));
    assert!(matches!(listed, Action::CommitFilesLoaded { generation: 3, .. }));
    let failed = commit_files_report(3, "1".to_string(), Err("no".to_string()));
    assert_eq!(sent(&failed), "error Failed to list commit files: no");
    let found = commit_diff_report(3, Ok("d".to_string()));
    assert!(matches!(found, Action::CommitDiffLoaded { generation: 3, .. }));
    let failed = commit_diff_report(3, Err("no".to_string()));
    assert_eq!(sent(&failed), "error Failed to get commit diff: no");
}

#[test]
fn orders_alternate() {
    assert_eq!(SortOrder::Alphabetical.next(), SortOrder::DirtyFirst);
    assert_eq!(SortOrder::DirtyFirst.next(), SortOrder::Alphabetical);
    assert_ne!(SortOrder::Alphabetical.label(), SortOrder::DirtyFirst.label());
    let key = |late: bool, text: &str| SortKey { late, text: text.chars().collect() };
    let keys = vec![key(true, "a"), key(false, "b"), key(false, "a"), key(false, "b")];
    assert_eq!(stable_order(&keys), vec![2, 1, 3, 0]);
    assert_eq!(sort_by_keys(vec!['p', 'q', 'r', 's'], &keys), vec!['r', 'q', 's', 'p']);
}

#[test]
fn graph_follows_what_it_shows() {
    let all = BranchFilter::All;
    let before = status("main");
    assert!(graph_status_changed(None, &before, all));
    assert!(!graph_status_changed(Some(&before), &status("main"), all));
    assert!(graph_status_changed(Some(&before), &status("dev"), all));
    let mut moved = status("main");
    moved.refs.remote = 9;
    assert!(graph_status_changed(Some(&before), &moved, all));
    assert!(!graph_status_changed(Some(&before), &moved, BranchFilter::Local));
    assert!(graph_status_changed(Some(&before), &moved, BranchFilter::Remote));
    assert!(!graph_status_changed(Some(&before), &moved, BranchFilter::HeadOnly));
    assert!(graph_status_changed(Some(&moved), &before, all));
    assert!(!graph_status_changed(Some(&moved), &before, BranchFilter::Local));
}

#[test]
fn menus_and_context() {
    let mut app = started(&["/ws/a"]);
    app.repo_list.update_status(0, status("main"));
    let menu = Action::ShowContextMenu { id: id("/ws/a"), row: 1, col: 2, is_worktree: false };
    let shown = act(&mut app, menu, 0);
    assert!(shown.contains(&"menu /ws/a false".to_string()), "got {shown:?}");
    assert_eq!(act(&mut app, Action::HideContextMenu, 0), texts(&["hide menu"]));
    assert_eq!(act(&mut app, Action::OpenAddRepo, 0), texts(&["forward"]));
}

#[test]
fn texts_are_measured_and_cut() {
    assert_eq!(byte_len("aß"), 3);
    assert_eq!(take_bytes("aßc", 3), "aß");
    assert!(contains_text("hello", "ell") && !contains_text("hello", "lo!"));
    assert_eq!(trim(" \u{a0}\tx y\u{3000}\n"), "x y");
    assert_eq!(lines("a\r\nb\n"), texts(&["a", "b"]));
    assert_eq!(number(0), "0");
    assert_eq!(number(1050), "1050");
}
