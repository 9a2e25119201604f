//! The search for repositories.
use gitpane::config::Config;
use gitpane::model::BranchFilter;
use gitpane::paths::{
    file_name, is_absolute, is_under, join, normal_path, parent, parts_of, relative_to,
};
use gitpane::scanner::{
    discover_repo_workspace_projects, discover_repos, is_excluded, is_real_git_dir,
    listed_project, read_gitdir_pointer, walks_into, FileFact, RootSurvey, Survey, WalkEntry,
};
use gitpane::screen::{Color, GraphTheme, RepoListTheme, Theme};

fn theme() -> Theme {
    let c = Color::Indexed;
    Theme {
        graph: GraphTheme {
            border_focused: c(1),
            border_unfocused: c(2),
            loading: c(3),
            error_text: c(4),
            empty: c(5),
            dimmed: c(6),
            collapsed_message: c(7),
            commit_id: c(8),
            merge_message: c(9),
            commit_message: c(10),
            time: c(11),
            addition: c(12),
            deletion: c(13),
            selection_bg: c(14),
            commit_msg_border: c(15),
            commit_msg_text: c(16),
            commit_files_border: c(17),
            commit_files_empty: c(18),
            commit_files_status_modified: c(19),
            commit_files_status_added: c(20),
            commit_files_status_deleted: c(21),
            commit_files_status_renamed: c(22),
            commit_files_status_other: c(23),
            commit_files_path: c(24),
            commit_diff_border: c(25),
            commit_diff_added: c(26),
            commit_diff_removed: c(27),
            commit_diff_hunk: c(28),
            commit_diff_meta: c(29),
            commit_diff_context: c(30),
            search_overlay_fg: c(31),
            search_overlay_bg: c(32),
        },
        repo_list: RepoListTheme {
            border_focused: c(41),
            border_unfocused: c(42),
            selection_bg: c(43),
        },
    }
}

fn texts(items: &[&str]) -> Vec<String> {
    items.iter().map(|s| s.to_string()).collect()
}

fn config(roots: &[&str], pinned: &[&str], excluded: &[&str]) -> Config {
    Config {
        root_dirs: texts(roots),
        pinned_repos: texts(pinned),
        excluded_repos: texts(excluded),
        refresh_cooldown_ms: 1000,
        discovery_cooldown_secs: 5,
        debounce_ms: 300,
        watch_exclude_dirs: vec![],
        watch_worktree_dirs: false,
        show_liveness: false,
        check_for_updates: false,
        branches: BranchFilter::All,
        label_max_len: 24,
        show_stats: false,
        theme: theme(),
        theme_name: "default".to_string(),
        runtime_theme_override: None,
    }
}

fn file(path: &str, contents: &str) -> FileFact {
    FileFact { path: path.to_string(), contents: Some(contents.to_string()) }
}

/// The `HEAD` of a git directory.
fn head(git_dir: &str) -> FileFact {
    file(&format!("{git_dir}/HEAD"), "ref: refs/heads/main\n")
}

fn seen(path: &str) -> WalkEntry {
    let home = path.rsplit_once('/').map(|(dir, _)| dir.to_string());
    WalkEntry { path: path.to_string(), home }
}

fn root(entries: &[&str], project_list: Option<&str>) -> RootSurvey {
    RootSurvey {
        exists: true,
        entries: entries.iter().map(|p| seen(p)).collect(),
        project_list: project_list.map(|s| s.to_string()),
    }
}

fn pinned_at(paths: &[&str]) -> Vec<Option<String>> {
    paths.iter().map(|p| Some(p.to_string())).collect()
}

#[test]
fn test_discover_finds_git_repos() {
    let survey = Survey {
        files: vec![head("/tmp/alpha/.git"), head("/tmp/beta/.git")],
        pinned: vec![],
        roots: vec![root(
            &["/tmp", "/tmp/alpha", "/tmp/alpha/.git", "/tmp/beta", "/tmp/beta/.git"],
            None,
        )],
    };
    let repos = discover_repos(&config(&["/tmp"], &[], &[]), &survey);
    assert_eq!(repos.len(), 2);
}

#[test]
fn test_excluded_repos_are_filtered() {
    let survey = Survey {
        files: vec![head("/tmp/good-repo/.git"), head("/tmp/node_modules/.git")],
        pinned: vec![],
        roots: vec![root(&["/tmp/good-repo/.git", "/tmp/node_modules/.git"], None)],
    };
    let repos = discover_repos(&config(&["/tmp"], &[], &["node_modules"]), &survey);
    assert_eq!(repos.len(), 1);
    assert!(repos[0].ends_with("good-repo"));
}

#[test]
fn test_discover_skips_phantom_dot_git_at_root() {
    let survey = Survey {
        files: vec![head("/tmp/real-repo/.git")],
        pinned: vec![],
        roots: vec![root(&["/tmp/.git", "/tmp/real-repo", "/tmp/real-repo/.git"], None)],
    };
    let repos = discover_repos(&config(&["/tmp"], &[], &[]), &survey);
    assert_eq!(repos.len(), 1, "got {repos:?}");
    assert!(repos[0].ends_with("real-repo"));
}

#[test]
fn test_discover_skips_phantom_dot_git_in_child() {
    let survey = Survey {
        files: vec![head("/tmp/ok/.git")],
        pinned: vec![],
        roots: vec![root(&["/tmp/broken/.git", "/tmp/ok/.git"], None)],
    };
    let repos = discover_repos(&config(&["/tmp"], &[], &[]), &survey);
    assert_eq!(repos.len(), 1, "got {repos:?}");
    assert!(repos[0].ends_with("ok"));
}

#[test]
fn test_pinned_phantom_repo_is_skipped() {
    let pinned = ["/tmp/phantom", "/tmp/real"];
    let survey =
        Survey { files: vec![head("/tmp/real/.git")], pinned: pinned_at(&pinned), roots: vec![] };
    let repos = discover_repos(&config(&[], &pinned, &[]), &survey);
    assert_eq!(repos.len(), 1, "got {repos:?}");
    assert!(repos[0].ends_with("real"));
}

#[test]
fn test_pinned_submodule_is_discovered() {
    let module = "/tmp/superproject/.git/modules/vendored-lib";
    let pinned = ["/tmp/vendored-lib"];
    let survey = Survey {
        files: vec![
            head(module),
            file("/tmp/vendored-lib/.git", &format!("gitdir: {module}\n")),
        ],
        pinned: pinned_at(&pinned),
        roots: vec![],
    };
    let repos = discover_repos(&config(&[], &pinned, &[]), &survey);
    assert_eq!(repos.len(), 1, "got {repos:?}");
    assert!(repos[0].ends_with("vendored-lib"));
}

#[test]
fn test_pinned_submodule_relative_gitdir_is_discovered() {
    let pinned = ["/tmp/super/deps/sub"];
    let survey = Survey {
        files: vec![
            head("/tmp/super/deps/sub/../../.git/modules/sub"),
            file("/tmp/super/deps/sub/.git", "gitdir: ../../.git/modules/sub\n"),
        ],
        pinned: pinned_at(&pinned),
        roots: vec![],
    };
    let repos = discover_repos(&config(&[], &pinned, &[]), &survey);
    assert_eq!(repos.len(), 1, "got {repos:?}");
    assert!(repos[0].ends_with("sub"));
}

#[test]
fn test_pinned_repos_appear_first() {
    let pinned = ["/tmp/z-repo"];
    let survey = Survey {
        files: vec![head("/tmp/z-repo/.git"), head("/tmp/a-repo/.git")],
        pinned: pinned_at(&pinned),
        roots: vec![root(&["/tmp/a-repo/.git", "/tmp/z-repo/.git"], None)],
    };
    let repos = discover_repos(&config(&["/tmp"], &pinned, &[]), &survey);
    assert_eq!(repos.len(), 2);
    assert!(repos[0].ends_with("z-repo"));
}

#[test]
fn test_repo_workspace_symlink_projects_are_discovered() {
    let survey = Survey {
        files: vec![
            head("/ws/kernel-6.12/.git"),
            head("/ws/hbre/libmm/.git"),
            head("/ws/app/qualitytest/.git"),
        ],
        pinned: vec![],
        roots: vec![root(&["/ws"], Some("kernel-6.12\nhbre/libmm\napp/qualitytest\n"))],
    };
    let repos = discover_repos(&config(&["/ws"], &[], &[]), &survey);
    assert_eq!(repos.len(), 3, "got {repos:?}");
    for p in ["/ws/kernel-6.12", "/ws/hbre/libmm", "/ws/app/qualitytest"] {
        assert!(repos.contains(&p.to_string()), "missing {p:?}");
    }
}

/// The files of a project whose `.git` points into the workspace's own directory.
fn managed(name: &str) -> Vec<FileFact> {
    let git_dir = format!("/ws/.repo/projects/{name}.git");
    vec![head(&git_dir), file(&format!("/ws/{name}/.git"), &format!("gitdir: {git_dir}\n"))]
}

#[test]
fn test_repo_workspace_gitdir_file_projects_are_discovered() {
    let mut files = managed("kernel-6.12");
    files.extend(managed("hbre/libmm"));
    let survey = Survey {
        files,
        pinned: vec![],
        roots: vec![root(&["/ws"], Some("kernel-6.12\nhbre/libmm\n"))],
    };
    let repos = discover_repos(&config(&["/ws"], &[], &[]), &survey);
    assert_eq!(repos.len(), 2, "got {repos:?}");
    for p in ["/ws/kernel-6.12", "/ws/hbre/libmm"] {
        assert!(repos.contains(&p.to_string()), "missing {p:?}");
    }
}

#[test]
fn test_repo_workspace_skips_missing_worktrees() {
    let survey = Survey {
        files: managed("synced"),
        pinned: vec![],
        roots: vec![root(&["/ws"], Some("synced\nnot-synced-yet\n"))],
    };
    let repos = discover_repos(&config(&["/ws"], &[], &[]), &survey);
    assert_eq!(repos.len(), 1, "got {repos:?}");
    assert!(repos.contains(&"/ws/synced".to_string()));
}

#[test]
fn test_repo_workspace_mixes_native_and_managed() {
    let survey = Survey {
        files: vec![
            head("/ws/standalone/.git"),
            head("/ws/managed/.git"),
            head("/ws/.repo/manifests/.git"),
        ],
        pinned: vec![],
        roots: vec![root(
            &["/ws/standalone/.git", "/ws/.repo/manifests/.git"],
            Some("managed\n"),
        )],
    };
    assert!(!walks_into(".repo"));
    assert!(walks_into("standalone"));
    let repos = discover_repos(&config(&["/ws"], &[], &[]), &survey);
    assert_eq!(repos.len(), 2, "got {repos:?}");
    assert!(repos.contains(&"/ws/standalone".to_string()));
    assert!(repos.contains(&"/ws/managed".to_string()));
    assert!(!repos.contains(&"/ws/.repo/manifests".to_string()));
}

#[test]
fn tool_directories_count_from_the_root_on() {
    let found = |dir: &str, entry: &str| {
        let survey = Survey {
            files: vec![FileFact { path: format!("{entry}/HEAD"), contents: None }],
            pinned: vec![],
            roots: vec![root(&[entry], None)],
        };
        discover_repos(&config(&[dir], &[], &[]), &survey).len()
    };
    assert_eq!(found("/ws", "/ws/.repo/manifests/.git"), 0);
    assert_eq!(found("/ws/.repo", "/ws/.repo/manifests/.git"), 0);
    assert_eq!(found("/ws/.repo/in", "/ws/.repo/in/a/.git"), 1);
}

#[test]
fn missing_roots_are_passed_over() {
    let mut gone = root(&["/tmp/a/.git"], Some("b\n"));
    gone.exists = false;
    let survey = Survey {
        files: vec![head("/tmp/a/.git"), head("/tmp/b/.git")],
        pinned: vec![],
        roots: vec![gone],
    };
    assert!(discover_repos(&config(&["/tmp"], &[], &[]), &survey).is_empty());
}

#[test]
fn repositories_found_twice_are_listed_once() {
    let survey = Survey {
        files: vec![head("/tmp/b/.git"), head("/tmp/a/.git")],
        pinned: vec![],
        roots: vec![root(&["/tmp/b/.git", "/tmp/a/.git", "/tmp/b/.git"], Some("a\n"))],
    };
    let repos = discover_repos(&config(&["/tmp"], &[], &[]), &survey);
    assert_eq!(repos, texts(&["/tmp/a", "/tmp/b"]));
}

#[test]
fn pointers_are_read() {
    let text = |s: &str| Some(s.to_string());
    assert_eq!(read_gitdir_pointer("/w/.git", &text("gitdir: /g/m\n")), text("/g/m"));
    assert_eq!(read_gitdir_pointer("/w/.git", &text("  gitdir:../g  ")), text("/w/../g"));
    assert_eq!(read_gitdir_pointer("/w/.git", &text("ref: x")), None);
    assert_eq!(read_gitdir_pointer("/w/.git", &None), None);
}

#[test]
fn git_directories_have_a_head() {
    let files = vec![head("/a/.git"), file("/b/.git", "gitdir: /a/.git"), file("/c/.git", "?")];
    assert!(is_real_git_dir("/a/.git", &files));
    assert!(is_real_git_dir("/b/.git", &files));
    assert!(!is_real_git_dir("/c/.git", &files));
    assert!(!is_real_git_dir("/d/.git", &files));
}

#[test]
fn exclusion_goes_by_whole_names() {
    let c = config(&[], &[], &["target", "kernel"]);
    assert!(is_excluded("/x/target", &c));
    assert!(is_excluded("/x/target/y", &c));
    assert!(!is_excluded("/x/targets", &c));
    assert!(!is_excluded("/ws/kernel-6.12", &c));
    assert!(!is_excluded("/x/tar/get", &c));
}

#[test]
fn listed_projects_lie_under_the_root() {
    assert_eq!(listed_project("/ws", " a/b \n"), Some("/ws/a/b".to_string()));
    assert_eq!(listed_project("/ws", "   "), None);
    assert_eq!(listed_project("/ws", "/etc"), None);
    assert_eq!(listed_project("/ws", "../outside"), None);
    assert_eq!(listed_project("/ws", "a/../../outside"), None);
    assert_eq!(listed_project("/ws", "a..b"), Some("/ws/a..b".to_string()));
    assert_eq!(listed_project("/a/../ws", "x"), Some("/a/../ws/x".to_string()));
    let mut escaped = vec![];
    discover_repo_workspace_projects(
        "/ws",
        "../outside\n",
        &config(&[], &[], &[]),
        &vec![head("/outside/.git"), head("/ws/../outside/.git")],
        &mut escaped,
    );
    assert!(escaped.is_empty());
    let mut found = texts(&["/ws/a"]);
    let files = vec![head("/ws/a/.git"), head("/ws/b/.git"), head("/ws/out/.git")];
    let c = config(&[], &[], &["out"]);
    discover_repo_workspace_projects("/ws", "b\na\nout\nmissing\n", &c, &files, &mut found);
    assert_eq!(found, texts(&["/ws/a", "/ws/b"]));
}

#[test]
fn paths_are_taken_apart() {
    assert_eq!(parts_of("/a//b/./c/"), texts(&["a", "b", "c"]));
    assert_eq!(normal_path("/a//b/./c/"), "/a/b/c");
    assert!(is_absolute("/a") && !is_absolute("a"));
    assert_eq!(join("/a", "b"), "/a/b");
    assert_eq!(join("/a", "/b"), "/b");
    assert_eq!(file_name("/a/b"), Some("b".to_string()));
    assert_eq!(file_name("/"), None);
    assert_eq!(parent("/a/b"), Some("/a".to_string()));
    assert_eq!(parent("/"), None);
    assert!(is_under("/a/b", "/a") && !is_under("/ab", "/a"));
    assert_eq!(relative_to("/a/b/c", "/a"), "b/c");
}
