//! Finding repositories, from what a walk through the file system saw.
use vstd::prelude::*;
use vstd::string::*;
use crate::config::{add_text, with_text, Config, ConfigView};
use crate::order::{
    in_order, key_before, law_sorting_is_stable, lemma_keys_asymmetric, order, sort_by_keys,
    stands_before, KeyView, SortKey,
};
use crate::paths::{
    absolute, file_name, has_name, is_absolute, is_under, join, joined, leads_through, lies_under,
    name_of, normal, normal_path, parent, parent_of, parts, parts_of,
};
use crate::text::{
    begins_with, chars_of, lines, lines_of, same_text, starts_with, string_of, trim, trimmed,
};

verus! {

/// A regular file that was seen, and its contents where they were read.
pub struct FileFact {
    pub path: String,
    pub contents: Option<String>,
}

/// What is known of a file.
#[verifier::ext_equal]
pub struct FileFactView {
    pub path: Seq<char>,
    pub contents: Option<Seq<char>>,
}

impl DeepView for FileFact {
    type V = FileFactView;

    open spec fn deep_view(&self) -> FileFactView {
        FileFactView { path: self.path@, contents: self.contents.deep_view() }
    }
}

/// An entry that was seen on the way, and the canonical path of the directory it
/// lies in, where there is one.
pub struct WalkEntry {
    pub path: String,
    pub home: Option<String>,
}

/// What is known of an entry.
#[verifier::ext_equal]
pub struct WalkEntryView {
    pub path: Seq<char>,
    pub home: Option<Seq<char>>,
}

impl DeepView for WalkEntry {
    type V = WalkEntryView;

    open spec fn deep_view(&self) -> WalkEntryView {
        WalkEntryView { path: self.path@, home: self.home.deep_view() }
    }
}

/// What was seen under one of the root directories.
pub struct RootSurvey {
    pub exists: bool,
    pub entries: Vec<WalkEntry>,
    /// The contents of `.repo/project.list`, where it could be read.
    pub project_list: Option<String>,
}

/// What is known of a root directory.
#[verifier::ext_equal]
pub struct RootSurveyView {
    pub exists: bool,
    pub entries: Seq<WalkEntryView>,
    pub project_list: Option<Seq<char>>,
}

impl DeepView for RootSurvey {
    type V = RootSurveyView;

    open spec fn deep_view(&self) -> RootSurveyView {
        RootSurveyView {
            exists: self.exists,
            entries: self.entries.deep_view(),
            project_list: self.project_list.deep_view(),
        }
    }
}

/// All that was seen: the files that matter, the canonical path of each pinned
/// repository, where there is one, and what lies under each root directory.
pub struct Survey {
    pub files: Vec<FileFact>,
    pub pinned: Vec<Option<String>>,
    pub roots: Vec<RootSurvey>,
}

/// What a survey holds.
#[verifier::ext_equal]
pub struct SurveyView {
    pub files: Seq<FileFactView>,
    pub pinned: Seq<Option<Seq<char>>>,
    pub roots: Seq<RootSurveyView>,
}

impl View for Survey {
    type V = SurveyView;

    open spec fn view(&self) -> SurveyView {
        SurveyView {
            files: self.files.deep_view(),
            pinned: self.pinned.deep_view(),
            roots: self.roots.deep_view(),
        }
    }
}

impl SurveyView {
    /// The survey was made for this configuration.
    pub open spec fn fits(self, config: ConfigView) -> bool {
        self.pinned.len() == config.pinned_repos.len() && self.roots.len()
            == config.root_dirs.len()
    }
}

// ---------------------------------------------------------------------------
// Git directories
// ---------------------------------------------------------------------------

/// A regular file stands at `path`.
pub open spec fn is_file(files: Seq<FileFactView>, path: Seq<char>) -> bool {
    exists|i: int| 0 <= i < files.len() && (#[trigger] files[i]).path == path
}

/// What was read of the file at `path`.
pub open spec fn contents_of(files: Seq<FileFactView>, path: Seq<char>) -> Option<Seq<char>>
    decreases files.len(),
{
    if files.len() == 0 {
        None
    } else if files[0].path == path {
        files[0].contents
    } else {
        contents_of(files.drop_first(), path)
    }
}

/// The path behind `gitdir:` in a file that only points elsewhere.
pub open spec fn pointed_at(contents: Seq<char>) -> Option<Seq<char>> {
    let text = trimmed(contents);
    if begins_with(text, "gitdir:"@) {
        Some(trimmed(text.skip("gitdir:"@.len() as int)))
    } else {
        None
    }
}

/// The git directory that the file `dot_git` points to; a relative path counts
/// from the directory of the file.
pub open spec fn gitdir_of(dot_git: Seq<char>, contents: Option<Seq<char>>) -> Option<Seq<char>> {
    match contents {
        Some(text) => match pointed_at(text) {
            Some(target) => if absolute(target) {
                Some(target)
            } else {
                match parent_of(dot_git) {
                    Some(dir) => Some(joined(dir, target)),
                    None => None,
                }
            },
            None => None,
        },
        None => None,
    }
}

/// `dot_git` is a git directory, which has a `HEAD`, or a file that points to one.
pub open spec fn real_git_dir(dot_git: Seq<char>, files: Seq<FileFactView>) -> bool {
    is_file(files, joined(dot_git, "HEAD"@)) || is_file(files, dot_git) && match gitdir_of(
        dot_git,
        contents_of(files, dot_git),
    ) {
        Some(dir) => is_file(files, joined(dir, "HEAD"@)),
        None => false,
    }
}

/// Whether a regular file stands at `path`, and what was read of it.
fn look_up(files: &Vec<FileFact>, path: &str) -> (r: Option<Option<String>>)
    ensures
        (r is Some) == is_file(files.deep_view(), path@),
        r is Some ==> r->0.deep_view() == contents_of(files.deep_view(), path@),
{
    let key = String::from_str(path);
    let ghost all = files.deep_view();
    let mut i: usize = 0;
    assert(all.skip(0) =~= all);
    while i < files.len()
        invariant
            i <= files@.len(),
            all == files.deep_view(),
            key@ == path@,
            forall|k: int| 0 <= k < i ==> (#[trigger] all[k]).path != path@,
            contents_of(all.skip(i as int), path@) == contents_of(all, path@),
        decreases files@.len() - i,
    {
        assert(all[i as int] == files@[i as int].deep_view());
        assert(all.skip(i as int)[0] == all[i as int]);
        if files[i].path == key {
            return Some(crate::text::copy_optional(&files[i].contents));
        }
        assert(all.skip(i as int).drop_first() =~= all.skip(i + 1));
        i = i + 1;
    }
    None
}

/// The git directory that the file `dot_git` with these contents points to.
pub fn read_gitdir_pointer(dot_git: &str, contents: &Option<String>) -> (r: Option<String>)
    ensures
        r.deep_view() == gitdir_of(dot_git@, contents.deep_view()),
{
    let text = match contents {
        Some(c) => trim(c.as_str()),
        None => return None,
    };
    if !starts_with(text.as_str(), "gitdir:") {
        return None;
    }
    let v = chars_of(text.as_str());
    proof {
        reveal_strlit("gitdir:");
    }
    let rest = string_of(&v, 7, v.len());
    assert(rest@ =~= text@.skip("gitdir:"@.len() as int));
    let target = trim(rest.as_str());
    if is_absolute(target.as_str()) {
        return Some(target);
    }
    match parent(dot_git) {
        Some(dir) => Some(join(dir.as_str(), target.as_str())),
        None => None,
    }
}

/// Whether `dot_git` is a git directory, or a file that points to one, by the
/// files that were seen.
pub fn is_real_git_dir(dot_git: &str, files: &Vec<FileFact>) -> (r: bool)
    ensures
        r == real_git_dir(dot_git@, files.deep_view()),
{
    let head = join(dot_git, "HEAD");
    if look_up(files, head.as_str()).is_some() {
        return true;
    }
    let contents = match look_up(files, dot_git) {
        Some(c) => c,
        None => return false,
    };
    match read_gitdir_pointer(dot_git, &contents) {
        Some(dir) => {
            let head = join(dir.as_str(), "HEAD");
            look_up(files, head.as_str()).is_some()
        },
        None => false,
    }
}

/// The walk goes into a directory of this name.
pub fn walks_into(name: &str) -> (r: bool)
    ensures
        r == (name@ != ".repo"@),
{
    !same_text(name, ".repo")
}

// ---------------------------------------------------------------------------
// Candidates
// ---------------------------------------------------------------------------

/// The name of a repository, empty where its path has none.
pub open spec fn name_or_empty(path: Seq<char>) -> Seq<char> {
    match name_of(path) {
        Some(name) => name,
        None => Seq::empty(),
    }
}

/// A pattern is the name of the repository, or one of the names that its path
/// leads through.
pub open spec fn excluded(path: Seq<char>, patterns: Seq<Seq<char>>) -> bool {
    exists|i: int|
        0 <= i < patterns.len() && (name_or_empty(path) == #[trigger] patterns[i] || parts(
            path,
        ).contains(patterns[i]))
}

/// Whether a repository is excluded.
pub fn is_excluded(repo_path: &str, config: &Config) -> (r: bool)
    ensures
        r == excluded(repo_path@, config@.excluded_repos),
{
    let repo_name = match file_name(repo_path) {
        Some(name) => name,
        None => String::new(),
    };
    assert(repo_name@ =~= name_or_empty(repo_path@));
    let ghost patterns = config@.excluded_repos;
    let mut i: usize = 0;
    while i < config.excluded_repos.len()
        invariant
            i <= config.excluded_repos@.len(),
            patterns == config.excluded_repos.deep_view(),
            repo_name@ == name_or_empty(repo_path@),
            forall|k: int|
                0 <= k < i ==> name_or_empty(repo_path@) != #[trigger] patterns[k] && !parts(
                    repo_path@,
                ).contains(patterns[k]),
        decreases config.excluded_repos@.len() - i,
    {
        let pattern = &config.excluded_repos[i];
        assert(patterns[i as int] == pattern@);
        assert(leads_through(repo_path@, pattern@, 0) == parts(repo_path@).contains(pattern@));
        if repo_name == *pattern || has_name(repo_path, pattern.as_str(), 0) {
            return true;
        }
        i = i + 1;
    }
    false
}

/// The project that a line of a project list names: a path under the root that
/// does not lead up again.
pub open spec fn project_of(root: Seq<char>, line: Seq<char>) -> Option<Seq<char>> {
    let rel = trimmed(line);
    let path = joined(root, rel);
    if rel.len() > 0 && lies_under(path, root) && !leads_through(
        path,
        ".."@,
        parts(root).len(),
    ) {
        Some(normal(path))
    } else {
        None
    }
}

/// The project that a line of a project list names.
pub fn listed_project(root: &str, line: &str) -> (r: Option<String>)
    ensures
        r.deep_view() == project_of(root@, line@),
{
    let rel = trim(line);
    if rel.as_str().is_empty() {
        return None;
    }
    let repo_path = join(root, rel.as_str());
    if !is_under(repo_path.as_str(), root) {
        return None;
    }
    let above = parts_of(root);
    if has_name(repo_path.as_str(), "..", above.len()) {
        return None;
    }
    Some(normal_path(repo_path.as_str()))
}

/// An entry is, or lies in, the directory `.repo` of the tool that keeps a project
/// list; the name of the root counts, those above it do not.
pub open spec fn in_tool_dir(root: Seq<char>, path: Seq<char>) -> bool {
    let above = parts(root).len();
    leads_through(
        path,
        ".repo"@,
        if above > 0 {
            (above - 1) as nat
        } else {
            0
        },
    )
}

/// Whether an entry is, or lies in, the directory `.repo`.
fn is_in_tool_dir(root: &str, path: &str) -> (r: bool)
    ensures
        r == in_tool_dir(root@, path@),
{
    let above = parts_of(root);
    let from: usize = if above.len() > 0 {
        above.len() - 1
    } else {
        0
    };
    has_name(path, ".repo", from)
}

/// The repository that an entry of the walk belongs to, if it is the git
/// directory of one that is not excluded. What lies in `.repo` is no repository.
pub open spec fn walked_repo(
    root: Seq<char>,
    entry: WalkEntryView,
    config: ConfigView,
    files: Seq<FileFactView>,
) -> Option<Seq<char>> {
    let home = match entry.home {
        Some(h) => h,
        None => parent_of(entry.path)->0,
    };
    if !in_tool_dir(root, entry.path) && name_of(entry.path) == Some(".git"@) && real_git_dir(
        entry.path,
        files,
    ) && !excluded(
        home,
        config.excluded_repos,
    ) {
        Some(home)
    } else {
        None
    }
}

/// The repository that a line of a project list leads to, if there is one and it
/// is not excluded.
pub open spec fn listed_repo(
    root: Seq<char>,
    line: Seq<char>,
    config: ConfigView,
    files: Seq<FileFactView>,
) -> Option<Seq<char>> {
    match project_of(root, line) {
        Some(path) if real_git_dir(joined(path, ".git"@), files) && !excluded(
            path,
            config.excluded_repos,
        ) => Some(path),
        _ => None,
    }
}

/// The path of a pinned repository: the canonical one, where there is one.
pub open spec fn pinned_place(config: ConfigView, survey: SurveyView, i: int) -> Seq<char> {
    match survey.pinned[i] {
        Some(c) => c,
        None => config.pinned_repos[i],
    }
}

/// The first `n` pinned repositories, as far as they are repositories.
pub open spec fn pinned_found(config: ConfigView, survey: SurveyView, n: nat) -> Seq<Seq<char>>
    decreases n,
{
    if n == 0 {
        Seq::empty()
    } else {
        let before = pinned_found(config, survey, (n - 1) as nat);
        let place = pinned_place(config, survey, n - 1);
        if real_git_dir(joined(place, ".git"@), survey.files) {
            with_text(before, place)
        } else {
            before
        }
    }
}

/// What is found with the first `n` entries of a walk.
pub open spec fn walk_found(
    found: Seq<Seq<char>>,
    root: Seq<char>,
    entries: Seq<WalkEntryView>,
    config: ConfigView,
    files: Seq<FileFactView>,
    n: nat,
) -> Seq<Seq<char>>
    decreases n,
{
    if n == 0 {
        found
    } else {
        let before = walk_found(found, root, entries, config, files, (n - 1) as nat);
        match walked_repo(root, entries[n - 1], config, files) {
            Some(path) => with_text(before, path),
            None => before,
        }
    }
}

/// What is found with the first `n` lines of a project list.
pub open spec fn list_found(
    found: Seq<Seq<char>>,
    root: Seq<char>,
    all: Seq<Seq<char>>,
    config: ConfigView,
    files: Seq<FileFactView>,
    n: nat,
) -> Seq<Seq<char>>
    decreases n,
{
    if n == 0 {
        found
    } else {
        let before = list_found(found, root, all, config, files, (n - 1) as nat);
        match listed_repo(root, all[n - 1], config, files) {
            Some(path) => with_text(before, path),
            None => before,
        }
    }
}

/// What is found under one root directory.
pub open spec fn root_found(
    found: Seq<Seq<char>>,
    root: Seq<char>,
    seen: RootSurveyView,
    config: ConfigView,
    files: Seq<FileFactView>,
) -> Seq<Seq<char>> {
    if !seen.exists {
        found
    } else {
        let walked = walk_found(found, root, seen.entries, config, files, seen.entries.len());
        match seen.project_list {
            Some(text) => list_found(
                walked,
                root,
                lines_of(text),
                config,
                files,
                lines_of(text).len(),
            ),
            None => walked,
        }
    }
}

/// What is found with the pinned repositories and the first `n` root directories.
pub open spec fn roots_found(config: ConfigView, survey: SurveyView, n: nat) -> Seq<Seq<char>>
    decreases n,
{
    if n == 0 {
        pinned_found(config, survey, config.pinned_repos.len())
    } else {
        root_found(
            roots_found(config, survey, (n - 1) as nat),
            config.root_dirs[n - 1],
            survey.roots[n - 1],
            config,
            survey.files,
        )
    }
}

/// A letter of the ASCII alphabet in lower case, and any other character as it is.
pub open spec fn ascii_lower(c: char) -> char {
    if 'A' <= c <= 'Z' {
        (c as int + 32) as char
    } else {
        c
    }
}

/// What a repository is sorted by: its name, upper and lower case being the same.
pub open spec fn path_key(path: Seq<char>) -> KeyView {
    let name = name_or_empty(path);
    KeyView { late: false, text: Seq::new(name.len(), |i: int| ascii_lower(name[i])) }
}

/// The repositories in the order of their names.
pub open spec fn sorted_paths(found: Seq<Seq<char>>) -> Seq<Seq<char>> {
    in_order(found, Seq::new(found.len(), |i: int| path_key(found[i])))
}

/// A repository is one of the pinned ones.
pub open spec fn is_pinned(survey: SurveyView, path: Seq<char>) -> bool {
    survey.pinned.contains(Some(path))
}

/// Those of some repositories that are pinned, or those that are not.
pub open spec fn choose_pinned(paths: Seq<Seq<char>>, survey: SurveyView, pinned: bool) -> Seq<
    Seq<char>,
>
    decreases paths.len(),
{
    if paths.len() == 0 {
        Seq::empty()
    } else {
        let before = choose_pinned(paths.drop_last(), survey, pinned);
        if is_pinned(survey, paths.last()) == pinned {
            before.push(paths.last())
        } else {
            before
        }
    }
}

/// The repositories that are found, by name, the pinned ones first.
pub open spec fn discovered(config: ConfigView, survey: SurveyView) -> Seq<Seq<char>> {
    let sorted = sorted_paths(roots_found(config, survey, config.root_dirs.len()));
    choose_pinned(sorted, survey, true) + choose_pinned(sorted, survey, false)
}

// ---------------------------------------------------------------------------
// Finding them
// ---------------------------------------------------------------------------

/// Adds the repositories that the entries of a walk belong to.
fn add_walked(
    found: &mut Vec<String>,
    root: &str,
    entries: &Vec<WalkEntry>,
    config: &Config,
    files: &Vec<FileFact>,
)
    ensures
        final(found).deep_view() == walk_found(
            old(found).deep_view(),
            root@,
            entries.deep_view(),
            config@,
            files.deep_view(),
            entries@.len(),
        ),
{
    let ghost all = entries.deep_view();
    let ghost given = found.deep_view();
    let mut i: usize = 0;
    while i < entries.len()
        invariant
            i <= entries@.len(),
            all == entries.deep_view(),
            found.deep_view() == walk_found(
                given,
                root@,
                all,
                config@,
                files.deep_view(),
                i as nat,
            ),
        decreases entries@.len() - i,
    {
        let entry = &entries[i];
        assert(all[i as int] == entry.deep_view());
        let is_git = match file_name(entry.path.as_str()) {
            Some(name) => same_text(name.as_str(), ".git"),
            None => false,
        };
        if !is_in_tool_dir(root, entry.path.as_str()) && is_git && is_real_git_dir(
            entry.path.as_str(),
            files,
        ) {
            let repo_path = match &entry.home {
                Some(home) => home.clone(),
                None => match parent(entry.path.as_str()) {
                    Some(dir) => dir,
                    None => String::new(),
                },
            };
            if !is_excluded(repo_path.as_str(), config) {
                add_text(found, repo_path);
            }
        }
        i = i + 1;
    }
}

/// Adds the projects of a workspace that keeps a list of them. What the walk
/// cannot see is found in the list; a project that is not there is passed over.
pub fn discover_repo_workspace_projects(
    root: &str,
    contents: &str,
    config: &Config,
    files: &Vec<FileFact>,
    found: &mut Vec<String>,
)
    ensures
        final(found).deep_view() == list_found(
            old(found).deep_view(),
            root@,
            lines_of(contents@),
            config@,
            files.deep_view(),
            lines_of(contents@).len(),
        ),
{
    let all = lines(contents);
    let ghost given = found.deep_view();
    let mut i: usize = 0;
    while i < all.len()
        invariant
            i <= all@.len(),
            all.deep_view() == lines_of(contents@),
            found.deep_view() == list_found(
                given,
                root@,
                lines_of(contents@),
                config@,
                files.deep_view(),
                i as nat,
            ),
        decreases all@.len() - i,
    {
        assert(all@[i as int]@ == lines_of(contents@)[i as int]);
        if let Some(repo_path) = listed_project(root, all[i].as_str()) {
            let dot_git = join(repo_path.as_str(), ".git");
            if is_real_git_dir(dot_git.as_str(), files) && !is_excluded(
                repo_path.as_str(),
                config,
            ) {
                add_text(found, repo_path);
            }
        }
        i = i + 1;
    }
}

/// What a repository is sorted by.
fn key_of_path(path: &str) -> (r: SortKey)
    ensures
        r.deep_view() == path_key(path@),
{
    let name = match file_name(path) {
        Some(name) => chars_of(name.as_str()),
        None => Vec::new(),
    };
    assert(name@ =~= name_or_empty(path@));
    let mut text: Vec<char> = Vec::new();
    let mut i: usize = 0;
    while i < name.len()
        invariant
            i <= name@.len(),
            text@.len() == i,
            forall|k: int| 0 <= k < i ==> #[trigger] text@[k] == ascii_lower(name@[k]),
        decreases name@.len() - i,
    {
        let c = name[i];
        if 'A' <= c && c <= 'Z' {
            let lower: u8 = c as u8 + 32;
            text.push(lower as char);
        } else {
            text.push(c);
        }
        i = i + 1;
    }
    assert(text@ =~= path_key(path@).text);
    SortKey { late: false, text }
}

/// Those of some repositories that are pinned, or those that are not, behind
/// `out`.
fn push_chosen(out: &mut Vec<String>, paths: &Vec<String>, survey: &Survey, pinned: bool)
    ensures
        final(out).deep_view() == old(out).deep_view() + choose_pinned(
            paths.deep_view(),
            survey@,
            pinned,
        ),
{
    let ghost all = paths.deep_view();
    let ghost given = out.deep_view();
    let mut i: usize = 0;
    assert(all.take(0) =~= Seq::<Seq<char>>::empty());
    assert(given + choose_pinned(all.take(0), survey@, pinned) =~= given);
    while i < paths.len()
        invariant
            i <= paths@.len(),
            all == paths.deep_view(),
            out.deep_view() == given + choose_pinned(all.take(i as int), survey@, pinned),
        decreases paths@.len() - i,
    {
        let ghost before = out.deep_view();
        assert(all.take(i + 1).drop_last() =~= all.take(i as int));
        assert(all.take(i + 1).last() == paths@[i as int]@);
        let mut k: usize = 0;
        let mut listed = false;
        while k < survey.pinned.len()
            invariant
                k <= survey.pinned@.len(),
                i < paths@.len(),
                listed == exists|j: int|
                    0 <= j < k && #[trigger] survey@.pinned[j] == Some(paths@[i as int]@),
            decreases survey.pinned@.len() - k,
        {
            assert(survey@.pinned[k as int] == survey.pinned@[k as int].deep_view());
            if let Some(p) = &survey.pinned[k] {
                if *p == paths[i] {
                    listed = true;
                }
            }
            k = k + 1;
        }
        assert(listed == is_pinned(survey@, paths@[i as int]@)) by {
            if listed {
                let j = choose|j: int|
                    0 <= j < k && #[trigger] survey@.pinned[j] == Some(paths@[i as int]@);
                assert(survey@.pinned.contains(survey@.pinned[j]));
            }
        }
        if listed == pinned {
            out.push(paths[i].clone());
            assert(out.deep_view() =~= before.push(paths@[i as int]@));
        }
        i = i + 1;
        assert(out.deep_view() =~= given + choose_pinned(all.take(i as int), survey@, pinned));
    }
    assert(all.take(all.len() as int) =~= all);
}

/// The repositories that a survey shows.
pub fn discover_repos(config: &Config, survey: &Survey) -> (r: Vec<String>)
    requires
        survey@.fits(config@),
    ensures
        r.deep_view() == discovered(config@, survey@),
{
    let mut repos: Vec<String> = Vec::new();
    let mut i: usize = 0;
    while i < config.pinned_repos.len()
        invariant
            i <= config.pinned_repos@.len(),
            survey@.fits(config@),
            repos.deep_view() =~= pinned_found(config@, survey@, i as nat),
        decreases config.pinned_repos@.len() - i,
    {
        assert(survey@.pinned[i as int] == survey.pinned@[i as int].deep_view());
        assert(config@.pinned_repos[i as int] == config.pinned_repos@[i as int]@);
        let place = match &survey.pinned[i] {
            Some(p) => p.clone(),
            None => config.pinned_repos[i].clone(),
        };
        let dot_git = join(place.as_str(), ".git");
        if is_real_git_dir(dot_git.as_str(), &survey.files) {
            add_text(&mut repos, place);
        }
        i = i + 1;
    }
    let mut n: usize = 0;
    while n < config.root_dirs.len()
        invariant
            n <= config.root_dirs@.len(),
            survey@.fits(config@),
            repos.deep_view() == roots_found(config@, survey@, n as nat),
        decreases config.root_dirs@.len() - n,
    {
        let seen = &survey.roots[n];
        assert(survey@.roots[n as int] == seen.deep_view());
        assert(config@.root_dirs[n as int] == config.root_dirs@[n as int]@);
        if seen.exists {
            add_walked(
                &mut repos,
                config.root_dirs[n].as_str(),
                &seen.entries,
                config,
                &survey.files,
            );
            if let Some(contents) = &seen.project_list {
                discover_repo_workspace_projects(
                    config.root_dirs[n].as_str(),
                    contents.as_str(),
                    config,
                    &survey.files,
                    &mut repos,
                );
            }
        }
        n = n + 1;
    }
    let ghost found = repos.deep_view();
    let ghost want_keys = Seq::new(found.len(), |i: int| path_key(found[i]));
    let mut keys: Vec<SortKey> = Vec::new();
    let mut k: usize = 0;
    while k < repos.len()
        invariant
            k <= repos@.len(),
            found == repos.deep_view(),
            want_keys == Seq::new(found.len(), |i: int| path_key(found[i])),
            keys.deep_view() =~= want_keys.take(k as int),
        decreases repos@.len() - k,
    {
        let ghost before = keys.deep_view();
        assert(found[k as int] == repos@[k as int]@);
        let key = key_of_path(repos[k].as_str());
        keys.push(key);
        assert(keys.deep_view() =~= before.push(key.deep_view()));
        k = k + 1;
    }
    assert(keys.deep_view() =~= want_keys);
    let ghost given = repos@;
    let sorted = sort_by_keys(repos, &keys);
    proof {
        law_sorting_is_stable(want_keys);
    }
    assert(sorted.deep_view() =~= sorted_paths(found));
    let mut out: Vec<String> = Vec::new();
    push_chosen(&mut out, &sorted, survey, true);
    push_chosen(&mut out, &sorted, survey, false);
    assert(out.deep_view() =~= discovered(config@, survey@));
    out
}

// ---------------------------------------------------------------------------
// Laws
// ---------------------------------------------------------------------------

proof fn lemma_with_text(list: Seq<Seq<char>>, text: Seq<char>)
    requires
        list.no_duplicates(),
    ensures
        with_text(list, text).no_duplicates(),
        forall|p: Seq<char>| #[trigger]
            with_text(list, text).contains(p) <==> list.contains(p) || p == text,
{
    let more = with_text(list, text);
    if !list.contains(text) {
        assert forall|p: Seq<char>| #[trigger] more.contains(p) <==> list.contains(p) || p
            == text by {
            if list.contains(p) {
                let i = choose|i: int| 0 <= i < list.len() && list[i] == p;
                assert(more[i] == p);
            }
            if p == text {
                assert(more[list.len() as int] == p);
            }
        }
    }
}

/// A path is found for a reason: it is pinned, an entry of a walk belongs to it,
/// or a project list leads to it, and in each case git data was seen.
pub open spec fn has_source(config: ConfigView, survey: SurveyView, path: Seq<char>) -> bool {
    ||| is_pinned_repo(config, survey, path)
    ||| exists|n: int, i: int|
        0 <= n < survey.roots.len() && 0 <= i < survey.roots[n].entries.len()
            && #[trigger] walked_repo(
            config.root_dirs[n],
            survey.roots[n].entries[i],
            config,
            survey.files,
        ) == Some(path)
    ||| exists|n: int, line: Seq<char>|
        0 <= n < survey.roots.len() && #[trigger] listed_repo(
            config.root_dirs[n],
            line,
            config,
            survey.files,
        ) == Some(path)
}

/// A path is that of a pinned repository with git data.
pub open spec fn is_pinned_repo(config: ConfigView, survey: SurveyView, path: Seq<char>) -> bool {
    exists|i: int|
        0 <= i < survey.pinned.len() && #[trigger] pinned_place(config, survey, i) == path
            && real_git_dir(joined(path, ".git"@), survey.files)
}

spec fn well_found(found: Seq<Seq<char>>, config: ConfigView, survey: SurveyView) -> bool {
    &&& found.no_duplicates()
    &&& forall|p: Seq<char>| #[trigger] found.contains(p) ==> has_source(config, survey, p)
}

proof fn lemma_pinned_found(config: ConfigView, survey: SurveyView, n: nat)
    requires
        survey.fits(config),
        n <= survey.pinned.len(),
    ensures
        well_found(pinned_found(config, survey, n), config, survey),
        forall|p: Seq<char>| #[trigger]
            pinned_found(config, survey, n).contains(p) ==> is_pinned_repo(config, survey, p),
        forall|i: int|
            0 <= i < n && real_git_dir(
                joined(#[trigger] pinned_place(config, survey, i), ".git"@),
                survey.files,
            ) ==> pinned_found(config, survey, n).contains(pinned_place(config, survey, i)),
    decreases n,
{
    if n > 0 {
        let before = pinned_found(config, survey, (n - 1) as nat);
        lemma_pinned_found(config, survey, (n - 1) as nat);
        lemma_with_text(before, pinned_place(config, survey, n - 1));
    }
}

proof fn lemma_walk_found(
    found: Seq<Seq<char>>,
    r: int,
    config: ConfigView,
    survey: SurveyView,
    n: nat,
)
    requires
        0 <= r < survey.roots.len(),
        n <= survey.roots[r].entries.len(),
        well_found(found, config, survey),
    ensures
        well_found(
            walk_found(
                found,
                config.root_dirs[r],
                survey.roots[r].entries,
                config,
                survey.files,
                n,
            ),
            config,
            survey,
        ),
        forall|p: Seq<char>| #[trigger]
            found.contains(p) ==> walk_found(
                found,
                config.root_dirs[r],
                survey.roots[r].entries,
                config,
                survey.files,
                n,
            ).contains(p),
    decreases n,
{
    if n > 0 {
        lemma_walk_found(found, r, config, survey, (n - 1) as nat);
        let before = walk_found(
            found,
            config.root_dirs[r],
            survey.roots[r].entries,
            config,
            survey.files,
            (n - 1) as nat,
        );
        match walked_repo(
            config.root_dirs[r],
            survey.roots[r].entries[n - 1],
            config,
            survey.files,
        ) {
            Some(path) => {
                lemma_with_text(before, path);
                assert(has_source(config, survey, path));
            },
            None => {},
        }
    }
}

proof fn lemma_list_found(
    found: Seq<Seq<char>>,
    r: int,
    all: Seq<Seq<char>>,
    config: ConfigView,
    survey: SurveyView,
    n: nat,
)
    requires
        0 <= r < survey.roots.len(),
        n <= all.len(),
        well_found(found, config, survey),
    ensures
        well_found(
            list_found(found, config.root_dirs[r], all, config, survey.files, n),
            config,
            survey,
        ),
        forall|p: Seq<char>| #[trigger]
            found.contains(p) ==> list_found(
                found,
                config.root_dirs[r],
                all,
                config,
                survey.files,
                n,
            ).contains(p),
    decreases n,
{
    if n > 0 {
        lemma_list_found(found, r, all, config, survey, (n - 1) as nat);
        let before = list_found(
            found,
            config.root_dirs[r],
            all,
            config,
            survey.files,
            (n - 1) as nat,
        );
        match listed_repo(config.root_dirs[r], all[n - 1], config, survey.files) {
            Some(path) => {
                lemma_with_text(before, path);
                assert(has_source(config, survey, path));
            },
            None => {},
        }
    }
}

proof fn lemma_roots_found(config: ConfigView, survey: SurveyView, n: nat)
    requires
        survey.fits(config),
        n <= survey.roots.len(),
    ensures
        well_found(roots_found(config, survey, n), config, survey),
        forall|p: Seq<char>| #[trigger]
            pinned_found(config, survey, config.pinned_repos.len()).contains(p) ==> roots_found(
                config,
                survey,
                n,
            ).contains(p),
    decreases n,
{
    if n == 0 {
        lemma_pinned_found(config, survey, config.pinned_repos.len());
    } else {
        lemma_roots_found(config, survey, (n - 1) as nat);
        let before = roots_found(config, survey, (n - 1) as nat);
        let seen = survey.roots[n - 1];
        if seen.exists {
            lemma_walk_found(before, n - 1, config, survey, seen.entries.len());
            let walked = walk_found(
                before,
                config.root_dirs[n - 1],
                seen.entries,
                config,
                survey.files,
                seen.entries.len(),
            );
            match seen.project_list {
                Some(text) => {
                    lemma_list_found(
                        walked,
                        n - 1,
                        lines_of(text),
                        config,
                        survey,
                        lines_of(text).len(),
                    );
                },
                None => {},
            }
        }
    }
}

proof fn lemma_sorted_paths(found: Seq<Seq<char>>)
    requires
        found.no_duplicates(),
    ensures
        sorted_paths(found).no_duplicates(),
        sorted_paths(found).len() == found.len(),
        forall|p: Seq<char>| #[trigger] sorted_paths(found).contains(p) <==> found.contains(p),
{
    let keys = Seq::new(found.len(), |i: int| path_key(found[i]));
    law_sorting_is_stable(keys);
    let o = order(keys);
    let sorted = sorted_paths(found);
    assert forall|a: int, b: int| 0 <= a < b < sorted.len() implies sorted[a] != sorted[b] by {
        assert(o[a] != o[b]);
    }
    assert forall|p: Seq<char>| #[trigger] sorted.contains(p) <==> found.contains(p) by {
        if sorted.contains(p) {
            let a = choose|a: int| 0 <= a < sorted.len() && sorted[a] == p;
            assert(found[o[a]] == p);
        }
        if found.contains(p) {
            let i = choose|i: int| 0 <= i < found.len() && found[i] == p;
            crate::order::lemma_order_covers(keys, i);
            let k = choose|k: int| 0 <= k < o.len() && o[k] == i;
            assert(sorted[k] == p);
        }
    }
}

/// Paths stand in the order of their names.
pub open spec fn in_name_order(paths: Seq<Seq<char>>) -> bool {
    forall|a: int, b: int|
        0 <= a < b < paths.len() ==> !key_before(
            path_key(#[trigger] paths[b]),
            path_key(#[trigger] paths[a]),
        )
}

proof fn lemma_sorted_in_order(found: Seq<Seq<char>>)
    ensures
        in_name_order(sorted_paths(found)),
{
    let keys = Seq::new(found.len(), |i: int| path_key(found[i]));
    law_sorting_is_stable(keys);
    let o = order(keys);
    let sorted = sorted_paths(found);
    assert forall|a: int, b: int| 0 <= a < b < sorted.len() implies !key_before(
        path_key(#[trigger] sorted[b]),
        path_key(#[trigger] sorted[a]),
    ) by {
        assert(stands_before(keys, o[a], o[b]));
        lemma_keys_asymmetric(keys[o[a]], keys[o[b]]);
    }
}

proof fn lemma_chosen_in_order(paths: Seq<Seq<char>>, survey: SurveyView, pinned: bool)
    requires
        in_name_order(paths),
    ensures
        in_name_order(choose_pinned(paths, survey, pinned)),
        forall|a: int|
            0 <= a < choose_pinned(paths, survey, pinned).len() ==> paths.contains(
                #[trigger] choose_pinned(paths, survey, pinned)[a],
            ),
    decreases paths.len(),
{
    if paths.len() > 0 {
        let front = paths.drop_last();
        assert forall|a: int, b: int| 0 <= a < b < front.len() implies !key_before(
            path_key(#[trigger] front[b]),
            path_key(#[trigger] front[a]),
        ) by {
            assert(front[a] == paths[a] && front[b] == paths[b]);
        }
        lemma_chosen_in_order(front, survey, pinned);
        let before = choose_pinned(front, survey, pinned);
        let now = choose_pinned(paths, survey, pinned);
        let end = paths.len() - 1;
        assert forall|a: int| 0 <= a < now.len() implies paths.contains(#[trigger] now[a]) by {
            if a < before.len() {
                assert(front.contains(before[a]));
                let i = choose|i: int| 0 <= i < front.len() && front[i] == before[a];
                assert(paths[i] == now[a]);
            } else {
                assert(paths[end] == now[a]);
            }
        }
        assert forall|a: int, b: int| 0 <= a < b < now.len() implies !key_before(
            path_key(#[trigger] now[b]),
            path_key(#[trigger] now[a]),
        ) by {
            assert(now[a] == before[a]);
            if b < before.len() {
                assert(now[b] == before[b]);
            } else {
                assert(front.contains(before[a]));
                let i = choose|i: int| 0 <= i < front.len() && front[i] == before[a];
                assert(paths[i] == now[a] && paths[end] == now[b]);
            }
        }
    }
}

proof fn lemma_choose_pinned(paths: Seq<Seq<char>>, survey: SurveyView, pinned: bool)
    requires
        paths.no_duplicates(),
    ensures
        choose_pinned(paths, survey, pinned).no_duplicates(),
        forall|p: Seq<char>| #[trigger]
            choose_pinned(paths, survey, pinned).contains(p) <==> paths.contains(p) && is_pinned(
                survey,
                p,
            ) == pinned,
    decreases paths.len(),
{
    let chosen = choose_pinned(paths, survey, pinned);
    if paths.len() > 0 {
        let last = paths.last();
        let front = paths.drop_last();
        lemma_choose_pinned(front, survey, pinned);
        let before = choose_pinned(front, survey, pinned);
        assert(!front.contains(last)) by {
            if front.contains(last) {
                let i = choose|i: int| 0 <= i < front.len() && front[i] == last;
                assert(paths[i] == paths[paths.len() - 1]);
            }
        }
        assert forall|p: Seq<char>| paths.contains(p) <==> front.contains(p) || p == last by {
            if paths.contains(p) {
                let i = choose|i: int| 0 <= i < paths.len() && paths[i] == p;
                if i < front.len() {
                    assert(front[i] == p);
                }
            }
            if front.contains(p) {
                let i = choose|i: int| 0 <= i < front.len() && front[i] == p;
                assert(paths[i] == p);
            }
        }
        if is_pinned(survey, last) == pinned {
            assert forall|p: Seq<char>| chosen.contains(p) <==> before.contains(p) || p
                == last by {
                if before.contains(p) {
                    let i = choose|i: int| 0 <= i < before.len() && before[i] == p;
                    assert(chosen[i] == p);
                }
                assert(chosen[before.len() as int] == last);
            }
            assert(!before.contains(last));
        }
    }
}

/// No repository is found twice, and each is found for a reason: git data was
/// seen for it, so that an empty `.git` directory makes none. The pinned
/// repositories come first, and both they and the others stand in the order of
/// their names; one that is excluded is found only where it is pinned; and every
/// pinned repository is found.
pub proof fn law_discovery(config: ConfigView, survey: SurveyView)
    requires
        survey.fits(config),
    ensures
        discovered(config, survey).no_duplicates(),
        forall|p: Seq<char>| #[trigger]
            discovered(config, survey).contains(p) ==> has_source(config, survey, p),
        forall|a: int, b: int|
            0 <= a < b < discovered(config, survey).len() && is_pinned(
                survey,
                #[trigger] discovered(config, survey)[b],
            ) ==> is_pinned(survey, #[trigger] discovered(config, survey)[a]),
        forall|a: int, b: int|
            0 <= a < b < discovered(config, survey).len() && is_pinned(
                survey,
                #[trigger] discovered(config, survey)[a],
            ) == is_pinned(survey, #[trigger] discovered(config, survey)[b]) ==> !key_before(
                path_key(discovered(config, survey)[b]),
                path_key(discovered(config, survey)[a]),
            ),
        forall|p: Seq<char>| #[trigger]
            discovered(config, survey).contains(p) && excluded(p, config.excluded_repos)
                ==> is_pinned_repo(config, survey, p),
        forall|i: int|
            0 <= i < survey.pinned.len() && real_git_dir(
                joined(#[trigger] pinned_place(config, survey, i), ".git"@),
                survey.files,
            ) ==> discovered(config, survey).contains(pinned_place(config, survey, i)),
{
    let found = roots_found(config, survey, config.root_dirs.len());
    lemma_roots_found(config, survey, config.root_dirs.len());
    lemma_pinned_found(config, survey, config.pinned_repos.len());
    lemma_sorted_paths(found);
    let sorted = sorted_paths(found);
    lemma_choose_pinned(sorted, survey, true);
    lemma_choose_pinned(sorted, survey, false);
    let first = choose_pinned(sorted, survey, true);
    let second = choose_pinned(sorted, survey, false);
    lemma_sorted_in_order(found);
    lemma_chosen_in_order(sorted, survey, true);
    lemma_chosen_in_order(sorted, survey, false);
    let all = discovered(config, survey);
    assert forall|p: Seq<char>| #[trigger] all.contains(p) <==> first.contains(p)
        || second.contains(p) by {
        if all.contains(p) {
            let i = choose|i: int| 0 <= i < all.len() && all[i] == p;
            if i < first.len() {
                assert(first[i] == p);
            } else {
                assert(second[i - first.len()] == p);
            }
        }
        if first.contains(p) {
            let i = choose|i: int| 0 <= i < first.len() && first[i] == p;
            assert(all[i] == p);
        }
        if second.contains(p) {
            let i = choose|i: int| 0 <= i < second.len() && second[i] == p;
            assert(all[first.len() + i] == p);
        }
    }
    assert forall|i: int| 0 <= i < all.len() implies (i < first.len() <==> is_pinned(
        survey,
        #[trigger] all[i],
    )) by {
        if i < first.len() {
            assert(first[i] == all[i]);
            assert(first.contains(all[i]));
        } else {
            assert(second[i - first.len()] == all[i]);
            assert(second.contains(all[i]));
        }
    }
    assert forall|a: int, b: int|
        0 <= a < b < all.len() && is_pinned(survey, #[trigger] all[a]) == is_pinned(
            survey,
            #[trigger] all[b],
        ) implies !key_before(path_key(all[b]), path_key(all[a])) by {
        if b < first.len() {
            assert(first[a] == all[a] && first[b] == all[b]);
        } else {
            assert(second[a - first.len()] == all[a] && second[b - first.len()] == all[b]);
        }
    }
    assert forall|a: int, b: int| 0 <= a < b < all.len() implies all[a] != all[b] by {
        if b < first.len() {
            assert(first[a] != first[b]);
        } else if a >= first.len() {
            assert(second[a - first.len()] != second[b - first.len()]);
        } else {
            assert(is_pinned(survey, all[a]) && !is_pinned(survey, all[b]));
        }
    }
}

/// Ordering what was found neither adds nor loses anything.
pub(crate) proof fn lemma_discovered(config: ConfigView, survey: SurveyView, p: Seq<char>)
    requires
        survey.fits(config),
    ensures
        discovered(config, survey).contains(p) <==> roots_found(
            config,
            survey,
            survey.roots.len(),
        ).contains(p),
{
    let found = roots_found(config, survey, config.root_dirs.len());
    lemma_roots_found(config, survey, config.root_dirs.len());
    lemma_sorted_paths(found);
    let sorted = sorted_paths(found);
    lemma_choose_pinned(sorted, survey, true);
    lemma_choose_pinned(sorted, survey, false);
    let first = choose_pinned(sorted, survey, true);
    let second = choose_pinned(sorted, survey, false);
    let all = discovered(config, survey);
    if all.contains(p) {
        let i = choose|i: int| 0 <= i < all.len() && all[i] == p;
        if i < first.len() {
            assert(first[i] == p);
        } else {
            assert(second[i - first.len()] == p);
        }
    }
    if first.contains(p) {
        let i = choose|i: int| 0 <= i < first.len() && first[i] == p;
        assert(all[i] == p);
    }
    if second.contains(p) {
        let i = choose|i: int| 0 <= i < second.len() && second[i] == p;
        assert(all[first.len() + i] == p);
    }
}

/// A project that a list names never escapes the workspace: its path leads through
/// all of the root, and no name below the root leads up again. Where the root has
/// no `..`, neither has the path.
pub proof fn law_projects_lie_under_the_root(root: Seq<char>, line: Seq<char>)
    ensures
        project_of(root, line) matches Some(path) ==> {
            &&& lies_under(path, root)
            &&& !leads_through(path, ".."@, parts(root).len())
            &&& !parts(root).contains(".."@) ==> !parts(path).contains(".."@)
        },
{
    let path = joined(root, trimmed(line));
    crate::paths::law_normal_form(path, root);
    if project_of(root, line) is Some && parts(path).contains(".."@) {
        let k = choose|k: int| 0 <= k < parts(path).len() && parts(path)[k] == ".."@;
        if k < parts(root).len() {
            assert(parts(path).take(parts(root).len() as int)[k] == parts(root)[k]);
        }
    }
}

} // verus!
