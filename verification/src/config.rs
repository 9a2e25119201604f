//! What the user has configured.
use vstd::prelude::*;
use vstd::string::*;
use crate::model::BranchFilter;
use crate::screen::Theme;
use crate::text::list_contains;

verus! {

/// The configuration, as far as the program's decisions depend on it. Paths are
/// in normal form.
pub struct Config {
    pub root_dirs: Vec<String>,
    pub pinned_repos: Vec<String>,
    pub excluded_repos: Vec<String>,
    pub refresh_cooldown_ms: u64,
    pub discovery_cooldown_secs: u64,
    pub debounce_ms: u64,
    pub watch_exclude_dirs: Vec<String>,
    pub watch_worktree_dirs: bool,
    pub show_liveness: bool,
    pub check_for_updates: bool,
    pub branches: BranchFilter,
    pub label_max_len: usize,
    pub show_stats: bool,
    pub theme: Theme,
    pub theme_name: String,
    /// A theme for this session only.
    pub runtime_theme_override: Option<String>,
}

/// What the configuration holds.
#[verifier::ext_equal]
pub struct ConfigView {
    pub root_dirs: Seq<Seq<char>>,
    pub pinned_repos: Seq<Seq<char>>,
    pub excluded_repos: Seq<Seq<char>>,
    pub refresh_cooldown_ms: u64,
    pub discovery_cooldown_secs: u64,
    pub debounce_ms: u64,
    pub watch_exclude_dirs: Seq<Seq<char>>,
    pub watch_worktree_dirs: bool,
    pub show_liveness: bool,
    pub check_for_updates: bool,
    pub branches: BranchFilter,
    pub label_max_len: usize,
    pub show_stats: bool,
    pub theme: Theme,
    pub theme_name: Seq<char>,
    pub runtime_theme_override: Option<Seq<char>>,
}

impl View for Config {
    type V = ConfigView;

    open spec fn view(&self) -> ConfigView {
        ConfigView {
            root_dirs: self.root_dirs.deep_view(),
            pinned_repos: self.pinned_repos.deep_view(),
            excluded_repos: self.excluded_repos.deep_view(),
            refresh_cooldown_ms: self.refresh_cooldown_ms,
            discovery_cooldown_secs: self.discovery_cooldown_secs,
            debounce_ms: self.debounce_ms,
            watch_exclude_dirs: self.watch_exclude_dirs.deep_view(),
            watch_worktree_dirs: self.watch_worktree_dirs,
            show_liveness: self.show_liveness,
            check_for_updates: self.check_for_updates,
            branches: self.branches,
            label_max_len: self.label_max_len,
            show_stats: self.show_stats,
            theme: self.theme,
            theme_name: self.theme_name@,
            runtime_theme_override: self.runtime_theme_override.deep_view(),
        }
    }
}

/// A list with a text at its end, unless the list has it.
pub open spec fn with_text(list: Seq<Seq<char>>, text: Seq<char>) -> Seq<Seq<char>> {
    if list.contains(text) {
        list
    } else {
        list.push(text)
    }
}

/// A list without a text.
pub open spec fn without_text(list: Seq<Seq<char>>, text: Seq<char>) -> Seq<Seq<char>>
    decreases list.len(),
{
    if list.len() == 0 {
        Seq::empty()
    } else {
        let before = without_text(list.drop_last(), text);
        if list.last() == text {
            before
        } else {
            before.push(list.last())
        }
    }
}

/// Puts a text at the end of a list, unless the list has it, and says whether it
/// was put there.
pub(crate) fn add_text(list: &mut Vec<String>, text: String) -> (r: bool)
    ensures
        final(list).deep_view() == with_text(old(list).deep_view(), text@),
        r == !old(list).deep_view().contains(text@),
{
    if list_contains(list, text.as_str()) {
        false
    } else {
        let ghost before = list.deep_view();
        list.push(text);
        assert(list.deep_view() =~= before.push(text@));
        true
    }
}

/// The texts of a list but one.
pub(crate) fn remove_text(list: &Vec<String>, text: &str) -> (r: Vec<String>)
    ensures
        r.deep_view() == without_text(list.deep_view(), text@),
{
    let key = String::from_str(text);
    let ghost all = list.deep_view();
    let mut out: Vec<String> = Vec::new();
    let mut i: usize = 0;
    assert(all.take(0) =~= Seq::<Seq<char>>::empty());
    while i < list.len()
        invariant
            i <= list@.len(),
            all == list.deep_view(),
            key@ == text@,
            out.deep_view() == without_text(all.take(i as int), text@),
        decreases list@.len() - i,
    {
        let ghost before = out.deep_view();
        assert(all.take(i + 1).drop_last() =~= all.take(i as int));
        assert(all.take(i + 1).last() == list@[i as int]@);
        if list[i] != key {
            out.push(list[i].clone());
            assert(out.deep_view() =~= before.push(list@[i as int]@));
        }
        i = i + 1;
    }
    assert(all.take(all.len() as int) =~= all);
    out
}

impl Config {
    /// Pins a repository, unless it is pinned.
    pub fn add_pinned_repo(&mut self, path: String)
        ensures
            final(self)@ == (ConfigView {
                pinned_repos: with_text(old(self)@.pinned_repos, path@),
                ..old(self)@
            }),
    {
        add_text(&mut self.pinned_repos, path);
    }
}

} // verus!
