//! Which repositories are discovered.
use vstd::prelude::*;
use vstd::string::*;

use crate::config::{with_text, ConfigView};
use crate::names::precedes;
use crate::paths::{absolute, joined, leads_through, lies_under, normal, parent_of, parts};
use crate::scanner::{
    contents_of, discovered, excluded, is_file, law_discovery, list_found, listed_repo,
    pinned_found, pinned_place, real_git_dir, root_found, roots_found, walk_found, walked_repo,
    FileFactView, SurveyView,
};
use crate::text::{lines_of, trimmed};

verus! {

/// A regular file was seen at a path.
pub open spec fn seen(files: Seq<FileFactView>, path: Seq<char>) -> bool {
    exists|f: int| 0 <= f < files.len() && (#[trigger] files[f]).path == path
}

/// A file at a path was seen, the first of that path with these contents.
pub open spec fn reads(files: Seq<FileFactView>, path: Seq<char>, text: Seq<char>) -> bool {
    exists|f: int|
        0 <= f < files.len() && (#[trigger] files[f]).path == path && files[f].contents == Some(
            text,
        ) && forall|g: int| 0 <= g < f ==> (#[trigger] files[g]).path != path
}

proof fn lemma_contents(files: Seq<FileFactView>, path: Seq<char>, f: int)
    requires
        0 <= f < files.len(),
        files[f].path == path,
        forall|g: int| 0 <= g < f ==> (#[trigger] files[g]).path != path,
    ensures
        contents_of(files, path) == files[f].contents,
    decreases files.len(),
{
    if f > 0 {
        let rest = files.drop_first();
        assert(files[0].path != path);
        assert forall|g: int| 0 <= g < f - 1 implies (#[trigger] rest[g]).path != path by {
            assert(rest[g] == files[g + 1]);
        }
        lemma_contents(rest, path, f - 1);
    }
}

/// A `.git` with a `HEAD` in it is git data, whether or not it is a link. A `.git` file
/// is git data where it points, behind `gitdir:`, to a directory with a `HEAD`, by an
/// absolute path or by one from the directory of the file. An entry without either,
/// such as an empty directory, is none.
pub proof fn law_git_data_has_a_head(
    dot_git: Seq<char>,
    files: Seq<FileFactView>,
    text: Seq<char>,
    target: Seq<char>,
)
    requires
        dot_git.len() > 0,
        dot_git.last() != '/',
    ensures
        seen(files, dot_git + "/HEAD"@) ==> real_git_dir(dot_git, files),
        !seen(files, dot_git + "/HEAD"@) && !seen(files, dot_git) ==> !real_git_dir(dot_git, files),
        reads(files, dot_git, text) && trimmed(text) == "gitdir:"@ + target && trimmed(
            target,
        ).len() > 0 && trimmed(target)[0] == '/' && trimmed(target).last() != '/' && seen(
            files,
            trimmed(target) + "/HEAD"@,
        ) ==> real_git_dir(dot_git, files),
        reads(files, dot_git, text) && trimmed(text) == "gitdir:"@ + target && !absolute(
            trimmed(target),
        ) && parent_of(dot_git) is Some && seen(
            files,
            joined(joined(parent_of(dot_git)->0, trimmed(target)), "HEAD"@),
        ) ==> real_git_dir(dot_git, files),
        !seen(files, dot_git + "/HEAD"@) && reads(files, dot_git, text) && (trimmed(text).len() < 7
            || trimmed(text).take(7) != "gitdir:"@) ==> !real_git_dir(dot_git, files),
{
    reveal_strlit("HEAD");
    reveal_strlit("/");
    reveal_strlit("/HEAD");
    reveal_strlit("gitdir:");
    assert(dot_git + "/"@ + "HEAD"@ =~= dot_git + "/HEAD"@);
    assert(joined(dot_git, "HEAD"@) == dot_git + "/HEAD"@);
    if reads(files, dot_git, text) {
        let f = choose|f: int|
            0 <= f < files.len() && (#[trigger] files[f]).path == dot_git && files[f].contents
                == Some(text) && forall|g: int| 0 <= g < f ==> (#[trigger] files[g]).path
                != dot_git;
        lemma_contents(files, dot_git, f);
        assert(is_file(files, dot_git));
        if trimmed(text) == "gitdir:"@ + target {
            let t = trimmed(text);
            assert(t.take(7) =~= "gitdir:"@);
            assert(t.skip(7) =~= target);
            let goal = trimmed(target);
            assert(goal + "/"@ + "HEAD"@ =~= goal + "/HEAD"@);
        }
    }
}

/// A pattern hits a path: it is one of the names that the path leads through.
pub open spec fn hits(patterns: Seq<Seq<char>>, path: Seq<char>) -> bool {
    exists|i: int| 0 <= i < patterns.len() && parts(path).contains(#[trigger] patterns[i])
}

/// Exclusion goes by whole names: a path that leads through a pattern is excluded, and
/// one that leads through none is not. No pattern is empty.
pub proof fn law_exclusion_goes_by_whole_names(path: Seq<char>, patterns: Seq<Seq<char>>)
    requires
        forall|i: int| 0 <= i < patterns.len() ==> (#[trigger] patterns[i]).len() > 0,
    ensures
        excluded(path, patterns) == hits(patterns, path),
{
    if excluded(path, patterns) {
        let i = choose|i: int|
            0 <= i < patterns.len() && (crate::scanner::name_or_empty(path)
                == #[trigger] patterns[i] || parts(path).contains(patterns[i]));
        if !parts(path).contains(patterns[i]) {
            let names = parts(path);
            assert(names[names.len() - 1] == patterns[i]);
        }
    }
    if hits(patterns, path) {
        let i = choose|i: int| 0 <= i < patterns.len() && parts(path).contains(#[trigger] patterns[i]);
        assert(parts(path).contains(patterns[i]));
    }
}

/// Entry `e` of the walk under root `n` is the git data of the repository at `p`: it is
/// called `.git`, does not lie in the directory of the workspace tool, and the
/// repository, the directory that it lies in, is not excluded.
pub open spec fn walked_to(
    config: ConfigView,
    survey: SurveyView,
    n: int,
    e: int,
    p: Seq<char>,
) -> bool {
    &&& 0 <= n < survey.roots.len()
    &&& survey.roots[n].exists
    &&& 0 <= e < survey.roots[n].entries.len()
    &&& ({
        let entry = survey.roots[n].entries[e];
        let above = parts(config.root_dirs[n]).len();
        let names = parts(entry.path);
        &&& names.len() > 0
        &&& names.last() == ".git"@
        &&& forall|k: int|
            0 <= k < names.len() && k >= above - 1 ==> #[trigger] names[k] != ".repo"@
        &&& real_git_dir(entry.path, survey.files)
        &&& match entry.home {
            Some(home) => p == home,
            None => parent_of(entry.path) == Some(p),
        }
        &&& !excluded(p, config.excluded_repos)
    })
}

/// Line `l` of the project list of root `n` names the repository at `p`: the path from
/// the root that it gives, without white space around it, leads down from the root, has
/// git data, and is not excluded.
pub open spec fn listed_by(
    config: ConfigView,
    survey: SurveyView,
    n: int,
    l: int,
    p: Seq<char>,
) -> bool {
    &&& 0 <= n < survey.roots.len()
    &&& survey.roots[n].exists
    &&& survey.roots[n].project_list is Some
    &&& 0 <= l < lines_of(survey.roots[n].project_list->0).len()
    &&& ({
        let rel = trimmed(lines_of(survey.roots[n].project_list->0)[l]);
        let root = config.root_dirs[n];
        let path = joined(root, rel);
        &&& rel.len() > 0
        &&& lies_under(path, root)
        &&& forall|k: int|
            parts(root).len() <= k < parts(path).len() ==> #[trigger] parts(path)[k] != ".."@
        &&& p == normal(path)
        &&& real_git_dir(joined(p, ".git"@), survey.files)
        &&& !excluded(p, config.excluded_repos)
    })
}

/// Pinned repository `i` lies at `p`, where it has git data.
pub open spec fn pinned_at(config: ConfigView, survey: SurveyView, i: int, p: Seq<char>) -> bool {
    &&& 0 <= i < survey.pinned.len()
    &&& p == match survey.pinned[i] {
        Some(place) => place,
        None => config.pinned_repos[i],
    }
    &&& real_git_dir(joined(p, ".git"@), survey.files)
}

/// A repository is discovered for a reason.
pub open spec fn has_reason(config: ConfigView, survey: SurveyView, p: Seq<char>) -> bool {
    ||| exists|i: int| #[trigger] pinned_at(config, survey, i, p)
    ||| exists|n: int, e: int| #[trigger] walked_to(config, survey, n, e, p)
    ||| exists|n: int, l: int| #[trigger] listed_by(config, survey, n, l, p)
}

proof fn lemma_walked(config: ConfigView, survey: SurveyView, n: int, e: int, p: Seq<char>)
    requires
        0 <= n < survey.roots.len(),
        survey.roots[n].exists,
        0 <= e < survey.roots[n].entries.len(),
    ensures
        walked_to(config, survey, n, e, p) == (walked_repo(
            config.root_dirs[n],
            survey.roots[n].entries[e],
            config,
            survey.files,
        ) == Some(p)),
{
    reveal_strlit(".git");
    reveal_strlit(".");
    reveal_strlit("..");
    let entry = survey.roots[n].entries[e];
    let above = parts(config.root_dirs[n]).len();
    let names = parts(entry.path);
    assert(".git"@ != "."@ && ".git"@ != ".."@) by {
        assert(".git"@.len() == 4 && "."@.len() == 1 && ".."@.len() == 2);
    }
    let from: nat = if above > 0 {
        (above - 1) as nat
    } else {
        0
    };
    if leads_through(entry.path, ".repo"@, from) {
        let k = choose|k: int| from <= k < names.len() && #[trigger] names[k] == ".repo"@;
        assert(names[k] == ".repo"@);
    }
    if walked_to(config, survey, n, e, p) {
        assert(!leads_through(entry.path, ".repo"@, from));
    }
}

proof fn lemma_listed_by(config: ConfigView, survey: SurveyView, n: int, l: int, p: Seq<char>)
    requires
        0 <= n < survey.roots.len(),
        survey.roots[n].exists,
        survey.roots[n].project_list is Some,
        0 <= l < lines_of(survey.roots[n].project_list->0).len(),
    ensures
        listed_by(config, survey, n, l, p) == (listed_repo(
            config.root_dirs[n],
            lines_of(survey.roots[n].project_list->0)[l],
            config,
            survey.files,
        ) == Some(p)),
{
    let line = lines_of(survey.roots[n].project_list->0)[l];
    let root = config.root_dirs[n];
    let path = joined(root, trimmed(line));
    if leads_through(path, ".."@, parts(root).len()) {
        let k = choose|k: int|
            parts(root).len() <= k < parts(path).len() && #[trigger] parts(path)[k] == ".."@;
        assert(parts(path)[k] == ".."@);
    }
}

proof fn lemma_more(list: Seq<Seq<char>>, text: Seq<char>)
    ensures
        forall|p: Seq<char>| #[trigger]
            with_text(list, text).contains(p) <==> list.contains(p) || p == text,
{
    let more = with_text(list, text);
    if !list.contains(text) {
        assert forall|p: Seq<char>| #[trigger] more.contains(p) <==> list.contains(p) || p
            == text by {
            if list.contains(p) {
                let i = choose|i: int| 0 <= i < list.len() && list[i] == p;
                assert(more[i] == p);
            }
            if p == text {
                assert(more[list.len() as int] == p);
            }
        }
    }
}

proof fn lemma_pinned(config: ConfigView, survey: SurveyView, n: nat, p: Seq<char>)
    requires
        survey.fits(config),
        n <= survey.pinned.len(),
    ensures
        pinned_found(config, survey, n).contains(p) <==> exists|i: int|
            i < n && #[trigger] pinned_at(config, survey, i, p),
    decreases n,
{
    if n > 0 {
        lemma_pinned(config, survey, (n - 1) as nat, p);
        let before = pinned_found(config, survey, (n - 1) as nat);
        let place = pinned_place(config, survey, n - 1);
        lemma_more(before, place);
        assert(pinned_at(config, survey, n - 1, p) == (p == place && real_git_dir(
            joined(place, ".git"@),
            survey.files,
        )));
        if exists|i: int| i < n && #[trigger] pinned_at(config, survey, i, p) {
            let i = choose|i: int| i < n && #[trigger] pinned_at(config, survey, i, p);
            if i < n - 1 {
                assert(pinned_at(config, survey, i, p) && i < n - 1);
            }
        }
    }
}

proof fn lemma_walk(
    found: Seq<Seq<char>>,
    config: ConfigView,
    survey: SurveyView,
    r: int,
    n: nat,
    p: Seq<char>,
)
    requires
        0 <= r < survey.roots.len(),
        survey.roots[r].exists,
        n <= survey.roots[r].entries.len(),
    ensures
        walk_found(
            found,
            config.root_dirs[r],
            survey.roots[r].entries,
            config,
            survey.files,
            n,
        ).contains(p) <==> found.contains(p) || exists|e: int|
            e < n && #[trigger] walked_to(config, survey, r, e, p),
    decreases n,
{
    if n > 0 {
        lemma_walk(found, config, survey, r, (n - 1) as nat, p);
        let before = walk_found(
            found,
            config.root_dirs[r],
            survey.roots[r].entries,
            config,
            survey.files,
            (n - 1) as nat,
        );
        lemma_walked(config, survey, r, n - 1, p);
        match walked_repo(
            config.root_dirs[r],
            survey.roots[r].entries[n - 1],
            config,
            survey.files,
        ) {
            Some(path) => {
                lemma_more(before, path);
            },
            None => {},
        }
        if exists|e: int| e < n && #[trigger] walked_to(config, survey, r, e, p) {
            let e = choose|e: int| e < n && #[trigger] walked_to(config, survey, r, e, p);
            if e < n - 1 {
                assert(walked_to(config, survey, r, e, p) && e < n - 1);
            }
        }
    }
}

proof fn lemma_list(
    found: Seq<Seq<char>>,
    config: ConfigView,
    survey: SurveyView,
    r: int,
    n: nat,
    p: Seq<char>,
)
    requires
        0 <= r < survey.roots.len(),
        survey.roots[r].exists,
        survey.roots[r].project_list is Some,
        n <= lines_of(survey.roots[r].project_list->0).len(),
    ensures
        list_found(
            found,
            config.root_dirs[r],
            lines_of(survey.roots[r].project_list->0),
            config,
            survey.files,
            n,
        ).contains(p) <==> found.contains(p) || exists|l: int|
            l < n && #[trigger] listed_by(config, survey, r, l, p),
    decreases n,
{
    let all = lines_of(survey.roots[r].project_list->0);
    if n > 0 {
        lemma_list(found, config, survey, r, (n - 1) as nat, p);
        let before = list_found(
            found,
            config.root_dirs[r],
            all,
            config,
            survey.files,
            (n - 1) as nat,
        );
        lemma_listed_by(config, survey, r, n - 1, p);
        match listed_repo(config.root_dirs[r], all[n - 1], config, survey.files) {
            Some(path) => {
                lemma_more(before, path);
            },
            None => {},
        }
        if exists|l: int| l < n && #[trigger] listed_by(config, survey, r, l, p) {
            let l = choose|l: int| l < n && #[trigger] listed_by(config, survey, r, l, p);
            if l < n - 1 {
                assert(listed_by(config, survey, r, l, p) && l < n - 1);
            }
        }
    }
}

/// A repository is found under root `n`, by the walk or by the project list.
pub open spec fn found_under(config: ConfigView, survey: SurveyView, n: int, p: Seq<char>) -> bool {
    ||| exists|e: int| #[trigger] walked_to(config, survey, n, e, p)
    ||| exists|l: int| #[trigger] listed_by(config, survey, n, l, p)
}

proof fn lemma_root(
    found: Seq<Seq<char>>,
    config: ConfigView,
    survey: SurveyView,
    r: int,
    p: Seq<char>,
)
    requires
        0 <= r < survey.roots.len(),
    ensures
        root_found(found, config.root_dirs[r], survey.roots[r], config, survey.files).contains(p)
            <==> found.contains(p) || found_under(config, survey, r, p),
{
    let at = survey.roots[r];
    if at.exists {
        lemma_walk(found, config, survey, r, at.entries.len(), p);
        let walked = walk_found(
            found,
            config.root_dirs[r],
            at.entries,
            config,
            survey.files,
            at.entries.len(),
        );
        if exists|e: int| #[trigger] walked_to(config, survey, r, e, p) {
            let e = choose|e: int| #[trigger] walked_to(config, survey, r, e, p);
            assert(e < at.entries.len() && walked_to(config, survey, r, e, p));
        }
        if at.project_list is Some {
            let n = lines_of(at.project_list->0).len();
            lemma_list(walked, config, survey, r, n, p);
            if exists|l: int| #[trigger] listed_by(config, survey, r, l, p) {
                let l = choose|l: int| #[trigger] listed_by(config, survey, r, l, p);
                assert(l < n && listed_by(config, survey, r, l, p));
            }
        }
    }
}

proof fn lemma_roots(config: ConfigView, survey: SurveyView, n: nat, p: Seq<char>)
    requires
        survey.fits(config),
        n <= survey.roots.len(),
    ensures
        roots_found(config, survey, n).contains(p) <==> (exists|i: int| #[trigger]
            pinned_at(config, survey, i, p)) || (exists|r: int|
            0 <= r < n && #[trigger] found_under(config, survey, r, p)),
    decreases n,
{
    if n == 0 {
        lemma_pinned(config, survey, survey.pinned.len(), p);
        if exists|i: int| #[trigger] pinned_at(config, survey, i, p) {
            let i = choose|i: int| #[trigger] pinned_at(config, survey, i, p);
            assert(i < survey.pinned.len() && pinned_at(config, survey, i, p));
        }
    } else {
        lemma_roots(config, survey, (n - 1) as nat, p);
        lemma_root(roots_found(config, survey, (n - 1) as nat), config, survey, n - 1, p);
        if exists|r: int| 0 <= r < n && #[trigger] found_under(config, survey, r, p) {
            let r = choose|r: int| 0 <= r < n && #[trigger] found_under(config, survey, r, p);
            if r < n - 1 {
                assert(0 <= r < n - 1 && found_under(config, survey, r, p));
            }
        }
        if exists|r: int| 0 <= r < n - 1 && #[trigger] found_under(config, survey, r, p) {
            let r = choose|r: int| 0 <= r < n - 1 && #[trigger] found_under(config, survey, r, p);
            assert(0 <= r < n && found_under(config, survey, r, p));
        }
    }
}

/// Discovery is complete and finds nothing else: a repository is discovered exactly
/// when it is pinned and has git data, or an entry of the walk under any of the root
/// directories is its git data, or a line of the project list of any of them names it.
pub proof fn law_discovery_is_complete(config: ConfigView, survey: SurveyView, p: Seq<char>)
    requires
        survey.fits(config),
    ensures
        discovered(config, survey).contains(p) <==> has_reason(config, survey, p),
{
    let n = survey.roots.len();
    lemma_roots(config, survey, n, p);
    crate::scanner::lemma_discovered(config, survey, p);
    if has_reason(config, survey, p) {
        if exists|r: int, e: int| #[trigger] walked_to(config, survey, r, e, p) {
            let (r, e) = choose|r: int, e: int| #[trigger] walked_to(config, survey, r, e, p);
            assert(found_under(config, survey, r, p) && 0 <= r < n);
        } else if exists|r: int, l: int| #[trigger] listed_by(config, survey, r, l, p) {
            let (r, l) = choose|r: int, l: int| #[trigger] listed_by(config, survey, r, l, p);
            assert(found_under(config, survey, r, p) && 0 <= r < n);
        }
    }
    if exists|r: int| 0 <= r < n && #[trigger] found_under(config, survey, r, p) {
        let r = choose|r: int| 0 <= r < n && #[trigger] found_under(config, survey, r, p);
        if exists|e: int| #[trigger] walked_to(config, survey, r, e, p) {
            let e = choose|e: int| #[trigger] walked_to(config, survey, r, e, p);
            assert(walked_to(config, survey, r, e, p));
        } else {
            let l = choose|l: int| #[trigger] listed_by(config, survey, r, l, p);
            assert(listed_by(config, survey, r, l, p));
        }
    }
}

/// The name at the end of a path, letters of the alphabet in lower case.
pub open spec fn small_name(path: Seq<char>) -> Seq<char> {
    let names = parts(path);
    if names.len() == 0 || names.last() == "."@ || names.last() == ".."@ {
        Seq::empty()
    } else {
        Seq::new(
            names.last().len(),
            |i: int|
                if 'A' <= names.last()[i] <= 'Z' {
                    (names.last()[i] as int + 32) as char
                } else {
                    names.last()[i]
                },
        )
    }
}

/// The pinned repositories come first; these, and the others behind them, are ordered
/// by their names, upper and lower case being the same; and none comes twice.
pub proof fn law_discovered_are_ordered(config: ConfigView, survey: SurveyView, a: int, b: int)
    requires
        survey.fits(config),
        0 <= a < b < discovered(config, survey).len(),
    ensures
        ({
            let all = discovered(config, survey);
            let pinned_a = survey.pinned.contains(Some(all[a]));
            let pinned_b = survey.pinned.contains(Some(all[b]));
            &&& all[a] != all[b]
            &&& pinned_b ==> pinned_a
            &&& pinned_a == pinned_b ==> !precedes(small_name(all[b]), small_name(all[a]))
        }),
{
    law_discovery(config, survey);
    let all = discovered(config, survey);
    assert(crate::scanner::path_key(all[a]).text =~= small_name(all[a]));
    assert(crate::scanner::path_key(all[b]).text =~= small_name(all[b]));
    assert(all[a] != all[b]);
}

} // verus!
