//! Messages, the clipboard, pickers, themes, events and the start.
use vstd::prelude::*;
use vstd::string::*;
use vstd::utf8::encode_utf8;

use crate::action::{ActionView, ClipboardReply};
use crate::app::{AppView, FocusPanel, MessageView, PendingPickView, SortOrder};
use crate::app::effect::EffectView;
use crate::app::events::Event;
use crate::app::git_ops::{clipboard_sequence, first_line, git_report_of, spaced, GitOutcome};
use crate::base64::{decoded, encoded};
use crate::config::ConfigView;
use crate::git_graph::GraphView;
use crate::git_graph::collapse::placeholder;
use crate::model::{hex, hex_digit, BranchSegmentView, GraphRowView, Oid};
use crate::repo_list::RepoListView;
use crate::screen::Theme;
use crate::text::{decimal, lines_of, trimmed};

verus! {

/// An error is shown from now on, every line feed in it a space, and cut to 117
/// characters and three dots where it is longer than 120.
pub proof fn law_errors_are_shown(app: AppView, text: Seq<char>, now: u128, k: int)
    ensures
        ({
            let after = app.error(text, now);
            let shown = after.error_message->0.text;
            &&& after.error_message is Some
            &&& after.error_message->0.at == now
            &&& after == AppView { error_message: after.error_message, ..app }
            &&& text.len() <= 120 ==> shown.len() == text.len()
            &&& text.len() > 120 ==> shown.len() == 120 && shown.skip(117) == "..."@
            &&& 0 <= k < text.len() && k < 117 ==> shown[k] == if text[k] == '\n' {
                ' '
            } else {
                text[k]
            }
            &&& 0 <= k < text.len() <= 120 ==> shown[k] == if text[k] == '\n' {
                ' '
            } else {
                text[k]
            }
        }),
{
    reveal(AppView::with_error);
    reveal(AppView::error);
    reveal_strlit("...");
    let shown = app.error(text, now).error_message->0.text;
    if text.len() > 120 {
        assert(shown.skip(117) =~= "..."@);
    }
}

/// Messages that have stood long enough are dropped, and no others.
pub proof fn law_expired_messages_are_dropped(app: AppView, error: bool, success: bool)
    ensures
        app.clear_expired_messages(error, success) == (AppView {
            error_message: if error {
                None
            } else {
                app.error_message
            },
            success_message: if success {
                None
            } else {
                app.success_message
            },
            ..app
        }),
{
    reveal(AppView::without_error);
    reveal(AppView::without_success);
    reveal(AppView::clear_expired_messages);
}

/// A text goes to the clipboard as it is, through a new connection where there is none;
/// the user is told what became of it, and a connection is kept only where it worked.
pub proof fn law_clipboard_is_told(app: AppView, text: Seq<char>, reason: String, now: u128)
    ensures
        app.copy_to_clipboard(text) == (AppView {
            outbox: app.outbox.push(
                EffectView::CopyToClipboard { text, connect: !app.clipboard_connected },
            ),
            ..app
        }),
        app.clipboard_replied(ClipboardReply::Copied, now) == (AppView {
            clipboard_connected: true,
            success_message: Some(MessageView { text: "Copied to clipboard"@, at: now }),
            ..app
        }),
        app.clipboard_replied(ClipboardReply::NoBackend, now) == (AppView {
            clipboard_connected: false,
            error_message: Some(
                MessageView { text: "clipboard failed: no backend available"@, at: now },
            ),
            ..app
        }),
        app.clipboard_replied(ClipboardReply::Failed(reason), now) == (AppView {
            clipboard_connected: false,
            error_message: Some(
                MessageView { text: "clipboard failed: "@ + reason@, at: now },
            ),
            ..app
        }),
{
    reveal(AppView::emit);
    reveal(AppView::with_error);
    reveal(AppView::with_success);
    reveal(AppView::copy_to_clipboard);
    reveal(AppView::clipboard_replied);
}

/// What was picked goes to what waited for it, once; giving up drops it.
pub proof fn law_picks_go_to_what_waited(app: AppView, value: Seq<char>)
    ensures
        ({
            let after = app.picker_chose(value);
            let hidden = app.outbox.push(EffectView::HidePicker);
            after == AppView {
                pending_pick: None,
                outbox: match app.pending_pick {
                    Some(PendingPickView::Launch(launch)) => hidden.push(
                        EffectView::ResumeLaunch { launch, placement: value },
                    ),
                    Some(PendingPickView::GotoSession) => hidden.push(
                        EffectView::GotoSession(value),
                    ),
                    None => hidden,
                },
                ..app
            }
        }),
        app.picker_cancel() == (AppView {
            pending_pick: None,
            outbox: app.outbox.push(EffectView::HidePicker),
            ..app
        }),
{
    reveal(AppView::emit);
    reveal(AppView::picker_chose);
    reveal(AppView::picker_cancel);
}

/// The program with other colours everywhere.
pub open spec fn recolored(app: AppView, theme: Theme) -> AppView {
    AppView {
        theme,
        repos: RepoListView { theme, ..app.repos },
        graph: GraphView { theme, ..app.graph },
        outbox: app.outbox.push(EffectView::ApplyTheme(theme)),
        ..app
    }
}

proof fn lemma_recolored(app: AppView, theme: Theme)
    ensures
        app.apply_theme(theme) == recolored(app, theme),
{
    reveal(AppView::emit);
    reveal(AppView::with_theme);
    reveal(AppView::apply_theme);
}

/// A theme that is tried out is used everywhere, for this session only; one that cannot
/// be loaded changes nothing.
pub proof fn law_themes_are_tried_out(app: AppView, name: Seq<char>, theme: Theme, e: String)
    ensures
        app.preview_theme(name, Ok(theme)) == (AppView {
            config: ConfigView { runtime_theme_override: Some(name), ..app.config },
            ..recolored(app, theme)
        }),
        app.preview_theme(name, Err(e)) == app,
{
    lemma_recolored(app, theme);
    reveal(AppView::with_override);
    reveal(AppView::preview_theme);
}

/// A theme that is chosen is used everywhere and for good, and saved; one that cannot be
/// loaded is reported. Either way the choice is put away.
pub proof fn law_themes_are_chosen(
    app: AppView,
    name: Seq<char>,
    theme: Theme,
    e: String,
    now: u128,
)
    ensures
        app.commit_theme(name, Ok(theme), now) == (AppView {
            config: ConfigView {
                runtime_theme_override: None,
                theme_name: name,
                ..app.config
            },
            outbox: app.outbox.push(EffectView::ApplyTheme(theme)).push(
                EffectView::SaveTheme(name),
            ).push(EffectView::HideThemePicker),
            ..recolored(app, theme)
        }),
        app.commit_theme(name, Err(e), now) == (AppView {
            error_message: Some(MessageView { text: "theme commit failed: "@ + e@, at: now }),
            outbox: app.outbox.push(EffectView::HideThemePicker),
            ..app
        }),
{
    lemma_recolored(app, theme);
    reveal(AppView::emit);
    reveal(AppView::with_error);
    reveal(AppView::with_theme_name);
    reveal(AppView::commit_theme);
}

/// What became of a saved theme is told.
pub proof fn law_saved_themes_are_told(app: AppView, name: Seq<char>, e: Seq<char>, now: u128)
    ensures
        app.theme_saved(name, None, now) == (AppView {
            success_message: Some(MessageView { text: "theme: "@ + name, at: now }),
            ..app
        }),
        app.theme_saved(name, Some(e), now) == (AppView {
            error_message: Some(MessageView { text: "save failed: "@ + e, at: now }),
            ..app
        }),
{
    reveal(AppView::with_error);
    reveal(AppView::with_success);
    reveal(AppView::theme_saved);
}

/// Giving up a preview brings the colours from before back everywhere; the theme from
/// before counts for this session only if it is not the one for good.
pub proof fn law_previews_are_given_up(app: AppView, theme: Theme, name: Seq<char>)
    ensures
        app.cancel_theme_preview(Some(theme), Some(name)) == (AppView {
            config: ConfigView {
                runtime_theme_override: if name == app.config.theme_name {
                    None
                } else {
                    Some(name)
                },
                ..app.config
            },
            outbox: app.outbox.push(EffectView::ApplyTheme(theme)).push(
                EffectView::HideThemePicker,
            ),
            ..recolored(app, theme)
        }),
        app.cancel_theme_preview(None, None) == (AppView {
            config: ConfigView { runtime_theme_override: None, ..app.config },
            outbox: app.outbox.push(EffectView::HideThemePicker),
            ..app
        }),
{
    lemma_recolored(app, theme);
    reveal(AppView::emit);
    reveal(AppView::with_override);
    reveal(AppView::cancel_theme_preview);
}

/// Quitting ends the program, and a newer version and the directories with terminal
/// sessions are noted; nothing else comes of these.
pub proof fn law_notes_are_taken(app: AppView, version: Seq<char>, panes: Seq<Seq<char>>)
    ensures
        app.quit() == (AppView { should_quit: true, ..app }),
        app.update_available(version) == (AppView {
            update_version: Some(version),
            ..app
        }),
        app.live_sessions_loaded(panes) == (AppView {
            liveness_probe_in_flight: false,
            repos: RepoListView { live_panes: panes, ..app.repos },
            ..app
        }),
{
    reveal(AppView::quit);
    reveal(AppView::update_available);
    reveal(AppView::live_sessions_loaded);
}

/// Each event becomes the action of its own name: a change on disk refreshes that
/// repository, and coming back to the terminal refreshes the selected one.
pub proof fn law_events_become_actions(
    app: AppView,
    path: String,
    width: u16,
    height: u16,
    now: u128,
)
    ensures
        app.on_event(Event::Quit, now) == (AppView {
            outbox: app.outbox.push(EffectView::Send(ActionView::Quit)),
            ..app
        }),
        app.on_event(Event::Render, now) == (AppView {
            outbox: app.outbox.push(EffectView::Send(ActionView::Render)),
            ..app
        }),
        app.on_event(Event::Tick { has_pending_actions: false }, now) == (AppView {
            outbox: app.outbox.push(EffectView::Send(ActionView::Tick)),
            ..app
        }),
        app.on_event(Event::Tick { has_pending_actions: true }, now) == (AppView {
            outbox: app.outbox.push(EffectView::Send(ActionView::Tick)).push(
                EffectView::Send(ActionView::Render),
            ),
            ..app
        }),
        app.on_event(Event::Resize { width, height }, now) == (AppView {
            outbox: app.outbox.push(EffectView::Send(ActionView::Resize { width, height })),
            ..app
        }),
        app.on_event(Event::RepoChanged(path), now) == (AppView {
            outbox: app.outbox.push(EffectView::Send(ActionView::RefreshRepo(path@))),
            ..app
        }),
        app.on_event(Event::PollLocal, now) == (AppView {
            outbox: app.outbox.push(EffectView::Send(ActionView::PollLocal)),
            ..app
        }),
        app.on_event(Event::PollFetch, now) == (AppView {
            outbox: app.outbox.push(EffectView::Send(ActionView::PollFetch)),
            ..app
        }),
        app.on_event(Event::Other, now) == app,
        app.on_event(Event::FocusGained, now) == (AppView {
            outbox: match crate::laws::row_selected(app.repos) {
                Some(crate::repo_list::DisplayRow::Repo(i)) => app.outbox.push(
                    EffectView::Send(ActionView::RefreshRepo(app.repos.repos[i as int].path)),
                ),
                Some(crate::repo_list::DisplayRow::Worktree(i, _)) => app.outbox.push(
                    EffectView::Send(ActionView::RefreshRepo(app.repos.repos[i as int].path)),
                ),
                Some(crate::repo_list::DisplayRow::Stash(i, _)) => app.outbox.push(
                    EffectView::Send(ActionView::RefreshRepo(app.repos.repos[i as int].path)),
                ),
                None => app.outbox,
            },
            ..app
        }),
{
    reveal(AppView::emit);
    reveal(AppView::tick);
    reveal(AppView::focus_gained);
}

/// What is to be done first: all repositories are queried and watched, newer versions are
/// looked for if that is wanted, and without git the user is told.
pub open spec fn first_tasks(app: AppView, git_available: bool) -> Seq<EffectView> {
    let watched = seq![
        EffectView::Send(ActionView::PollLocal),
        EffectView::Watch {
            repo_paths: Seq::new(app.repos.repos.len(), |k: int| app.repos.repos[k].path),
            root_dirs: app.config.root_dirs,
            debounce_ms: app.config.debounce_ms,
            exclude_dirs: app.config.watch_exclude_dirs,
            worktree_dirs: app.config.watch_worktree_dirs,
        },
    ];
    let checked = if app.config.check_for_updates {
        watched.push(EffectView::CheckForUpdates)
    } else {
        watched
    };
    if git_available {
        checked
    } else {
        checked.push(
            EffectView::Send(
                ActionView::Error(
                    "git not found on PATH: viewing works, but fetch/pull and submodule actions need git"@,
                ),
            ),
        )
    }
}

/// At the start the first tasks come before all others, and from then on changes on disk
/// are reported and the list is connected.
pub proof fn law_start(app: AppView, git_available: bool)
    requires
        app.outbox.len() == 0,
    ensures
        ({
            let after = app.started(git_available);
            let first = first_tasks(app, git_available);
            &&& after.outbox.len() >= first.len()
            &&& after.outbox.take(first.len() as int) == first
            &&& after.repos == RepoListView { connected: true, ..app.repos }
            &&& after.watching
            &&& after.config == app.config
        }),
{
    let first = first_tasks(app, git_available);
    let a = app.connected();
    let b = a.emit(EffectView::Send(ActionView::PollLocal)).with_watching().rebuild_watcher();
    let c = b.check_for_updates().warn_without_git(git_available);
    assert(c.outbox == first && c.repos == (RepoListView { connected: true, ..app.repos })
        && c.watching && c.config == app.config) by {
        reveal(AppView::emit);
        reveal(AppView::connected);
        reveal(AppView::with_watching);
        reveal(AppView::rebuild_watcher);
        reveal(AppView::check_for_updates);
        reveal(AppView::warn_without_git);
        assert(crate::app::repos::paths_of(app.repos.repos) =~= Seq::new(
            app.repos.repos.len(),
            |k: int| app.repos.repos[k].path,
        ));
        assert(c.outbox =~= first);
    }
    crate::laws::listing::lemma_sync_selection(c);
    assert(app.started(git_available) == c.sync_selection() && c.sync_selection().watching
        == c.watching) by {
        reveal(AppView::started);
        reveal(AppView::emit);
        reveal(AppView::refresh_active_worktree);
        reveal(AppView::show_files);
        reveal(AppView::load_graph);
        reveal(AppView::sync_selection);
    }
    assert(app.started(git_available).outbox.take(first.len() as int) =~= first);
}

/// The program starts with the repositories that were discovered, in their order and the
/// first of them selected, with nothing known of any; the graph is empty and has the
/// options of the configuration, and nothing is to be done yet.
pub proof fn law_program_starts_empty(config: ConfigView, paths: Seq<Seq<char>>, k: int)
    ensures
        ({
            let app = AppView::initial(config, paths);
            &&& app.config == config && app.theme == config.theme
            &&& !app.should_quit && !app.watching && !app.discovery_pending
            &&& app.outbox.len() == 0
            &&& app.focus == FocusPanel::Repos
            &&& app.sort_order == SortOrder::Alphabetical
            &&& app.error_message is None && app.success_message is None
            &&& app.active_worktree is None && app.pending_pick is None
            &&& app.last_discovery is None && app.update_version is None
            &&& app.tracking.pending == Set::<Seq<char>>::empty()
            &&& app.tracking.dirty == Set::<Seq<char>>::empty()
            &&& app.tracking.scheduled == Set::<Seq<char>>::empty()
            &&& app.tracking.last == Map::<Seq<char>, u128>::empty()
            &&& app.repos.repos.len() == paths.len()
            &&& 0 <= k < paths.len() ==> app.repos.repos[k].path == paths[k]
                && app.repos.repos[k].status is None && !app.repos.repos[k].git_op
            &&& paths.len() > 0 ==> app.repos.state.selected == Some(0usize)
            &&& paths.len() == 0 ==> app.repos.state.selected is None
            &&& app.repos.roots == config.root_dirs
            &&& app.graph.all_rows.len() == 0 && app.graph.repo_path is None
            &&& !app.graph.loading && !app.graph.load_in_flight && app.graph.detail is None
            &&& app.graph.options.branch_filter == config.branches
            &&& app.graph.options.label_max_len == config.label_max_len
            &&& app.graph.options.show_stats == config.show_stats
            &&& !app.graph.options.first_parent
            &&& app.graph.options.filters.branches is None
            &&& app.graph.options.filters.authors is None
        }),
{
}

/// A commit's id is written in forty hexadecimal digits, with small letters, and the last
/// digit of a number is its remainder by sixteen.
pub proof fn law_ids_are_hexadecimal(id: Oid, n: nat, width: nat, d: nat)
    requires
        d < 16,
    ensures
        id.text().len() == 40,
        hex(16 * n + d, width + 1) == hex(n, width).push(hex_digit(d)),
        hex(n, 0) == Seq::<char>::empty(),
        d < 10 ==> hex_digit(d) as int == '0' as int + d,
        d >= 10 ==> hex_digit(d) as int == 'a' as int + (d - 10),
        id.text().take(32) == hex(id.hi as nat, 32),
        id.text().skip(32) == hex(id.lo as nat, 8),
{
    lemma_hex_len(id.hi as nat, 32);
    lemma_hex_len(id.lo as nat, 8);
    assert((16 * n + d) / 16 == n && (16 * n + d) % 16 == d);
    assert(id.text().take(32) =~= hex(id.hi as nat, 32));
    assert(id.text().skip(32) =~= hex(id.lo as nat, 8));
}

proof fn lemma_hex_len(n: nat, width: nat)
    ensures
        hex(n, width).len() == width,
    decreases width,
{
    if width > 0 {
        lemma_hex_len(n / 16, (width - 1) as nat);
    }
}

/// A report names the command with its words in their order and a space between them.
pub proof fn law_commands_are_named(words: Seq<Seq<char>>, word: Seq<char>)
    requires
        words.len() > 0,
    ensures
        spaced(words.push(word)) == spaced(words) + " "@ + word,
        spaced(seq![word]) == word,
{
    assert(words.push(word).drop_last() =~= words);
}

/// A command that fails is reported with the first line that it wrote to its standard
/// error and that is not blank, without the white space around it; where there is none
/// the error is unknown.
pub proof fn law_failures_are_told_in_a_line(
    id: Seq<char>,
    args: Seq<Seq<char>>,
    written: String,
    k: int,
)
    requires
        0 <= k <= lines_of(written@).len(),
        k < lines_of(written@).len() ==> trimmed(lines_of(written@)[k]).len() > 0,
        forall|j: int| 0 <= j < k ==> trimmed(#[trigger] lines_of(written@)[j]).len() == 0,
    ensures
        k < lines_of(written@).len() ==> git_report_of(id, args, GitOutcome::Failed(written))
            == seq![
            ActionView::Error(
                "git "@ + spaced(args) + " failed: "@ + trimmed(lines_of(written@)[k]),
            ),
            ActionView::RefreshRepo(id),
        ],
        k == lines_of(written@).len() ==> git_report_of(id, args, GitOutcome::Failed(written))
            == seq![
            ActionView::Error("git "@ + spaced(args) + " failed: "@ + trimmed("unknown error"@)),
            ActionView::RefreshRepo(id),
        ],
{
    lemma_first_line(lines_of(written@), k);
}

proof fn lemma_first_line(all: Seq<Seq<char>>, k: int)
    requires
        0 <= k <= all.len(),
        k < all.len() ==> trimmed(all[k]).len() > 0,
        forall|j: int| 0 <= j < k ==> trimmed(#[trigger] all[j]).len() == 0,
    ensures
        k < all.len() ==> first_line(all) == trimmed(all[k]),
        k == all.len() ==> first_line(all) == trimmed("unknown error"@),
    decreases k,
{
    if k > 0 {
        let rest = all.drop_first();
        assert(trimmed(all[0]).len() == 0);
        assert forall|j: int| 0 <= j < k - 1 implies trimmed(#[trigger] rest[j]).len() == 0 by {
            assert(rest[j] == all[j + 1]);
        }
        lemma_first_line(rest, k - 1);
    }
}

/// A terminal is told to put a text on the clipboard by the bytes of the text in base64,
/// between the sequences that open and close such a request.
pub proof fn law_clipboard_requests_hold_the_text(text: Seq<char>)
    ensures
        clipboard_sequence(text) == "\x1b]52;c;"@ + encoded(encode_utf8(text)) + "\x1b\\"@,
        decoded(encoded(encode_utf8(text))) == encode_utf8(text),
{
    crate::base64::law_decoding_gives_back(encode_utf8(text));
}

/// The row that stands for a collapsed branch names the branch and tells how many commits
/// it hides, and has no id, author, labels or line counts of its own.
pub proof fn law_placeholders_tell_what_they_hide(row: GraphRowView, segment: BranchSegmentView)
    ensures
        ({
            let shown = placeholder(row, segment);
            &&& shown.message == "\u{25b6} "@ + segment.display_name + " ("@ + decimal(
                segment.row_indices.len(),
            ) + " commits)"@
            &&& shown.short_id.len() == 0 && shown.author.len() == 0 && shown.labels.len() == 0
            &&& shown.diff_stat is None
            &&& shown.collapsed == Some((segment.id, segment.row_indices.len() as usize))
            &&& shown.oid == row.oid
        }),
{
}

} // verus!
