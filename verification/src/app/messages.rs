//! Messages to the user, the clipboard, themes and pickers.
use vstd::prelude::*;
use vstd::string::*;
use crate::action::ClipboardReply;
use crate::app::effect::{Effect, EffectView};
use crate::app::git_ops::push_word;
use crate::app::{App, AppView, PendingPick, PendingPickView};
use crate::config::ConfigView;
use crate::git_graph::GraphView;
use crate::repo_list::RepoListView;
use crate::screen::Theme;
use crate::text::{chars_of, concat2, same_text};

verus! {

/// A text on one line: each line feed is a space.
pub open spec fn one_line(text: Seq<char>) -> Seq<char> {
    Seq::new(
        text.len(),
        |i: int|
            if text[i] == '\n' {
                ' '
            } else {
                text[i]
            },
    )
}

/// An error as it is shown: on one line, and cut to 120 characters.
pub open spec fn shown_error(text: Seq<char>) -> Seq<char> {
    let line = one_line(text);
    if line.len() > 120 {
        line.take(117) + "..."@
    } else {
        line
    }
}

/// An error as it is shown.
pub fn clean_error(text: &str) -> (r: String)
    ensures
        r@ == shown_error(text@),
{
    let v = chars_of(text);
    let ghost want = one_line(text@);
    let long = v.len() > 120;
    let shown: usize = if long {
        117
    } else {
        v.len()
    };
    let mut line = String::new();
    let mut i: usize = 0;
    while i < shown
        invariant
            i <= shown <= v@.len(),
            v@ == text@,
            want == one_line(text@),
            line@ =~= want.take(i as int),
        decreases shown - i,
    {
        if v[i] == '\n' {
            line.push(' ');
        } else {
            line.push(v[i]);
        }
        i = i + 1;
    }
    if long {
        concat2(line.as_str(), "...")
    } else {
        assert(line@ =~= want);
        line
    }
}

/// The command that opens a web page.
pub fn url_command(url: &str, on_macos: bool) -> (r: Vec<String>)
    ensures
        r.deep_view() == seq![
            if on_macos {
                "open"@
            } else {
                "xdg-open"@
            },
            url@,
        ],
{
    let mut words: Vec<String> = Vec::new();
    if on_macos {
        push_word(&mut words, "open");
    } else {
        push_word(&mut words, "xdg-open");
    }
    push_word(&mut words, url);
    assert(words.deep_view() =~= seq![
        if on_macos {
            "open"@
        } else {
            "xdg-open"@
        },
        url@,
    ]);
    words
}

impl AppView {
    /// An error that happened.
    #[verifier::opaque]
    pub open spec fn error(self, text: Seq<char>, now: u128) -> AppView {
        self.with_error(shown_error(text), now)
    }

    /// No error is shown.
    #[verifier::opaque]
    pub open spec fn without_error(self) -> AppView {
        AppView { error_message: None, ..self }
    }

    /// No success is shown.
    #[verifier::opaque]
    pub open spec fn without_success(self) -> AppView {
        AppView { success_message: None, ..self }
    }

    /// Dropping the messages that have stood long enough.
    #[verifier::opaque]
    pub open spec fn clear_expired_messages(self, error: bool, success: bool) -> AppView {
        let quiet = if error {
            self.without_error()
        } else {
            self
        };
        if success {
            quiet.without_success()
        } else {
            quiet
        }
    }

    /// A text goes to the clipboard, through the connection that there is.
    #[verifier::opaque]
    pub open spec fn copy_to_clipboard(self, text: Seq<char>) -> AppView {
        self.emit(EffectView::CopyToClipboard { text, connect: !self.clipboard_connected })
    }

    /// What became of it. A connection that failed is given up, so that the next
    /// copy makes a new one.
    #[verifier::opaque]
    pub open spec fn clipboard_replied(self, reply: ClipboardReply, now: u128) -> AppView {
        match reply {
            ClipboardReply::NoBackend => AppView { clipboard_connected: false, ..self }.with_error(
                "clipboard failed: no backend available"@,
                now,
            ),
            ClipboardReply::Copied => AppView { clipboard_connected: true, ..self }.with_success(
                "Copied to clipboard"@,
                now,
            ),
            ClipboardReply::Failed(reason) => AppView {
                clipboard_connected: false,
                ..self
            }.with_error("clipboard failed: "@ + reason@, now),
        }
    }

    /// A value was picked: what waited for it goes on.
    #[verifier::opaque]
    pub open spec fn picker_chose(self, value: Seq<char>) -> AppView {
        let hidden = AppView { pending_pick: None, ..self }.emit(EffectView::HidePicker);
        match self.pending_pick {
            Some(PendingPickView::Launch(launch)) => hidden.emit(
                EffectView::ResumeLaunch { launch, placement: value },
            ),
            Some(PendingPickView::GotoSession) => hidden.emit(EffectView::GotoSession(value)),
            None => hidden,
        }
    }

    /// Nothing was picked.
    #[verifier::opaque]
    pub open spec fn picker_cancel(self) -> AppView {
        AppView { pending_pick: None, ..self }.emit(EffectView::HidePicker)
    }

    /// Other colours in what is kept here.
    #[verifier::opaque]
    pub open spec fn with_theme(self, theme: Theme) -> AppView {
        AppView {
            theme,
            repos: RepoListView { theme, ..self.repos },
            graph: GraphView { theme, ..self.graph },
            ..self
        }
    }

    /// Other colours, everywhere.
    #[verifier::opaque]
    pub open spec fn apply_theme(self, theme: Theme) -> AppView {
        self.with_theme(theme).emit(EffectView::ApplyTheme(theme))
    }

    /// A theme for this session only, or none.
    #[verifier::opaque]
    pub open spec fn with_override(self, name: Option<Seq<char>>) -> AppView {
        AppView { config: ConfigView { runtime_theme_override: name, ..self.config }, ..self }
    }

    /// A theme for good.
    #[verifier::opaque]
    pub open spec fn with_theme_name(self, name: Seq<char>) -> AppView {
        AppView {
            config: ConfigView {
                runtime_theme_override: None,
                theme_name: name,
                ..self.config
            },
            ..self
        }
    }

    /// A theme is tried out. It counts for this session only, so that saving
    /// something else does not keep it.
    #[verifier::opaque]
    pub open spec fn preview_theme(
        self,
        name: Seq<char>,
        loaded: Result<Theme, String>,
    ) -> AppView {
        match loaded {
            Ok(theme) => self.apply_theme(theme).with_override(Some(name)),
            Err(_) => self,
        }
    }

    /// A theme is chosen for good.
    #[verifier::opaque]
    pub open spec fn commit_theme(
        self,
        name: Seq<char>,
        loaded: Result<Theme, String>,
        now: u128,
    ) -> AppView {
        (match loaded {
            Ok(theme) => self.apply_theme(theme).with_theme_name(name).emit(
                EffectView::SaveTheme(name),
            ),
            Err(e) => self.with_error("theme commit failed: "@ + e@, now),
        }).emit(EffectView::HideThemePicker)
    }

    /// What became of the chosen theme.
    #[verifier::opaque]
    pub open spec fn theme_saved(
        self,
        name: Seq<char>,
        failure: Option<Seq<char>>,
        now: u128,
    ) -> AppView {
        match failure {
            Some(e) => self.with_error("save failed: "@ + e, now),
            None => self.with_success("theme: "@ + name, now),
        }
    }

    /// The theme from before a preview is used again, and counts for this session
    /// only if it did before.
    #[verifier::opaque]
    pub open spec fn cancel_theme_preview(
        self,
        snapshot: Option<Theme>,
        original_name: Option<Seq<char>>,
    ) -> AppView {
        let restored = match snapshot {
            Some(theme) => self.apply_theme(theme),
            None => self,
        };
        restored.with_override(
            match original_name {
                Some(name) if name != self.config.theme_name => Some(name),
                _ => None,
            },
        ).emit(EffectView::HideThemePicker)
    }
}

impl App {
    /// Shows an error that happened.
    pub fn error(&mut self, text: &str, now: u128)
        requires
            old(self)@.wf(),
        ensures
            final(self)@ == old(self)@.error(text@, now),
            final(self)@.wf(),
    {
        proof {
            reveal(AppView::error);
        }
        let clean = clean_error(text);
        self.show_error(clean, now);
    }

    /// Shows no error any more.
    fn drop_error(&mut self)
        requires
            old(self)@.wf(),
        ensures
            final(self)@ == old(self)@.without_error(),
            final(self)@.wf(),
    {
        proof {
            reveal(AppView::without_error);
        }
        self.error_message = None;
    }

    /// Shows no success any more.
    fn drop_success(&mut self)
        requires
            old(self)@.wf(),
        ensures
            final(self)@ == old(self)@.without_success(),
            final(self)@.wf(),
    {
        proof {
            reveal(AppView::without_success);
        }
        self.success_message = None;
    }

    /// Drops the messages that have stood long enough, and says whether there were
    /// any.
    pub fn clear_expired_messages(&mut self, error: bool, success: bool) -> (r: bool)
        requires
            old(self)@.wf(),
        ensures
            final(self)@ == old(self)@.clear_expired_messages(error, success),
            r == (error && old(self)@.error_message is Some || success && old(
                self,
            )@.success_message is Some),
            final(self)@.wf(),
    {
        proof {
            reveal(AppView::clear_expired_messages);
        }
        let had_error = error && self.error_message.is_some();
        let had_success = success && self.success_message.is_some();
        if error {
            self.drop_error();
        }
        if success {
            self.drop_success();
        }
        had_error || had_success
    }

    /// Puts a text on the clipboard.
    pub fn copy_to_clipboard(&mut self, text: String)
        requires
            old(self)@.wf(),
        ensures
            final(self)@ == old(self)@.copy_to_clipboard(text@),
            final(self)@.wf(),
    {
        proof {
            reveal(AppView::copy_to_clipboard);
        }
        let connect = !self.clipboard_connected;
        self.emit(Effect::CopyToClipboard { text, connect });
    }

    /// Notes whether there is a connection to the clipboard.
    fn set_connected(&mut self, connected: bool)
        requires
            old(self)@.wf(),
        ensures
            final(self)@ == (AppView { clipboard_connected: connected, ..old(self)@ }),
            final(self)@.wf(),
    {
        self.clipboard_connected = connected;
    }

    /// Tells what became of it.
    pub fn clipboard_replied(&mut self, reply: ClipboardReply, now: u128)
        requires
            old(self)@.wf(),
        ensures
            final(self)@ == old(self)@.clipboard_replied(reply, now),
            final(self)@.wf(),
    {
        proof {
            reveal(AppView::clipboard_replied);
        }
        match reply {
            ClipboardReply::NoBackend => {
                self.set_connected(false);
                self.show_error(String::from_str("clipboard failed: no backend available"), now);
            },
            ClipboardReply::Copied => {
                self.set_connected(true);
                self.show_success(String::from_str("Copied to clipboard"), now);
            },
            ClipboardReply::Failed(reason) => {
                self.set_connected(false);
                self.show_error(concat2("clipboard failed: ", reason.as_str()), now);
            },
        }
    }

    /// Takes what waits for a pick.
    fn take_pick(&mut self) -> (r: Option<PendingPick>)
        requires
            old(self)@.wf(),
        ensures
            final(self)@ == (AppView { pending_pick: None, ..old(self)@ }),
            r.deep_view() == old(self)@.pending_pick,
            final(self)@.wf(),
    {
        let mut pick: Option<PendingPick> = None;
        std::mem::swap(&mut pick, &mut self.pending_pick);
        pick
    }

    /// Goes on with what waited for a pick.
    pub fn picker_chose(&mut self, value: String)
        requires
            old(self)@.wf(),
        ensures
            final(self)@ == old(self)@.picker_chose(value@),
            final(self)@.wf(),
    {
        proof {
            reveal(AppView::picker_chose);
        }
        let pick = self.take_pick();
        self.emit(Effect::HidePicker);
        match pick {
            Some(PendingPick::Launch(launch)) => {
                self.emit(Effect::ResumeLaunch { launch, placement: value });
            },
            Some(PendingPick::GotoSession) => {
                self.emit(Effect::GotoSession(value));
            },
            None => {},
        }
    }

    /// Gives up what waited for a pick.
    pub fn picker_cancel(&mut self)
        requires
            old(self)@.wf(),
        ensures
            final(self)@ == old(self)@.picker_cancel(),
            final(self)@.wf(),
    {
        proof {
            reveal(AppView::picker_cancel);
        }
        let _ = self.take_pick();
        self.emit(Effect::HidePicker);
    }

    /// Uses other colours in what is kept here.
    fn use_theme(&mut self, theme: Theme)
        requires
            old(self)@.wf(),
        ensures
            final(self)@ == old(self)@.with_theme(theme),
            final(self)@.config == old(self)@.config,
            final(self)@.wf(),
    {
        proof {
            reveal(AppView::with_theme);
        }
        self.theme = theme;
        self.repo_list.set_theme(theme);
        self.git_graph.set_theme(theme);
    }

    /// Uses other colours everywhere.
    pub fn apply_theme(&mut self, theme: Theme)
        requires
            old(self)@.wf(),
        ensures
            final(self)@ == old(self)@.apply_theme(theme),
            final(self)@.config == old(self)@.config,
            final(self)@.wf(),
    {
        proof {
            reveal(AppView::apply_theme);
        }
        self.use_theme(theme);
        self.emit(Effect::ApplyTheme(theme));
    }

    /// Sets the theme for this session only.
    fn set_override(&mut self, name: Option<String>)
        requires
            old(self)@.wf(),
        ensures
            final(self)@ == old(self)@.with_override(name.deep_view()),
            final(self)@.wf(),
    {
        proof {
            reveal(AppView::with_override);
        }
        self.config.runtime_theme_override = name;
    }

    /// Sets the theme for good.
    fn set_theme_name(&mut self, name: String)
        requires
            old(self)@.wf(),
        ensures
            final(self)@ == old(self)@.with_theme_name(name@),
            final(self)@.wf(),
    {
        proof {
            reveal(AppView::with_theme_name);
        }
        self.config.runtime_theme_override = None;
        self.config.theme_name = name;
    }

    /// Tries a theme out.
    pub fn preview_theme(&mut self, name: String, loaded: Result<Theme, String>)
        requires
            old(self)@.wf(),
        ensures
            final(self)@ == old(self)@.preview_theme(name@, loaded),
            final(self)@.wf(),
    {
        proof {
            reveal(AppView::preview_theme);
        }
        if let Ok(theme) = loaded {
            self.apply_theme(theme);
            self.set_override(Some(name));
        }
    }

    /// Chooses a theme for good.
    pub fn commit_theme(&mut self, name: String, loaded: Result<Theme, String>, now: u128)
        requires
            old(self)@.wf(),
        ensures
            final(self)@ == old(self)@.commit_theme(name@, loaded, now),
            final(self)@.wf(),
    {
        proof {
            reveal(AppView::commit_theme);
        }
        match loaded {
            Ok(theme) => {
                self.apply_theme(theme);
                self.set_theme_name(name.clone());
                self.emit(Effect::SaveTheme(name));
            },
            Err(e) => {
                self.show_error(concat2("theme commit failed: ", e.as_str()), now);
            },
        }
        self.emit(Effect::HideThemePicker);
    }

    /// Tells what became of the chosen theme.
    pub fn theme_saved(&mut self, name: &str, failure: Option<String>, now: u128)
        requires
            old(self)@.wf(),
        ensures
            final(self)@ == old(self)@.theme_saved(name@, failure.deep_view(), now),
            final(self)@.wf(),
    {
        proof {
            reveal(AppView::theme_saved);
        }
        match failure {
            Some(e) => {
                self.show_error(concat2("save failed: ", e.as_str()), now);
            },
            None => {
                self.show_success(concat2("theme: ", name), now);
            },
        }
    }

    /// Uses the theme from before a preview again.
    pub fn cancel_theme_preview(&mut self, snapshot: Option<Theme>, original_name: Option<String>)
        requires
            old(self)@.wf(),
        ensures
            final(self)@ == old(self)@.cancel_theme_preview(snapshot, original_name.deep_view()),
            final(self)@.wf(),
    {
        proof {
            reveal(AppView::cancel_theme_preview);
        }
        let name = match original_name {
            Some(name) => if same_text(name.as_str(), self.config.theme_name.as_str()) {
                None
            } else {
                Some(name)
            },
            None => None,
        };
        if let Some(theme) = snapshot {
            self.apply_theme(theme);
        }
        self.set_override(name);
        self.emit(Effect::HideThemePicker);
    }
}

// ---------------------------------------------------------------------------
// Laws
// ---------------------------------------------------------------------------

/// An error is shown on one line of at most 120 characters, and one that fits is
/// shown whole.
pub proof fn law_shown_errors_fit(text: Seq<char>)
    ensures
        shown_error(text).len() <= 120,
        text.len() <= 120 ==> shown_error(text) == one_line(text),
        forall|i: int| 0 <= i < shown_error(text).len() ==> shown_error(text)[i] != '\n',
{
    reveal_strlit("...");
}

/// Giving up a preview undoes it: the colours are those of before everywhere, and
/// the theme for this session and the one for good are what they were, where the
/// theme in use was one of them.
pub proof fn law_cancelling_undoes_previews(
    app: AppView,
    name: Seq<char>,
    loaded: Result<Theme, String>,
)
    requires
        app.repos.theme == app.theme,
        app.graph.theme == app.theme,
        app.config.runtime_theme_override != Some(app.config.theme_name),
    ensures
        ({
            let in_use = match app.config.runtime_theme_override {
                Some(n) => n,
                None => app.config.theme_name,
            };
            let back = app.preview_theme(name, loaded).cancel_theme_preview(
                Some(app.theme),
                Some(in_use),
            );
            &&& back.config == app.config
            &&& back.theme == app.theme
            &&& back.repos == app.repos
            &&& back.graph == app.graph
        }),
{
    reveal(AppView::with_override);
    reveal(AppView::emit);
    reveal(AppView::with_theme);
    reveal(AppView::apply_theme);
    reveal(AppView::preview_theme);
    reveal(AppView::cancel_theme_preview);
}

/// A clipboard that failed is connected to anew at the next copy, and one that
/// works is kept.
pub proof fn law_clipboard_reconnects_after_failure(
    app: AppView,
    reply: ClipboardReply,
    now: u128,
    text: Seq<char>,
)
    ensures
        app.clipboard_replied(reply, now).copy_to_clipboard(text).outbox == app.outbox.push(
            EffectView::CopyToClipboard { text, connect: !(reply is Copied) },
        ),
{
    reveal(AppView::with_error);
    reveal(AppView::with_success);
    reveal(AppView::emit);
    reveal(AppView::clipboard_replied);
    reveal(AppView::copy_to_clipboard);
}

} // verus!
