//! The git setup dialog: what each of its actions does to the dialog, what it
//! asks the caller to fetch or show, and how it reads and writes the saved
//! git configuration.
use vstd::prelude::*;
use crate::agent::opt_text;
use crate::decimal::{decimal_text, parse_u64, parsed_u64, u64_text};
use crate::keys::{pop_char, push_char};
use crate::pm_setup::drop_last_char;
use crate::setup_keys::{GitProvider, GitSetupState, GitSetupStep};
use crate::text::{chars_of, str_eq};

verus! {

/// The CI systems a Codeberg repository can report through.
#[derive(Debug, Clone, Copy, PartialEq, Eq, Structural)]
pub enum CodebergCiProvider {
    ForgejoActions,
    Woodpecker,
}

/// The CI system a dialog starts with.
pub open spec fn default_ci() -> CodebergCiProvider {
    CodebergCiProvider::ForgejoActions
}

/// The GitLab address used when none is configured.
pub open spec fn gitlab_default_url() -> Seq<char> {
    "https://gitlab.com"@
}

/// The Codeberg address used when none is configured.
pub open spec fn codeberg_default_url() -> Seq<char> {
    "https://codeberg.org"@
}

/// What the repository's git remote tells about it.
pub struct RemoteInfo {
    pub owner: String,
    pub repo: String,
    pub provider: GitProvider,
    pub base_url: Option<String>,
}

/// The view of a [`RemoteInfo`].
pub struct RemoteInfoView {
    pub owner: Seq<char>,
    pub repo: Seq<char>,
    pub provider: GitProvider,
    pub base_url: Option<Seq<char>>,
}

impl View for RemoteInfo {
    type V = RemoteInfoView;

    open spec fn view(&self) -> RemoteInfoView {
        RemoteInfoView {
            owner: self.owner@,
            repo: self.repo@,
            provider: self.provider,
            base_url: opt_text(self.base_url),
        }
    }
}

/// The part of the project's saved configuration that the dialog reads and
/// writes.
pub struct GitSavedConfig {
    pub gitlab_project_id: Option<u64>,
    pub gitlab_base_url: String,
    pub github_owner: Option<String>,
    pub github_repo: Option<String>,
    pub codeberg_owner: Option<String>,
    pub codeberg_repo: Option<String>,
    pub codeberg_base_url: String,
    pub codeberg_ci_provider: CodebergCiProvider,
    pub woodpecker_repo_id: Option<u64>,
}

/// The view of a [`GitSavedConfig`].
pub struct GitSavedConfigView {
    pub gitlab_project_id: Option<u64>,
    pub gitlab_base_url: Seq<char>,
    pub github_owner: Option<Seq<char>>,
    pub github_repo: Option<Seq<char>>,
    pub codeberg_owner: Option<Seq<char>>,
    pub codeberg_repo: Option<Seq<char>>,
    pub codeberg_base_url: Seq<char>,
    pub codeberg_ci_provider: CodebergCiProvider,
    pub woodpecker_repo_id: Option<u64>,
}

impl View for GitSavedConfig {
    type V = GitSavedConfigView;

    open spec fn view(&self) -> GitSavedConfigView {
        GitSavedConfigView {
            gitlab_project_id: self.gitlab_project_id,
            gitlab_base_url: self.gitlab_base_url@,
            github_owner: opt_text(self.github_owner),
            github_repo: opt_text(self.github_repo),
            codeberg_owner: opt_text(self.codeberg_owner),
            codeberg_repo: opt_text(self.codeberg_repo),
            codeberg_base_url: self.codeberg_base_url@,
            codeberg_ci_provider: self.codeberg_ci_provider,
            woodpecker_repo_id: self.woodpecker_repo_id,
        }
    }
}

/// The git setup dialog.
pub struct GitSetupDialog {
    pub active: bool,
    /// Whether the dialog was opened from the settings screen.
    pub from_settings: bool,
    pub step: GitSetupStep,
    pub error: Option<String>,
    pub field_index: usize,
    pub advanced_expanded: bool,
    pub editing_text: bool,
    pub dropdown_open: bool,
    pub dropdown_index: usize,
    pub text_buffer: String,
    pub loading: bool,
    pub project_id: String,
    pub owner: String,
    pub repo: String,
    pub base_url: String,
    pub detected_from_remote: bool,
    pub project_name: Option<String>,
    pub ci_provider: CodebergCiProvider,
    pub woodpecker_repo_id: String,
}

/// The view of a [`GitSetupDialog`].
#[verifier::ext_equal]
pub struct GitSetupDialogView {
    pub active: bool,
    pub from_settings: bool,
    pub step: GitSetupStep,
    pub error: Option<Seq<char>>,
    pub field_index: nat,
    pub advanced_expanded: bool,
    pub editing_text: bool,
    pub dropdown_open: bool,
    pub dropdown_index: nat,
    pub text_buffer: Seq<char>,
    pub loading: bool,
    pub project_id: Seq<char>,
    pub owner: Seq<char>,
    pub repo: Seq<char>,
    pub base_url: Seq<char>,
    pub detected_from_remote: bool,
    pub project_name: Option<Seq<char>>,
    pub ci_provider: CodebergCiProvider,
    pub woodpecker_repo_id: Seq<char>,
}

impl View for GitSetupDialog {
    type V = GitSetupDialogView;

    open spec fn view(&self) -> GitSetupDialogView {
        GitSetupDialogView {
            active: self.active,
            from_settings: self.from_settings,
            step: self.step,
            error: opt_text(self.error),
            field_index: self.field_index as nat,
            advanced_expanded: self.advanced_expanded,
            editing_text: self.editing_text,
            dropdown_open: self.dropdown_open,
            dropdown_index: self.dropdown_index as nat,
            text_buffer: self.text_buffer@,
            loading: self.loading,
            project_id: self.project_id@,
            owner: self.owner@,
            repo: self.repo@,
            base_url: self.base_url@,
            detected_from_remote: self.detected_from_remote,
            project_name: opt_text(self.project_name),
            ci_provider: self.ci_provider,
            woodpecker_repo_id: self.woodpecker_repo_id@,
        }
    }
}

/// What the dialog asks of its caller after an action.
pub enum GitSetupEffect {
    /// Nothing.
    Nothing,
    /// Look up the GitLab project `owner/repo` at `base_url`.
    FetchProjectId { owner: String, repo: String, base_url: String },
    /// Show the settings screen again.
    ReturnToSettings,
}

/// The view of a [`GitSetupEffect`].
pub enum GitSetupEffectView {
    Nothing,
    FetchProjectId { owner: Seq<char>, repo: Seq<char>, base_url: Seq<char> },
    ReturnToSettings,
}

impl View for GitSetupEffect {
    type V = GitSetupEffectView;

    open spec fn view(&self) -> GitSetupEffectView {
        match self {
            GitSetupEffect::Nothing => GitSetupEffectView::Nothing,
            GitSetupEffect::FetchProjectId { owner, repo, base_url } => GitSetupEffectView::FetchProjectId {
                owner: owner@,
                repo: repo@,
                base_url: base_url@,
            },
            GitSetupEffect::ReturnToSettings => GitSetupEffectView::ReturnToSettings,
        }
    }
}

/// The GitLab address a lookup goes to: the typed one, or GitLab's own.
pub open spec fn lookup_url(d: GitSetupDialogView) -> Seq<char> {
    if d.base_url.len() == 0 { gitlab_default_url() } else { d.base_url }
}

/// The lookup of the dialog's GitLab project.
pub open spec fn project_lookup(d: GitSetupDialogView) -> GitSetupEffectView {
    GitSetupEffectView::FetchProjectId { owner: d.owner, repo: d.repo, base_url: lookup_url(d) }
}

/// The dialog as it opens from the project setup wizard for `provider`:
/// cleared and filled from the git remote as [`git_opened`] does, without
/// the saved configuration, and not tied to the settings screen.
pub open spec fn git_opened_for_project(
    d: GitSetupDialogView,
    provider: GitProvider,
    remote: Option<RemoteInfoView>,
) -> GitSetupDialogView {
    let cleared = GitSetupDialogView {
        active: true,
        from_settings: false,
        step: GitSetupStep::Token,
        error: None,
        field_index: 0,
        advanced_expanded: false,
        editing_text: false,
        dropdown_open: false,
        dropdown_index: 0,
        text_buffer: Seq::empty(),
        loading: false,
        project_id: Seq::empty(),
        owner: Seq::empty(),
        repo: Seq::empty(),
        base_url: Seq::empty(),
        detected_from_remote: false,
        project_name: None,
        ci_provider: default_ci(),
        woodpecker_repo_id: Seq::empty(),
    };
    match remote {
        Some(ri) => GitSetupDialogView {
            owner: ri.owner,
            repo: ri.repo,
            detected_from_remote: ri.provider == provider,
            base_url: if ri.provider == provider && ri.base_url is Some { ri.base_url->0 } else { cleared.base_url },
            ..cleared
        },
        None => cleared,
    }
}

/// The dialog filled from the saved configuration of `provider`: the
/// project id, owner, repository, CI system and Woodpecker id that are
/// saved, and the saved address where it is not the provider's own.
pub open spec fn git_prefilled(d: GitSetupDialogView, provider: GitProvider, saved: GitSavedConfigView) -> GitSetupDialogView {
    match provider {
        GitProvider::GitLab => GitSetupDialogView {
            project_id: match saved.gitlab_project_id {
                Some(id) => decimal_text(id as nat),
                None => d.project_id,
            },
            base_url: if saved.gitlab_base_url != gitlab_default_url() { saved.gitlab_base_url } else { d.base_url },
            ..d
        },
        GitProvider::GitHub => GitSetupDialogView {
            owner: match saved.github_owner {
                Some(o) => o,
                None => d.owner,
            },
            repo: match saved.github_repo {
                Some(r) => r,
                None => d.repo,
            },
            ..d
        },
        GitProvider::Codeberg => GitSetupDialogView {
            owner: match saved.codeberg_owner {
                Some(o) => o,
                None => d.owner,
            },
            repo: match saved.codeberg_repo {
                Some(r) => r,
                None => d.repo,
            },
            base_url: if saved.codeberg_base_url != codeberg_default_url() { saved.codeberg_base_url } else { d.base_url },
            ci_provider: saved.codeberg_ci_provider,
            woodpecker_repo_id: match saved.woodpecker_repo_id {
                Some(id) => decimal_text(id as nat),
                None => d.woodpecker_repo_id,
            },
            ..d
        },
    }
}

/// The dialog as it opens from the settings screen for `provider`: as from
/// the project setup wizard (cleared, then filled from the git remote), then
/// filled from the saved configuration, and tied to the settings screen.
pub open spec fn git_opened(
    d: GitSetupDialogView,
    provider: GitProvider,
    remote: Option<RemoteInfoView>,
    saved: GitSavedConfigView,
) -> GitSetupDialogView {
    git_prefilled(GitSetupDialogView { from_settings: true, ..git_opened_for_project(d, provider, remote) }, provider, saved)
}

/// The dialog after it closes, and whether the settings screen shows again.
pub open spec fn git_closed(d: GitSetupDialogView) -> (GitSetupDialogView, GitSetupEffectView) {
    (
        GitSetupDialogView { active: false, from_settings: false, ..d },
        if d.from_settings { GitSetupEffectView::ReturnToSettings } else { GitSetupEffectView::Nothing },
    )
}

/// The dialog after moving to the next step, and what it asks for: from the
/// token step to the repository step, looking up the GitLab project where
/// its id is missing, its owner and repository are known and a token is
/// configured (`token`).
pub open spec fn git_next_step(d: GitSetupDialogView, provider: GitProvider, token: bool) -> (
    GitSetupDialogView,
    GitSetupEffectView,
) {
    match d.step {
        GitSetupStep::Token => {
            let d1 = GitSetupDialogView { step: GitSetupStep::Repository, ..d };
            if provider == GitProvider::GitLab && d.project_id.len() == 0 && d.owner.len() > 0 && d.repo.len() > 0
                && token {
                (GitSetupDialogView { loading: true, ..d1 }, project_lookup(d))
            } else {
                (d1, GitSetupEffectView::Nothing)
            }
        },
        _ => (d, GitSetupEffectView::Nothing),
    }
}

/// The dialog after moving to the previous step; from the first step it closes.
pub open spec fn git_prev_step(d: GitSetupDialogView) -> (GitSetupDialogView, GitSetupEffectView) {
    match d.step {
        GitSetupStep::Token => git_closed(d),
        GitSetupStep::Repository => (GitSetupDialogView { step: GitSetupStep::Token, ..d }, GitSetupEffectView::Nothing),
        GitSetupStep::Advanced => (
            GitSetupDialogView { step: GitSetupStep::Repository, ..d },
            GitSetupEffectView::Nothing,
        ),
    }
}

/// The last field row for `provider`, with or without the advanced fields.
pub open spec fn git_last_field(provider: GitProvider, advanced: bool) -> nat {
    match provider {
        GitProvider::GitLab => if advanced { 3 } else { 2 },
        GitProvider::GitHub => if advanced { 2 } else { 1 },
        GitProvider::Codeberg => 3,
    }
}

/// The dialog after moving to the next field row, which stops at the last.
pub open spec fn git_navigated_next(d: GitSetupDialogView, provider: GitProvider) -> GitSetupDialogView {
    if d.field_index < git_last_field(provider, d.advanced_expanded) {
        GitSetupDialogView { field_index: d.field_index + 1, ..d }
    } else {
        d
    }
}

/// The dialog after moving to the previous field row, which stops at the first.
pub open spec fn git_navigated_prev(d: GitSetupDialogView) -> GitSetupDialogView {
    if d.field_index > 0 {
        GitSetupDialogView { field_index: (d.field_index - 1) as nat, ..d }
    } else {
        d
    }
}

/// The text of the field on row `field`: owner, repository, project id, and
/// the address on any later row.
pub open spec fn field_text(d: GitSetupDialogView, field: nat) -> Seq<char> {
    if field == 0 {
        d.owner
    } else if field == 1 {
        d.repo
    } else if field == 2 {
        d.project_id
    } else {
        d.base_url
    }
}

/// The dialog with the field on row `field` set to `t`.
pub open spec fn with_field_text(d: GitSetupDialogView, field: nat, t: Seq<char>) -> GitSetupDialogView {
    if field == 0 {
        GitSetupDialogView { owner: t, ..d }
    } else if field == 1 {
        GitSetupDialogView { repo: t, ..d }
    } else if field == 2 {
        GitSetupDialogView { project_id: t, ..d }
    } else {
        GitSetupDialogView { base_url: t, ..d }
    }
}

/// The dialog as editing starts: the buffer holds the current row's text.
pub open spec fn git_edit_started(d: GitSetupDialogView) -> GitSetupDialogView {
    GitSetupDialogView { editing_text: true, text_buffer: field_text(d, d.field_index), ..d }
}

/// The dialog as editing is abandoned: the buffer is dropped.
pub open spec fn git_edit_cancelled(d: GitSetupDialogView) -> GitSetupDialogView {
    GitSetupDialogView { editing_text: false, text_buffer: Seq::empty(), ..d }
}

/// The dialog as editing is confirmed: the buffer becomes the row's text.
pub open spec fn git_edit_confirmed(d: GitSetupDialogView) -> GitSetupDialogView {
    GitSetupDialogView {
        editing_text: false,
        text_buffer: Seq::empty(),
        ..with_field_text(d, d.field_index, d.text_buffer)
    }
}

/// The dialog with the edit buffer set to `f` of its text.
pub open spec fn git_buffer_edited(d: GitSetupDialogView, f: spec_fn(Seq<char>) -> Seq<char>) -> GitSetupDialogView {
    GitSetupDialogView { text_buffer: f(d.text_buffer), ..d }
}

/// The dialog after a lookup of the project was asked for, and the lookup,
/// where a token is configured.
pub open spec fn git_fetch_requested(d: GitSetupDialogView, token: bool) -> (GitSetupDialogView, GitSetupEffectView) {
    if token {
        (GitSetupDialogView { loading: true, error: None, ..d }, project_lookup(d))
    } else {
        (d, GitSetupEffectView::Nothing)
    }
}

/// The dialog after the lookup found project `id` named `name`.
pub open spec fn git_project_found(d: GitSetupDialogView, id: u64, name: Seq<char>) -> GitSetupDialogView {
    GitSetupDialogView { loading: false, project_id: decimal_text(id as nat), project_name: Some(name), ..d }
}

/// The dialog after the lookup failed with `message`.
pub open spec fn git_lookup_failed(d: GitSetupDialogView, message: Seq<char>) -> GitSetupDialogView {
    GitSetupDialogView { loading: false, error: Some(message), ..d }
}

/// The CI system at a place of the dropdown.
pub open spec fn ci_at(index: nat) -> CodebergCiProvider {
    if index == 0 { CodebergCiProvider::ForgejoActions } else { CodebergCiProvider::Woodpecker }
}

/// The place of a CI system in the dropdown.
pub open spec fn ci_index(ci: CodebergCiProvider) -> nat {
    match ci {
        CodebergCiProvider::ForgejoActions => 0,
        CodebergCiProvider::Woodpecker => 1,
    }
}

/// The dialog after the CI dropdown is toggled: closing it chooses the
/// highlighted system, opening it highlights the chosen one.
pub open spec fn git_toggled_dropdown(d: GitSetupDialogView) -> GitSetupDialogView {
    if d.dropdown_open {
        GitSetupDialogView { dropdown_open: false, ci_provider: ci_at(d.dropdown_index), ..d }
    } else {
        GitSetupDialogView { dropdown_open: true, dropdown_index: ci_index(d.ci_provider), ..d }
    }
}

/// The dialog after the CI dropdown's highlight moves down, wrapping round.
pub open spec fn git_dropdown_moved_next(d: GitSetupDialogView) -> GitSetupDialogView {
    GitSetupDialogView { dropdown_index: (d.dropdown_index + 1) % 2, ..d }
}

/// The dialog after the CI dropdown's highlight moves up, wrapping round.
pub open spec fn git_dropdown_moved_prev(d: GitSetupDialogView) -> GitSetupDialogView {
    GitSetupDialogView { dropdown_index: if d.dropdown_index == 0 { 1 } else { 0 }, ..d }
}

/// The dialog after the highlighted CI system is chosen.
pub open spec fn git_dropdown_confirmed(d: GitSetupDialogView) -> GitSetupDialogView {
    GitSetupDialogView { dropdown_open: false, ci_provider: ci_at(d.dropdown_index), ..d }
}

/// The saved configuration after the dialog completes for `provider`:
/// GitLab takes the project id where it reads as a number and the address
/// where one is typed; GitHub takes owner and repository; Codeberg takes
/// owner, repository and CI system, the Woodpecker id where one is typed (or
/// nothing where it does not read as a number) and the address where one is
/// typed.
pub open spec fn git_saved(d: GitSetupDialogView, provider: GitProvider, c: GitSavedConfigView) -> GitSavedConfigView {
    match provider {
        GitProvider::GitLab => GitSavedConfigView {
            gitlab_project_id: match parsed_u64(d.project_id) {
                Some(id) => Some(id),
                None => c.gitlab_project_id,
            },
            gitlab_base_url: if d.base_url.len() > 0 { d.base_url } else { c.gitlab_base_url },
            ..c
        },
        GitProvider::GitHub => GitSavedConfigView { github_owner: Some(d.owner), github_repo: Some(d.repo), ..c },
        GitProvider::Codeberg => GitSavedConfigView {
            codeberg_owner: Some(d.owner),
            codeberg_repo: Some(d.repo),
            codeberg_ci_provider: d.ci_provider,
            woodpecker_repo_id: if d.woodpecker_repo_id.len() > 0 {
                parsed_u64(d.woodpecker_repo_id)
            } else {
                c.woodpecker_repo_id
            },
            codeberg_base_url: if d.base_url.len() > 0 { d.base_url } else { c.codeberg_base_url },
            ..c
        },
    }
}

/// Opening the dialog, with nothing read from the git remote, on the
/// configuration that completing it saved shows again the owner and
/// repository (GitHub, Codeberg) and the CI system (Codeberg) it held, and a
/// typed address other than the provider's own.
pub proof fn lemma_git_saved_then_opened(
    d: GitSetupDialogView,
    provider: GitProvider,
    c: GitSavedConfigView,
    e: GitSetupDialogView,
)
    ensures
        provider != GitProvider::GitLab ==> git_opened(e, provider, None, git_saved(d, provider, c)).owner == d.owner,
        provider != GitProvider::GitLab ==> git_opened(e, provider, None, git_saved(d, provider, c)).repo == d.repo,
        provider == GitProvider::Codeberg ==> git_opened(e, provider, None, git_saved(d, provider, c)).ci_provider
            == d.ci_provider,
        provider == GitProvider::GitLab && d.base_url.len() > 0 && d.base_url != gitlab_default_url()
            ==> git_opened(e, provider, None, git_saved(d, provider, c)).base_url == d.base_url,
        provider == GitProvider::Codeberg && d.base_url.len() > 0 && d.base_url != codeberg_default_url()
            ==> git_opened(e, provider, None, git_saved(d, provider, c)).base_url == d.base_url,
{
}

/// A project id typed as a number's plain decimal text is saved as that
/// number and shows again, unchanged, when the dialog is opened on the saved
/// configuration; likewise a Woodpecker id.
pub proof fn lemma_git_ids_round_trip(
    d: GitSetupDialogView,
    c: GitSavedConfigView,
    e: GitSetupDialogView,
    id: u64,
)
    ensures
        d.project_id == decimal_text(id as nat) ==> git_saved(d, GitProvider::GitLab, c).gitlab_project_id == Some(id),
        d.project_id == decimal_text(id as nat) ==> git_opened(
            e,
            GitProvider::GitLab,
            None,
            git_saved(d, GitProvider::GitLab, c),
        ).project_id == d.project_id,
        d.woodpecker_repo_id == decimal_text(id as nat) ==> git_saved(d, GitProvider::Codeberg, c).woodpecker_repo_id
            == Some(id),
        d.woodpecker_repo_id == decimal_text(id as nat) ==> git_opened(
            e,
            GitProvider::Codeberg,
            None,
            git_saved(d, GitProvider::Codeberg, c),
        ).woodpecker_repo_id == d.woodpecker_repo_id,
{
    crate::decimal::lemma_parse_reads_back_text(id);
    crate::decimal::lemma_decimal_text_nonempty(id as nat);
}

/// The project id that a lookup found is what completing the dialog for
/// GitLab saves.
pub proof fn lemma_git_found_id_is_saved(d: GitSetupDialogView, id: u64, name: Seq<char>, c: GitSavedConfigView)
    ensures
        git_saved(git_project_found(d, id, name), GitProvider::GitLab, c).gitlab_project_id == Some(id),
{
    crate::decimal::lemma_parse_reads_back_text(id);
}

/// Starting an edit and confirming it at once changes no field: it is the
/// same as abandoning the edit.
pub proof fn lemma_git_edit_unchanged(d: GitSetupDialogView)
    ensures
        git_edit_confirmed(git_edit_started(d)) == git_edit_cancelled(d),
{
    assert(git_edit_confirmed(git_edit_started(d)) =~= git_edit_cancelled(d));
}

/// Erasing a character just typed gives back the edit buffer as it was, and
/// pasting a text appends it as typing it would.
pub proof fn lemma_git_buffer_typing(d: GitSetupDialogView, c: char, text: Seq<char>)
    ensures
        git_buffer_edited(git_buffer_edited(d, |s: Seq<char>| s.push(c)), |s: Seq<char>| drop_last_char(s)) == d,
        git_buffer_edited(d, |s: Seq<char>| s + text.push(c)) == git_buffer_edited(
            git_buffer_edited(d, |s: Seq<char>| s + text),
            |s: Seq<char>| s.push(c),
        ),
{
    assert(d.text_buffer.push(c).drop_last() =~= d.text_buffer);
    assert(git_buffer_edited(git_buffer_edited(d, |s: Seq<char>| s.push(c)), |s: Seq<char>| drop_last_char(s)) =~= d);
    assert(d.text_buffer + text.push(c) =~= (d.text_buffer + text).push(c));
    assert(git_buffer_edited(d, |s: Seq<char>| s + text.push(c)) =~= git_buffer_edited(
        git_buffer_edited(d, |s: Seq<char>| s + text),
        |s: Seq<char>| s.push(c),
    ));
}

/// Opening the CI dropdown and choosing at once, or opening and closing it,
/// keeps the CI system.
pub proof fn lemma_git_dropdown_keeps_ci(d: GitSetupDialogView)
    requires
        !d.dropdown_open,
    ensures
        git_dropdown_confirmed(git_toggled_dropdown(d)).ci_provider == d.ci_provider,
        git_toggled_dropdown(git_toggled_dropdown(d)).ci_provider == d.ci_provider,
{
}

/// Stepping forward from the token step and back returns to it.
pub proof fn lemma_git_step_forward_and_back(d: GitSetupDialogView, provider: GitProvider, token: bool)
    requires
        d.step == GitSetupStep::Token,
    ensures
        git_next_step(d, provider, token).0.step == GitSetupStep::Repository,
        git_prev_step(git_next_step(d, provider, token).0).0.step == GitSetupStep::Token,
{
}

} // verus!

verus! {

/// The view of optional remote information.
pub open spec fn remote_view(r: Option<RemoteInfo>) -> Option<RemoteInfoView> {
    match r {
        Some(ri) => Some(ri@),
        None => None,
    }
}

/// Appends the characters of `text` to `s`.
fn append_chars(s: &mut String, text: &str)
    ensures
        final(s)@ == old(s)@ + text@,
{
    let cs = chars_of(text);
    let mut i: usize = 0;
    while i < cs.len()
        invariant
            i <= cs@.len(),
            cs@ == text@,
            s@ == old(s)@ + text@.take(i as int),
        decreases cs.len() - i,
    {
        push_char(s, cs[i]);
        proof {
            assert(old(s)@ + text@.take(i as int + 1) =~= (old(s)@ + text@.take(i as int)).push(cs@[i as int]));
        }
        i = i + 1;
    }
    proof {
        assert(text@.take(cs@.len() as int) =~= text@);
    }
}

impl GitSetupDialog {
    /// What the key handler reads of the dialog.
    pub fn key_state(&self) -> (r: GitSetupState)
        ensures
            r.loading == self.loading,
            r.editing_text == self.editing_text,
            r.step == self.step,
            r.advanced_expanded == self.advanced_expanded,
            r.dropdown_open == self.dropdown_open,
            r.field_index == self.field_index,
            r.project_id_empty == (self.project_id@.len() == 0),
            r.owner_empty == (self.owner@.len() == 0),
            r.repo_empty == (self.repo@.len() == 0),
    {
        GitSetupState {
            loading: self.loading,
            editing_text: self.editing_text,
            step: self.step,
            advanced_expanded: self.advanced_expanded,
            dropdown_open: self.dropdown_open,
            field_index: self.field_index,
            project_id_empty: self.project_id.unicode_len() == 0,
            owner_empty: self.owner.unicode_len() == 0,
            repo_empty: self.repo.unicode_len() == 0,
        }
    }

    /// Opens the dialog from the project setup wizard for `provider`; see
    /// [`git_opened_for_project`].
    pub fn open_for_project(&mut self, provider: GitProvider, remote: Option<RemoteInfo>)
        ensures
            final(self)@ == git_opened_for_project(old(self)@, provider, remote_view(remote)),
    {
        self.active = true;
        self.from_settings = false;
        self.step = GitSetupStep::Token;
        self.error = None;
        self.field_index = 0;
        self.advanced_expanded = false;
        self.editing_text = false;
        self.dropdown_open = false;
        self.dropdown_index = 0;
        self.text_buffer = String::new();
        self.loading = false;
        self.project_id = String::new();
        self.owner = String::new();
        self.repo = String::new();
        self.base_url = String::new();
        self.detected_from_remote = false;
        self.project_name = None;
        self.ci_provider = CodebergCiProvider::ForgejoActions;
        self.woodpecker_repo_id = String::new();
        match remote {
            Some(ri) => {
                let same = ri.provider == provider;
                self.owner = ri.owner;
                self.repo = ri.repo;
                self.detected_from_remote = same;
                if same {
                    match ri.base_url {
                        Some(url) => {
                            self.base_url = url;
                        },
                        None => {},
                    }
                }
            },
            None => {},
        }
        proof {
            assert(self@ =~= git_opened_for_project(old(self)@, provider, remote_view(remote)));
        }
    }

    /// Opens the dialog from the settings screen for `provider`; see
    /// [`git_opened`]. The caller hides the settings screen.
    pub fn open(&mut self, provider: GitProvider, remote: Option<RemoteInfo>, saved: &GitSavedConfig)
        ensures
            final(self)@ == git_opened(old(self)@, provider, remote_view(remote), saved@),
    {
        self.open_for_project(provider, remote);
        self.from_settings = true;
        let ghost opened = self@;
        match provider {
            GitProvider::GitLab => {
                match saved.gitlab_project_id {
                    Some(id) => {
                        self.project_id = u64_text(id);
                    },
                    None => {},
                }
                if !str_eq(saved.gitlab_base_url.as_str(), "https://gitlab.com") {
                    self.base_url = saved.gitlab_base_url.clone();
                }
            },
            GitProvider::GitHub => {
                match &saved.github_owner {
                    Some(o) => {
                        self.owner = o.clone();
                    },
                    None => {},
                }
                match &saved.github_repo {
                    Some(r) => {
                        self.repo = r.clone();
                    },
                    None => {},
                }
            },
            GitProvider::Codeberg => {
                match &saved.codeberg_owner {
                    Some(o) => {
                        self.owner = o.clone();
                    },
                    None => {},
                }
                match &saved.codeberg_repo {
                    Some(r) => {
                        self.repo = r.clone();
                    },
                    None => {},
                }
                if !str_eq(saved.codeberg_base_url.as_str(), "https://codeberg.org") {
                    self.base_url = saved.codeberg_base_url.clone();
                }
                self.ci_provider = saved.codeberg_ci_provider;
                match saved.woodpecker_repo_id {
                    Some(id) => {
                        self.woodpecker_repo_id = u64_text(id);
                    },
                    None => {},
                }
            },
        }
        proof {
            assert(opened =~= GitSetupDialogView { from_settings: true, ..git_opened_for_project(old(self)@, provider, remote_view(remote)) });
            assert(self@ =~= git_prefilled(opened, provider, saved@));
        }
    }

    /// Closes the dialog; where it was opened from the settings screen, that
    /// screen shows again.
    pub fn close(&mut self) -> (r: GitSetupEffect)
        ensures
            (final(self)@, r@) == git_closed(old(self)@),
    {
        self.active = false;
        let back = self.from_settings;
        self.from_settings = false;
        proof {
            assert(self@ =~= git_closed(old(self)@).0);
        }
        if back {
            GitSetupEffect::ReturnToSettings
        } else {
            GitSetupEffect::Nothing
        }
    }

    fn lookup(&self) -> (r: GitSetupEffect)
        ensures
            r@ == project_lookup(self@),
    {
        let base_url = if self.base_url.unicode_len() == 0 {
            String::from_str("https://gitlab.com")
        } else {
            self.base_url.clone()
        };
        GitSetupEffect::FetchProjectId { owner: self.owner.clone(), repo: self.repo.clone(), base_url }
    }

    /// Moves to the next step; see [`git_next_step`]. `token` says whether a
    /// GitLab token is configured.
    pub fn next_step(&mut self, provider: GitProvider, token: bool) -> (r: GitSetupEffect)
        ensures
            (final(self)@, r@) == git_next_step(old(self)@, provider, token),
    {
        match self.step {
            GitSetupStep::Token => {
                let lookup = self.lookup();
                self.step = GitSetupStep::Repository;
                let gitlab = match provider {
                    GitProvider::GitLab => true,
                    _ => false,
                };
                if gitlab && self.project_id.unicode_len() == 0 && self.owner.unicode_len() > 0
                    && self.repo.unicode_len() > 0 && token {
                    self.loading = true;
                    proof {
                        assert(self@ =~= git_next_step(old(self)@, provider, token).0);
                    }
                    lookup
                } else {
                    proof {
                        assert(self@ =~= git_next_step(old(self)@, provider, token).0);
                    }
                    GitSetupEffect::Nothing
                }
            },
            _ => GitSetupEffect::Nothing,
        }
    }

    /// Moves to the previous step; from the first step the dialog closes.
    pub fn prev_step(&mut self) -> (r: GitSetupEffect)
        ensures
            (final(self)@, r@) == git_prev_step(old(self)@),
    {
        match self.step {
            GitSetupStep::Token => self.close(),
            GitSetupStep::Repository => {
                self.step = GitSetupStep::Token;
                proof {
                    assert(self@ =~= git_prev_step(old(self)@).0);
                }
                GitSetupEffect::Nothing
            },
            GitSetupStep::Advanced => {
                self.step = GitSetupStep::Repository;
                proof {
                    assert(self@ =~= git_prev_step(old(self)@).0);
                }
                GitSetupEffect::Nothing
            },
        }
    }

    /// Shows or hides the advanced fields.
    pub fn toggle_advanced(&mut self)
        ensures
            final(self)@ == (GitSetupDialogView { advanced_expanded: !old(self)@.advanced_expanded, ..old(self)@ }),
    {
        self.advanced_expanded = !self.advanced_expanded;
        proof {
            assert(self@ =~= (GitSetupDialogView { advanced_expanded: !old(self)@.advanced_expanded, ..old(self)@ }));
        }
    }

    /// Moves to the next field row of `provider`'s form.
    pub fn navigate_next(&mut self, provider: GitProvider)
        ensures
            final(self)@ == git_navigated_next(old(self)@, provider),
    {
        let last: usize = match provider {
            GitProvider::GitLab => if self.advanced_expanded { 3 } else { 2 },
            GitProvider::GitHub => if self.advanced_expanded { 2 } else { 1 },
            GitProvider::Codeberg => 3,
        };
        if self.field_index < last {
            self.field_index = self.field_index + 1;
        }
        proof {
            assert(self@ =~= git_navigated_next(old(self)@, provider));
        }
    }

    /// Moves to the previous field row.
    pub fn navigate_prev(&mut self)
        ensures
            final(self)@ == git_navigated_prev(old(self)@),
    {
        if self.field_index > 0 {
            self.field_index = self.field_index - 1;
        }
        proof {
            assert(self@ =~= git_navigated_prev(old(self)@));
        }
    }

    /// Starts editing the current row's text.
    pub fn start_edit(&mut self)
        ensures
            final(self)@ == git_edit_started(old(self)@),
    {
        self.editing_text = true;
        self.text_buffer = if self.field_index == 0 {
            self.owner.clone()
        } else if self.field_index == 1 {
            self.repo.clone()
        } else if self.field_index == 2 {
            self.project_id.clone()
        } else {
            self.base_url.clone()
        };
        proof {
            assert(self@ =~= git_edit_started(old(self)@));
        }
    }

    /// Abandons the edit.
    pub fn cancel_edit(&mut self)
        ensures
            final(self)@ == git_edit_cancelled(old(self)@),
    {
        self.editing_text = false;
        self.text_buffer = String::new();
        proof {
            assert(self@ =~= git_edit_cancelled(old(self)@));
        }
    }

    /// Confirms the edit: the buffer becomes the current row's text.
    pub fn confirm_edit(&mut self)
        ensures
            final(self)@ == git_edit_confirmed(old(self)@),
    {
        let t = self.text_buffer.clone();
        if self.field_index == 0 {
            self.owner = t;
        } else if self.field_index == 1 {
            self.repo = t;
        } else if self.field_index == 2 {
            self.project_id = t;
        } else {
            self.base_url = t;
        }
        self.editing_text = false;
        self.text_buffer = String::new();
        proof {
            assert(self@ =~= git_edit_confirmed(old(self)@));
        }
    }

    /// Types `c` into the edit buffer.
    pub fn input_char(&mut self, c: char)
        ensures
            final(self)@ == git_buffer_edited(old(self)@, |s: Seq<char>| s.push(c)),
    {
        push_char(&mut self.text_buffer, c);
        proof {
            assert(self@ =~= git_buffer_edited(old(self)@, |s: Seq<char>| s.push(c)));
        }
    }

    /// Erases the last character of the edit buffer.
    pub fn backspace(&mut self)
        ensures
            final(self)@ == git_buffer_edited(old(self)@, |s: Seq<char>| drop_last_char(s)),
    {
        pop_char(&mut self.text_buffer);
        proof {
            assert(self@ =~= git_buffer_edited(old(self)@, |s: Seq<char>| drop_last_char(s)));
        }
    }

    /// Pastes `text` into the edit buffer.
    pub fn paste(&mut self, text: &str)
        ensures
            final(self)@ == git_buffer_edited(old(self)@, |s: Seq<char>| s + text@),
    {
        append_chars(&mut self.text_buffer, text);
        proof {
            assert(self@ =~= git_buffer_edited(old(self)@, |s: Seq<char>| s + text@));
        }
    }

    /// Asks to look up the GitLab project, where a token is configured.
    pub fn fetch_project_id(&mut self, token: bool) -> (r: GitSetupEffect)
        ensures
            (final(self)@, r@) == git_fetch_requested(old(self)@, token),
    {
        if token {
            self.loading = true;
            self.error = None;
            proof {
                assert(self@ =~= git_fetch_requested(old(self)@, token).0);
            }
            self.lookup()
        } else {
            GitSetupEffect::Nothing
        }
    }

    /// Takes the project that the lookup found.
    pub fn project_id_fetched(&mut self, id: u64, name: String)
        ensures
            final(self)@ == git_project_found(old(self)@, id, name@),
    {
        self.loading = false;
        self.project_id = u64_text(id);
        self.project_name = Some(name);
        proof {
            assert(self@ =~= git_project_found(old(self)@, id, name@));
        }
    }

    /// Records that the lookup failed with `message`.
    pub fn lookup_failed(&mut self, message: String)
        ensures
            final(self)@ == git_lookup_failed(old(self)@, message@),
    {
        self.loading = false;
        self.error = Some(message);
        proof {
            assert(self@ =~= git_lookup_failed(old(self)@, message@));
        }
    }

    /// Opens the CI dropdown, or closes it choosing the highlighted system.
    pub fn toggle_dropdown(&mut self)
        ensures
            final(self)@ == git_toggled_dropdown(old(self)@),
    {
        if self.dropdown_open {
            self.dropdown_open = false;
            self.ci_provider = if self.dropdown_index == 0 {
                CodebergCiProvider::ForgejoActions
            } else {
                CodebergCiProvider::Woodpecker
            };
        } else {
            self.dropdown_open = true;
            self.dropdown_index = match self.ci_provider {
                CodebergCiProvider::ForgejoActions => 0,
                CodebergCiProvider::Woodpecker => 1,
            };
        }
        proof {
            assert(self@ =~= git_toggled_dropdown(old(self)@));
        }
    }

    /// Moves the CI dropdown's highlight down, wrapping round.
    pub fn dropdown_next(&mut self)
        requires
            old(self).dropdown_index < usize::MAX,
        ensures
            final(self)@ == git_dropdown_moved_next(old(self)@),
    {
        self.dropdown_index = (self.dropdown_index + 1) % 2;
        proof {
            assert(self@ =~= git_dropdown_moved_next(old(self)@));
        }
    }

    /// Moves the CI dropdown's highlight up, wrapping round.
    pub fn dropdown_prev(&mut self)
        ensures
            final(self)@ == git_dropdown_moved_prev(old(self)@),
    {
        self.dropdown_index = if self.dropdown_index == 0 { 1 } else { 0 };
        proof {
            assert(self@ =~= git_dropdown_moved_prev(old(self)@));
        }
    }

    /// Chooses the highlighted CI system and closes the dropdown.
    pub fn confirm_dropdown(&mut self)
        ensures
            final(self)@ == git_dropdown_confirmed(old(self)@),
    {
        self.dropdown_open = false;
        self.ci_provider = if self.dropdown_index == 0 {
            CodebergCiProvider::ForgejoActions
        } else {
            CodebergCiProvider::Woodpecker
        };
        proof {
            assert(self@ =~= git_dropdown_confirmed(old(self)@));
        }
    }

    /// Closes the CI dropdown without choosing.
    pub fn close_dropdown(&mut self)
        ensures
            final(self)@ == (GitSetupDialogView { dropdown_open: false, ..old(self)@ }),
    {
        self.dropdown_open = false;
        proof {
            assert(self@ =~= (GitSetupDialogView { dropdown_open: false, ..old(self)@ }));
        }
    }

    /// Completes the dialog for `provider`: writes what it holds into the
    /// saved configuration (see [`git_saved`]) and closes it.
    pub fn complete(&mut self, provider: GitProvider, config: &mut GitSavedConfig) -> (r: GitSetupEffect)
        ensures
            final(config)@ == git_saved(old(self)@, provider, old(config)@),
            (final(self)@, r@) == git_closed(old(self)@),
    {
        match provider {
            GitProvider::GitLab => {
                match parse_u64(self.project_id.as_str()) {
                    Some(id) => {
                        config.gitlab_project_id = Some(id);
                    },
                    None => {},
                }
                if self.base_url.unicode_len() > 0 {
                    config.gitlab_base_url = self.base_url.clone();
                }
            },
            GitProvider::GitHub => {
                config.github_owner = Some(self.owner.clone());
                config.github_repo = Some(self.repo.clone());
            },
            GitProvider::Codeberg => {
                config.codeberg_owner = Some(self.owner.clone());
                config.codeberg_repo = Some(self.repo.clone());
                config.codeberg_ci_provider = self.ci_provider;
                if self.woodpecker_repo_id.unicode_len() > 0 {
                    config.woodpecker_repo_id = parse_u64(self.woodpecker_repo_id.as_str());
                }
                if self.base_url.unicode_len() > 0 {
                    config.codeberg_base_url = self.base_url.clone();
                }
            },
        }
        proof {
            assert(config@ == git_saved(old(self)@, provider, old(config)@));
        }
        self.close()
    }
}

} // verus!
