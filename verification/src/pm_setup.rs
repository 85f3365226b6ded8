//! The project-management setup dialog: what each of its actions does to the
//! dialog, and what it asks the caller to load or show.
use vstd::prelude::*;
use crate::agent::{copy_opt_text, opt_text};
use crate::keys::{pop_char, push_char};
use crate::setup_keys::{PmSetupState, PmSetupStep, ProjectMgmtProvider};
use crate::text::chars_of;

verus! {

/// An entry of a list that the dialog offers: an id, a title and a third
/// text (the parent page of a Notion database, empty elsewhere).
pub open spec fn entry_view(e: (String, String, String)) -> (Seq<char>, Seq<char>, Seq<char>) {
    (e.0@, e.1@, e.2@)
}

/// The views of a list of entries.
pub open spec fn entries(v: Seq<(String, String, String)>) -> Seq<(Seq<char>, Seq<char>, Seq<char>)> {
    v.map_values(|e: (String, String, String)| entry_view(e))
}

/// Whether the provider offers a top-level list to choose from.
pub open spec fn loads_top_level(p: ProjectMgmtProvider) -> bool {
    p != ProjectMgmtProvider::Beads
}

/// Whether the provider has a step that chooses a project (or list, table,
/// database) under the chosen workspace.
pub open spec fn has_project_step(p: ProjectMgmtProvider) -> bool {
    match p {
        ProjectMgmtProvider::Asana | ProjectMgmtProvider::Clickup | ProjectMgmtProvider::Airtable
        | ProjectMgmtProvider::Notion => true,
        _ => false,
    }
}

/// The project-management setup dialog.
pub struct PmSetupDialog {
    pub active: bool,
    /// Whether the dialog was opened from the settings screen.
    pub from_settings: bool,
    pub step: PmSetupStep,
    pub teams: Vec<(String, String, String)>,
    pub all_databases: Vec<(String, String, String)>,
    pub teams_loading: bool,
    pub error: Option<String>,
    pub selected_team_index: usize,
    pub selected_workspace_gid: Option<String>,
    pub field_index: usize,
    pub advanced_expanded: bool,
    pub dropdown_open: bool,
    pub dropdown_index: usize,
    pub manual_team_id: String,
    pub in_progress_state: String,
    pub done_state: String,
}

/// The view of a [`PmSetupDialog`].
#[verifier::ext_equal]
pub struct PmSetupDialogView {
    pub active: bool,
    pub from_settings: bool,
    pub step: PmSetupStep,
    pub teams: Seq<(Seq<char>, Seq<char>, Seq<char>)>,
    pub all_databases: Seq<(Seq<char>, Seq<char>, Seq<char>)>,
    pub teams_loading: bool,
    pub error: Option<Seq<char>>,
    pub selected_team_index: nat,
    pub selected_workspace_gid: Option<Seq<char>>,
    pub field_index: nat,
    pub advanced_expanded: bool,
    pub dropdown_open: bool,
    pub dropdown_index: nat,
    pub manual_team_id: Seq<char>,
    pub in_progress_state: Seq<char>,
    pub done_state: Seq<char>,
}

impl View for PmSetupDialog {
    type V = PmSetupDialogView;

    open spec fn view(&self) -> PmSetupDialogView {
        PmSetupDialogView {
            active: self.active,
            from_settings: self.from_settings,
            step: self.step,
            teams: entries(self.teams@),
            all_databases: entries(self.all_databases@),
            teams_loading: self.teams_loading,
            error: opt_text(self.error),
            selected_team_index: self.selected_team_index as nat,
            selected_workspace_gid: opt_text(self.selected_workspace_gid),
            field_index: self.field_index as nat,
            advanced_expanded: self.advanced_expanded,
            dropdown_open: self.dropdown_open,
            dropdown_index: self.dropdown_index as nat,
            manual_team_id: self.manual_team_id@,
            in_progress_state: self.in_progress_state@,
            done_state: self.done_state@,
        }
    }
}

/// What the dialog asks of its caller after an action.
pub enum PmSetupEffect {
    /// Nothing.
    Nothing,
    /// Load the provider's top-level list: Linear teams, Notion databases,
    /// Asana workspaces, ClickUp teams or Airtable bases.
    LoadTopLevel,
    /// Load the entries under the chosen one: Asana projects, ClickUp lists
    /// or Airtable tables.
    LoadChildren(String),
    /// Offer the Notion parent pages of the loaded databases again.
    LoadNotionParentPages,
    /// Show the settings screen again.
    ReturnToSettings,
}

/// The view of a [`PmSetupEffect`].
pub enum PmSetupEffectView {
    Nothing,
    LoadTopLevel,
    LoadChildren(Seq<char>),
    LoadNotionParentPages,
    ReturnToSettings,
}

impl View for PmSetupEffect {
    type V = PmSetupEffectView;

    open spec fn view(&self) -> PmSetupEffectView {
        match self {
            PmSetupEffect::Nothing => PmSetupEffectView::Nothing,
            PmSetupEffect::LoadTopLevel => PmSetupEffectView::LoadTopLevel,
            PmSetupEffect::LoadChildren(s) => PmSetupEffectView::LoadChildren(s@),
            PmSetupEffect::LoadNotionParentPages => PmSetupEffectView::LoadNotionParentPages,
            PmSetupEffect::ReturnToSettings => PmSetupEffectView::ReturnToSettings,
        }
    }
}

/// The Notion databases under the parent page `parent`, as entries with an
/// empty third text.
pub open spec fn databases_under(
    dbs: Seq<(Seq<char>, Seq<char>, Seq<char>)>,
    parent: Seq<char>,
) -> Seq<(Seq<char>, Seq<char>, Seq<char>)> {
    dbs.filter(|e: (Seq<char>, Seq<char>, Seq<char>)| e.2 == parent).map_values(
        |e: (Seq<char>, Seq<char>, Seq<char>)| (e.0, e.1, Seq::<char>::empty()),
    )
}

/// The dialog after it is opened from the settings screen.
pub open spec fn pm_opened(d: PmSetupDialogView) -> PmSetupDialogView {
    PmSetupDialogView {
        active: true,
        from_settings: true,
        step: PmSetupStep::Token,
        teams: Seq::empty(),
        all_databases: Seq::empty(),
        error: None,
        selected_team_index: 0,
        field_index: 0,
        advanced_expanded: false,
        manual_team_id: Seq::empty(),
        in_progress_state: Seq::empty(),
        done_state: Seq::empty(),
        ..d
    }
}

/// The dialog after it is opened from the project setup wizard.
pub open spec fn pm_opened_for_project(d: PmSetupDialogView) -> PmSetupDialogView {
    PmSetupDialogView { from_settings: false, teams_loading: false, ..pm_opened(d) }
}

/// The dialog after it closes, and whether the settings screen shows again.
pub open spec fn pm_closed(d: PmSetupDialogView) -> (PmSetupDialogView, PmSetupEffectView) {
    (
        PmSetupDialogView { active: false, from_settings: false, ..d },
        if d.from_settings { PmSetupEffectView::ReturnToSettings } else { PmSetupEffectView::Nothing },
    )
}

/// The dialog after moving to the next step, and what it asks for; `token`
/// says whether a token for the provider is configured.
pub open spec fn pm_next_step(d: PmSetupDialogView, provider: ProjectMgmtProvider, token: bool) -> (
    PmSetupDialogView,
    PmSetupEffectView,
) {
    match d.step {
        PmSetupStep::Token => {
            let d1 = PmSetupDialogView { step: PmSetupStep::Workspace, ..d };
            if d.teams.len() == 0 && loads_top_level(provider) && token {
                (PmSetupDialogView { teams_loading: true, ..d1 }, PmSetupEffectView::LoadTopLevel)
            } else {
                (d1, PmSetupEffectView::Nothing)
            }
        },
        PmSetupStep::Workspace => {
            if has_project_step(provider) {
                if d.selected_team_index < d.teams.len() {
                    let chosen = d.teams[d.selected_team_index as int].0;
                    let d1 = PmSetupDialogView {
                        selected_workspace_gid: Some(chosen),
                        step: PmSetupStep::Project,
                        ..d
                    };
                    if provider == ProjectMgmtProvider::Notion {
                        (
                            PmSetupDialogView {
                                teams: databases_under(d.all_databases, chosen),
                                selected_team_index: 0,
                                ..d1
                            },
                            PmSetupEffectView::Nothing,
                        )
                    } else {
                        (
                            PmSetupDialogView { teams: Seq::empty(), teams_loading: true, ..d1 },
                            PmSetupEffectView::LoadChildren(chosen),
                        )
                    }
                } else {
                    (d, PmSetupEffectView::Nothing)
                }
            } else {
                (PmSetupDialogView { step: PmSetupStep::Advanced, ..d }, PmSetupEffectView::Nothing)
            }
        },
        PmSetupStep::Project => (PmSetupDialogView { step: PmSetupStep::Advanced, ..d }, PmSetupEffectView::Nothing),
        PmSetupStep::Advanced => (d, PmSetupEffectView::Nothing),
    }
}

/// The dialog after moving to the previous step, and what it asks for.
pub open spec fn pm_prev_step(d: PmSetupDialogView, provider: ProjectMgmtProvider, token: bool) -> (
    PmSetupDialogView,
    PmSetupEffectView,
) {
    match d.step {
        PmSetupStep::Token => pm_closed(d),
        PmSetupStep::Workspace => (PmSetupDialogView { step: PmSetupStep::Token, ..d }, PmSetupEffectView::Nothing),
        PmSetupStep::Project => {
            if provider == ProjectMgmtProvider::Notion {
                (
                    PmSetupDialogView { step: PmSetupStep::Workspace, selected_team_index: 0, ..d },
                    PmSetupEffectView::LoadNotionParentPages,
                )
            } else if has_project_step(provider) {
                let d1 = PmSetupDialogView {
                    step: PmSetupStep::Workspace,
                    teams: Seq::empty(),
                    selected_team_index: 0,
                    ..d
                };
                if token {
                    (PmSetupDialogView { teams_loading: true, ..d1 }, PmSetupEffectView::LoadTopLevel)
                } else {
                    (d1, PmSetupEffectView::Nothing)
                }
            } else {
                (PmSetupDialogView { step: PmSetupStep::Workspace, ..d }, PmSetupEffectView::Nothing)
            }
        },
        PmSetupStep::Advanced => {
            if has_project_step(provider) {
                (PmSetupDialogView { step: PmSetupStep::Project, ..d }, PmSetupEffectView::Nothing)
            } else {
                (PmSetupDialogView { step: PmSetupStep::Workspace, ..d }, PmSetupEffectView::Nothing)
            }
        },
    }
}

/// The last field row: the three advanced fields when they are shown.
pub open spec fn pm_last_field(d: PmSetupDialogView) -> nat {
    if d.advanced_expanded { 3 } else { 0 }
}

/// The text field that row `field` edits, as a function of the dialog: row 1
/// the manual id, row 2 the in-progress state, row 3 the done state; the
/// result is the dialog with that field set to `f` of its text.
pub open spec fn pm_edit_field(d: PmSetupDialogView, f: spec_fn(Seq<char>) -> Seq<char>) -> PmSetupDialogView {
    if d.field_index == 1 {
        PmSetupDialogView { manual_team_id: f(d.manual_team_id), ..d }
    } else if d.field_index == 2 {
        PmSetupDialogView { in_progress_state: f(d.in_progress_state), ..d }
    } else if d.field_index == 3 {
        PmSetupDialogView { done_state: f(d.done_state), ..d }
    } else {
        d
    }
}

/// The dialog with the advanced fields shown or hidden.
pub open spec fn pm_toggled_advanced(d: PmSetupDialogView) -> PmSetupDialogView {
    PmSetupDialogView { advanced_expanded: !d.advanced_expanded, ..d }
}

/// The dialog after moving to the next field row, which stops at the last.
pub open spec fn pm_navigated_next(d: PmSetupDialogView) -> PmSetupDialogView {
    if d.field_index < pm_last_field(d) {
        PmSetupDialogView { field_index: d.field_index + 1, ..d }
    } else {
        d
    }
}

/// The dialog after moving to the previous field row, which stops at the first.
pub open spec fn pm_navigated_prev(d: PmSetupDialogView) -> PmSetupDialogView {
    if d.field_index > 0 {
        PmSetupDialogView { field_index: (d.field_index - 1) as nat, ..d }
    } else {
        d
    }
}

/// The dialog after the list's dropdown is opened or closed: only on the
/// first row and with something to choose; opening starts at the chosen entry.
pub open spec fn pm_toggled_dropdown(d: PmSetupDialogView) -> PmSetupDialogView {
    if d.teams.len() > 0 && d.field_index == 0 {
        PmSetupDialogView { dropdown_open: !d.dropdown_open, dropdown_index: d.selected_team_index, ..d }
    } else {
        d
    }
}

/// The dialog after the dropdown's highlight moves down; it stops at the
/// last entry.
pub open spec fn pm_dropdown_moved_next(d: PmSetupDialogView) -> PmSetupDialogView {
    let last: int = if d.teams.len() > 0 { d.teams.len() - 1 } else { 0 };
    if d.dropdown_index < last {
        PmSetupDialogView { dropdown_index: d.dropdown_index + 1, ..d }
    } else {
        d
    }
}

/// The dialog after the dropdown's highlight moves up; it stops at the first.
pub open spec fn pm_dropdown_moved_prev(d: PmSetupDialogView) -> PmSetupDialogView {
    if d.dropdown_index > 0 {
        PmSetupDialogView { dropdown_index: (d.dropdown_index - 1) as nat, ..d }
    } else {
        d
    }
}

/// The dialog after the highlighted entry is confirmed: it becomes the
/// chosen one where it is in the list, and the dropdown closes.
pub open spec fn pm_dropdown_confirmed(d: PmSetupDialogView) -> PmSetupDialogView {
    PmSetupDialogView {
        selected_team_index: if d.dropdown_index < d.teams.len() { d.dropdown_index } else { d.selected_team_index },
        dropdown_open: false,
        ..d
    }
}

/// The dialog after a list of entries arrives.
pub open spec fn pm_teams_loaded(d: PmSetupDialogView, teams: Seq<(Seq<char>, Seq<char>, Seq<char>)>) -> PmSetupDialogView {
    PmSetupDialogView { teams, teams_loading: false, selected_team_index: 0, ..d }
}

/// The dialog after the Notion databases and their parent pages arrive.
pub open spec fn pm_notion_loaded(
    d: PmSetupDialogView,
    databases: Seq<(Seq<char>, Seq<char>, Seq<char>)>,
    parent_pages: Seq<(Seq<char>, Seq<char>, Seq<char>)>,
) -> PmSetupDialogView {
    PmSetupDialogView { all_databases: databases, teams: parent_pages, teams_loading: false, selected_team_index: 0, ..d }
}

/// The dialog after loading failed with `message`.
pub open spec fn pm_load_failed(d: PmSetupDialogView, message: Seq<char>) -> PmSetupDialogView {
    PmSetupDialogView { teams_loading: false, error: Some(message), ..d }
}

/// A text without its last character, where it has one.
pub open spec fn drop_last_char(s: Seq<char>) -> Seq<char> {
    if s.len() > 0 { s.drop_last() } else { s }
}

/// What completing the dialog chose: the id to configure (the manual id
/// where one was typed, else the selected entry's), the chosen entry's title
/// (`manual` where no entry is selected), the workspace chosen on the way,
/// and the in-progress and done states where they were typed.
pub struct PmSetupChoice {
    pub id: Option<String>,
    pub name: String,
    pub workspace_gid: Option<String>,
    pub in_progress_state: Option<String>,
    pub done_state: Option<String>,
}

/// The view of a [`PmSetupChoice`].
pub struct PmSetupChoiceView {
    pub id: Option<Seq<char>>,
    pub name: Seq<char>,
    pub workspace_gid: Option<Seq<char>>,
    pub in_progress_state: Option<Seq<char>>,
    pub done_state: Option<Seq<char>>,
}

impl View for PmSetupChoice {
    type V = PmSetupChoiceView;

    open spec fn view(&self) -> PmSetupChoiceView {
        PmSetupChoiceView {
            id: opt_text(self.id),
            name: self.name@,
            workspace_gid: opt_text(self.workspace_gid),
            in_progress_state: opt_text(self.in_progress_state),
            done_state: opt_text(self.done_state),
        }
    }
}

/// A typed text, where it is not empty.
pub open spec fn typed(s: Seq<char>) -> Option<Seq<char>> {
    if s.len() > 0 { Some(s) } else { None }
}

/// What completing the dialog `d` chooses.
pub open spec fn pm_choice(d: PmSetupDialogView) -> PmSetupChoiceView {
    let selected = d.selected_team_index < d.teams.len();
    PmSetupChoiceView {
        id: if d.manual_team_id.len() > 0 {
            Some(d.manual_team_id)
        } else if selected {
            Some(d.teams[d.selected_team_index as int].0)
        } else {
            None
        },
        name: if selected { d.teams[d.selected_team_index as int].1 } else { "manual"@ },
        workspace_gid: d.selected_workspace_gid,
        in_progress_state: typed(d.in_progress_state),
        done_state: typed(d.done_state),
    }
}

/// Appends the characters of `text` to `s`.
fn append_text(s: &mut String, text: &str)
    ensures
        final(s)@ == old(s)@ + text@,
{
    let cs = chars_of(text);
    let mut i: usize = 0;
    while i < cs.len()
        invariant
            i <= cs@.len(),
            cs@ == text@,
            s@ == old(s)@ + text@.take(i as int),
        decreases cs.len() - i,
    {
        push_char(s, cs[i]);
        proof {
            assert(text@.take(i as int + 1) =~= text@.take(i as int).push(cs@[i as int]));
            assert(old(s)@ + text@.take(i as int + 1) =~= (old(s)@ + text@.take(i as int)).push(cs@[i as int]));
        }
        i = i + 1;
    }
    proof {
        assert(text@.take(cs@.len() as int) =~= text@);
    }
}

/// The Notion databases under `parent`, with an empty third text.
fn select_databases_under(dbs: &Vec<(String, String, String)>, parent: &String) -> (r: Vec<(String, String, String)>)
    ensures
        entries(r@) == databases_under(entries(dbs@), parent@),
{
    let ghost all = entries(dbs@);
    let ghost pred = |e: (Seq<char>, Seq<char>, Seq<char>)| e.2 == parent@;
    let ghost strip = |e: (Seq<char>, Seq<char>, Seq<char>)| (e.0, e.1, Seq::<char>::empty());
    let mut r: Vec<(String, String, String)> = Vec::new();
    let mut i: usize = 0;
    proof {
        reveal(Seq::filter);
        assert(all.take(0).filter(pred) =~= Seq::empty());
        assert(entries(r@) =~= all.take(0).filter(pred).map_values(strip));
    }
    while i < dbs.len()
        invariant
            i <= dbs@.len(),
            all == entries(dbs@),
            all.len() == dbs@.len(),
            pred == (|e: (Seq<char>, Seq<char>, Seq<char>)| e.2 == parent@),
            strip == (|e: (Seq<char>, Seq<char>, Seq<char>)| (e.0, e.1, Seq::<char>::empty())),
            entries(r@) == all.take(i as int).filter(pred).map_values(strip),
        decreases dbs.len() - i,
    {
        let ghost before = all.take(i as int).filter(pred);
        proof {
            assert(all.take(i as int + 1).drop_last() =~= all.take(i as int));
            assert(all.take(i as int + 1).last() == all[i as int]);
        }
        let e = &dbs[i];
        if e.2 == *parent {
            proof {
                reveal(Seq::filter);
                assert(pred(all[i as int]));
                assert(all.take(i as int + 1).filter(pred) == before.push(all[i as int]));
            }
            let ghost old_r = r@;
            r.push((e.0.clone(), e.1.clone(), String::new()));
            proof {
                assert(entries(r@) =~= entries(old_r).push(strip(all[i as int])));
                assert(before.push(all[i as int]).map_values(strip) =~= before.map_values(strip).push(strip(all[i as int])));
            }
        } else {
            proof {
                reveal(Seq::filter);
                assert(!pred(all[i as int]));
                assert(all.take(i as int + 1).filter(pred) == before);
            }
        }
        i = i + 1;
    }
    proof {
        assert(all.take(dbs@.len() as int) =~= all);
    }
    r
}

impl PmSetupDialog {
    /// What the key handler reads of the dialog.
    pub fn key_state(&self) -> (r: PmSetupState)
        ensures
            r.dropdown_open == self.dropdown_open,
            r.step == self.step,
            r.field_index == self.field_index,
            r.advanced_expanded == self.advanced_expanded,
            r.has_teams == (self.teams.len() > 0),
    {
        PmSetupState {
            dropdown_open: self.dropdown_open,
            step: self.step,
            field_index: self.field_index,
            advanced_expanded: self.advanced_expanded,
            has_teams: self.teams.len() > 0,
        }
    }

    /// Opens the dialog from the settings screen at its first step, with
    /// everything typed or loaded before cleared.
    pub fn open(&mut self)
        ensures
            final(self)@ == pm_opened(old(self)@),
    {
        self.active = true;
        self.from_settings = true;
        self.step = PmSetupStep::Token;
        self.teams = Vec::new();
        self.all_databases = Vec::new();
        self.error = None;
        self.selected_team_index = 0;
        self.field_index = 0;
        self.advanced_expanded = false;
        self.manual_team_id = String::new();
        self.in_progress_state = String::new();
        self.done_state = String::new();
        proof {
            assert(self@ =~= pm_opened(old(self)@));
        }
    }

    /// Opens the dialog from the project setup wizard: as from the settings
    /// screen, but closing it does not show that screen, and nothing counts
    /// as loading.
    pub fn open_for_project(&mut self)
        ensures
            final(self)@ == pm_opened_for_project(old(self)@),
    {
        self.open();
        self.from_settings = false;
        self.teams_loading = false;
        proof {
            assert(self@ =~= pm_opened_for_project(old(self)@));
        }
    }

    /// Closes the dialog; where it was opened from the settings screen, that
    /// screen shows again.
    pub fn close(&mut self) -> (r: PmSetupEffect)
        ensures
            (final(self)@, r@) == pm_closed(old(self)@),
    {
        self.active = false;
        let back = self.from_settings;
        self.from_settings = false;
        proof {
            assert(self@ =~= pm_closed(old(self)@).0);
        }
        if back {
            PmSetupEffect::ReturnToSettings
        } else {
            PmSetupEffect::Nothing
        }
    }
    /// Moves to the next step; see [`pm_next_step`]. `token` says whether a
    /// token for `provider` is configured.
    pub fn next_step(&mut self, provider: ProjectMgmtProvider, token: bool) -> (r: PmSetupEffect)
        ensures
            (final(self)@, r@) == pm_next_step(old(self)@, provider, token),
    {
        match self.step {
            PmSetupStep::Token => {
                self.step = PmSetupStep::Workspace;
                let loads = match provider {
                    ProjectMgmtProvider::Beads => false,
                    _ => true,
                };
                if self.teams.len() == 0 && loads && token {
                    self.teams_loading = true;
                    proof {
                        assert(self@ =~= pm_next_step(old(self)@, provider, token).0);
                    }
                    PmSetupEffect::LoadTopLevel
                } else {
                    proof {
                        assert(self@ =~= pm_next_step(old(self)@, provider, token).0);
                    }
                    PmSetupEffect::Nothing
                }
            },
            PmSetupStep::Workspace => {
                let project_step = match provider {
                    ProjectMgmtProvider::Asana | ProjectMgmtProvider::Clickup | ProjectMgmtProvider::Airtable
                    | ProjectMgmtProvider::Notion => true,
                    _ => false,
                };
                if project_step {
                    if self.selected_team_index < self.teams.len() {
                        let chosen = self.teams[self.selected_team_index].0.clone();
                        proof {
                            assert(chosen@ == old(self)@.teams[old(self).selected_team_index as int].0);
                        }
                        self.selected_workspace_gid = Some(chosen.clone());
                        self.step = PmSetupStep::Project;
                        match provider {
                            ProjectMgmtProvider::Notion => {
                                self.teams = select_databases_under(&self.all_databases, &chosen);
                                self.selected_team_index = 0;
                                proof {
                                    assert(self@ =~= pm_next_step(old(self)@, provider, token).0);
                                }
                                PmSetupEffect::Nothing
                            },
                            _ => {
                                self.teams = Vec::new();
                                self.teams_loading = true;
                                proof {
                                    assert(entries(self.teams@) =~= Seq::empty());
                                    assert(self@ =~= pm_next_step(old(self)@, provider, token).0);
                                }
                                PmSetupEffect::LoadChildren(chosen)
                            },
                        }
                    } else {
                        PmSetupEffect::Nothing
                    }
                } else {
                    self.step = PmSetupStep::Advanced;
                    proof {
                        assert(self@ =~= pm_next_step(old(self)@, provider, token).0);
                    }
                    PmSetupEffect::Nothing
                }
            },
            PmSetupStep::Project => {
                self.step = PmSetupStep::Advanced;
                proof {
                    assert(self@ =~= pm_next_step(old(self)@, provider, token).0);
                }
                PmSetupEffect::Nothing
            },
            PmSetupStep::Advanced => PmSetupEffect::Nothing,
        }
    }

    /// Moves to the previous step; see [`pm_prev_step`]. From the first step
    /// the dialog closes.
    pub fn prev_step(&mut self, provider: ProjectMgmtProvider, token: bool) -> (r: PmSetupEffect)
        ensures
            (final(self)@, r@) == pm_prev_step(old(self)@, provider, token),
    {
        match self.step {
            PmSetupStep::Token => self.close(),
            PmSetupStep::Workspace => {
                self.step = PmSetupStep::Token;
                proof {
                    assert(self@ =~= pm_prev_step(old(self)@, provider, token).0);
                }
                PmSetupEffect::Nothing
            },
            PmSetupStep::Project => {
                self.step = PmSetupStep::Workspace;
                match provider {
                    ProjectMgmtProvider::Notion => {
                        self.selected_team_index = 0;
                        proof {
                            assert(self@ =~= pm_prev_step(old(self)@, provider, token).0);
                        }
                        PmSetupEffect::LoadNotionParentPages
                    },
                    ProjectMgmtProvider::Asana | ProjectMgmtProvider::Clickup | ProjectMgmtProvider::Airtable => {
                        self.teams = Vec::new();
                        self.selected_team_index = 0;
                        proof {
                            assert(entries(self.teams@) =~= Seq::empty());
                        }
                        if token {
                            self.teams_loading = true;
                            proof {
                                assert(self@ =~= pm_prev_step(old(self)@, provider, token).0);
                            }
                            PmSetupEffect::LoadTopLevel
                        } else {
                            proof {
                                assert(self@ =~= pm_prev_step(old(self)@, provider, token).0);
                            }
                            PmSetupEffect::Nothing
                        }
                    },
                    _ => {
                        proof {
                            assert(self@ =~= pm_prev_step(old(self)@, provider, token).0);
                        }
                        PmSetupEffect::Nothing
                    },
                }
            },
            PmSetupStep::Advanced => {
                match provider {
                    ProjectMgmtProvider::Asana | ProjectMgmtProvider::Clickup | ProjectMgmtProvider::Airtable
                    | ProjectMgmtProvider::Notion => {
                        self.step = PmSetupStep::Project;
                    },
                    _ => {
                        self.step = PmSetupStep::Workspace;
                    },
                }
                proof {
                    assert(self@ =~= pm_prev_step(old(self)@, provider, token).0);
                }
                PmSetupEffect::Nothing
            },
        }
    }

    /// Shows or hides the advanced fields.
    pub fn toggle_advanced(&mut self)
        ensures
            final(self)@ == pm_toggled_advanced(old(self)@),
    {
        self.advanced_expanded = !self.advanced_expanded;
        proof {
            assert(self@ =~= pm_toggled_advanced(old(self)@));
        }
    }

    /// Moves to the next field row.
    pub fn navigate_next(&mut self)
        ensures
            final(self)@ == pm_navigated_next(old(self)@),
    {
        let last: usize = if self.advanced_expanded { 3 } else { 0 };
        if self.field_index < last {
            self.field_index = self.field_index + 1;
        }
        proof {
            assert(self@ =~= pm_navigated_next(old(self)@));
        }
    }

    /// Moves to the previous field row.
    pub fn navigate_prev(&mut self)
        ensures
            final(self)@ == pm_navigated_prev(old(self)@),
    {
        if self.field_index > 0 {
            self.field_index = self.field_index - 1;
        }
        proof {
            assert(self@ =~= pm_navigated_prev(old(self)@));
        }
    }

    /// Opens or closes the list's dropdown.
    pub fn toggle_dropdown(&mut self)
        ensures
            final(self)@ == pm_toggled_dropdown(old(self)@),
    {
        if self.teams.len() > 0 && self.field_index == 0 {
            self.dropdown_open = !self.dropdown_open;
            self.dropdown_index = self.selected_team_index;
        }
        proof {
            assert(self@ =~= pm_toggled_dropdown(old(self)@));
        }
    }

    /// Moves the dropdown's highlight down.
    pub fn dropdown_next(&mut self)
        ensures
            final(self)@ == pm_dropdown_moved_next(old(self)@),
    {
        let last: usize = if self.teams.len() > 0 { self.teams.len() - 1 } else { 0 };
        if self.dropdown_index < last {
            self.dropdown_index = self.dropdown_index + 1;
        }
        proof {
            assert(self@ =~= pm_dropdown_moved_next(old(self)@));
        }
    }

    /// Moves the dropdown's highlight up.
    pub fn dropdown_prev(&mut self)
        ensures
            final(self)@ == pm_dropdown_moved_prev(old(self)@),
    {
        if self.dropdown_index > 0 {
            self.dropdown_index = self.dropdown_index - 1;
        }
        proof {
            assert(self@ =~= pm_dropdown_moved_prev(old(self)@));
        }
    }

    /// Chooses the highlighted entry and closes the dropdown.
    pub fn confirm_dropdown(&mut self)
        ensures
            final(self)@ == pm_dropdown_confirmed(old(self)@),
    {
        if self.dropdown_index < self.teams.len() {
            self.selected_team_index = self.dropdown_index;
        }
        self.dropdown_open = false;
        proof {
            assert(self@ =~= pm_dropdown_confirmed(old(self)@));
        }
    }

    /// Types `c` into the text field of the current row.
    pub fn input_char(&mut self, c: char)
        ensures
            final(self)@ == pm_edit_field(old(self)@, |s: Seq<char>| s.push(c)),
    {
        if self.field_index == 1 {
            push_char(&mut self.manual_team_id, c);
        } else if self.field_index == 2 {
            push_char(&mut self.in_progress_state, c);
        } else if self.field_index == 3 {
            push_char(&mut self.done_state, c);
        }
        proof {
            assert(self@ =~= pm_edit_field(old(self)@, |s: Seq<char>| s.push(c)));
        }
    }

    /// Erases the last character of the text field of the current row.
    pub fn backspace(&mut self)
        ensures
            final(self)@ == pm_edit_field(old(self)@, |s: Seq<char>| drop_last_char(s)),
    {
        if self.field_index == 1 {
            pop_char(&mut self.manual_team_id);
        } else if self.field_index == 2 {
            pop_char(&mut self.in_progress_state);
        } else if self.field_index == 3 {
            pop_char(&mut self.done_state);
        }
        proof {
            assert(self@ =~= pm_edit_field(old(self)@, |s: Seq<char>| drop_last_char(s)));
        }
    }

    /// Pastes `text` into the text field of the current row.
    pub fn paste(&mut self, text: &str)
        ensures
            final(self)@ == pm_edit_field(old(self)@, |s: Seq<char>| s + text@),
    {
        if self.field_index == 1 {
            append_text(&mut self.manual_team_id, text);
        } else if self.field_index == 2 {
            append_text(&mut self.in_progress_state, text);
        } else if self.field_index == 3 {
            append_text(&mut self.done_state, text);
        }
        proof {
            assert(self@ =~= pm_edit_field(old(self)@, |s: Seq<char>| s + text@));
        }
    }

    /// Takes a loaded list of entries; the first becomes the chosen one.
    pub fn teams_loaded(&mut self, teams: Vec<(String, String, String)>)
        ensures
            final(self)@ == pm_teams_loaded(old(self)@, entries(teams@)),
    {
        self.teams = teams;
        self.teams_loading = false;
        self.selected_team_index = 0;
        proof {
            assert(self@ =~= pm_teams_loaded(old(self)@, entries(teams@)));
        }
    }

    /// Takes the loaded Notion databases and their parent pages; the parent
    /// pages are offered, the first chosen.
    pub fn notion_databases_loaded(
        &mut self,
        databases: Vec<(String, String, String)>,
        parent_pages: Vec<(String, String, String)>,
    )
        ensures
            final(self)@ == pm_notion_loaded(old(self)@, entries(databases@), entries(parent_pages@)),
    {
        self.all_databases = databases;
        self.teams = parent_pages;
        self.teams_loading = false;
        self.selected_team_index = 0;
        proof {
            assert(self@ =~= pm_notion_loaded(old(self)@, entries(databases@), entries(parent_pages@)));
        }
    }

    /// Records that loading failed with `message`.
    pub fn load_failed(&mut self, message: String)
        ensures
            final(self)@ == pm_load_failed(old(self)@, message@),
    {
        self.teams_loading = false;
        self.error = Some(message);
        proof {
            assert(self@ =~= pm_load_failed(old(self)@, message@));
        }
    }

    /// Completes the dialog: returns what it chose and closes it.
    pub fn complete(&mut self) -> (r: (PmSetupChoice, PmSetupEffect))
        ensures
            r.0@ == pm_choice(old(self)@),
            (final(self)@, r.1@) == pm_closed(old(self)@),
    {
        let selected = self.selected_team_index < self.teams.len();
        let id = if self.manual_team_id.unicode_len() > 0 {
            Some(self.manual_team_id.clone())
        } else if selected {
            Some(self.teams[self.selected_team_index].0.clone())
        } else {
            None
        };
        let name = if selected {
            self.teams[self.selected_team_index].1.clone()
        } else {
            String::from_str("manual")
        };
        proof {
            reveal_strlit("manual");
        }
        let in_progress_state = if self.in_progress_state.unicode_len() > 0 {
            Some(self.in_progress_state.clone())
        } else {
            None
        };
        let done_state = if self.done_state.unicode_len() > 0 {
            Some(self.done_state.clone())
        } else {
            None
        };
        let choice = PmSetupChoice {
            id,
            name,
            workspace_gid: copy_opt_text(&self.selected_workspace_gid),
            in_progress_state,
            done_state,
        };
        proof {
            assert(choice@ == pm_choice(old(self)@));
        }
        let effect = self.close();
        (choice, effect)
    }
}

/// The dialog after typing the characters of `text` one by one.
pub open spec fn pm_typed(d: PmSetupDialogView, text: Seq<char>) -> PmSetupDialogView
    decreases text.len(),
{
    if text.len() == 0 {
        d
    } else {
        pm_edit_field(pm_typed(d, text.drop_last()), |s: Seq<char>| s.push(text.last()))
    }
}

/// Stepping forward and then back returns to the step the dialog was on,
/// wherever stepping forward moved it (the project step is reached only by
/// providers that have one).
pub proof fn lemma_pm_step_forward_and_back(d: PmSetupDialogView, provider: ProjectMgmtProvider, token: bool)
    requires
        d.step != PmSetupStep::Advanced,
        d.step == PmSetupStep::Project ==> has_project_step(provider),
        d.step == PmSetupStep::Workspace && has_project_step(provider) ==> d.selected_team_index < d.teams.len(),
    ensures
        pm_next_step(d, provider, token).0.step != d.step,
        pm_prev_step(pm_next_step(d, provider, token).0, provider, token).0.step == d.step,
{
}

/// Erasing a character just typed gives back the dialog as it was.
pub proof fn lemma_pm_type_then_erase(d: PmSetupDialogView, c: char)
    ensures
        pm_edit_field(pm_edit_field(d, |s: Seq<char>| s.push(c)), |s: Seq<char>| drop_last_char(s)) == d,
{
    assert(d.manual_team_id.push(c).drop_last() =~= d.manual_team_id);
    assert(d.in_progress_state.push(c).drop_last() =~= d.in_progress_state);
    assert(d.done_state.push(c).drop_last() =~= d.done_state);
    assert(pm_edit_field(pm_edit_field(d, |s: Seq<char>| s.push(c)), |s: Seq<char>| drop_last_char(s)) =~= d);
}

/// Pasting a text does what typing its characters one by one does.
pub proof fn lemma_pm_paste_is_typing(d: PmSetupDialogView, text: Seq<char>)
    ensures
        pm_edit_field(d, |s: Seq<char>| s + text) == pm_typed(d, text),
    decreases text.len(),
{
    if text.len() == 0 {
        assert(d.manual_team_id + text =~= d.manual_team_id);
        assert(d.in_progress_state + text =~= d.in_progress_state);
        assert(d.done_state + text =~= d.done_state);
        assert(pm_edit_field(d, |s: Seq<char>| s + text) =~= d);
    } else {
        lemma_pm_paste_is_typing(d, text.drop_last());
        let front = text.drop_last();
        assert(d.manual_team_id + text =~= (d.manual_team_id + front).push(text.last()));
        assert(d.in_progress_state + text =~= (d.in_progress_state + front).push(text.last()));
        assert(d.done_state + text =~= (d.done_state + front).push(text.last()));
        assert(pm_edit_field(d, |s: Seq<char>| s + text) =~= pm_edit_field(
            pm_edit_field(d, |s: Seq<char>| s + front),
            |s: Seq<char>| s.push(text.last()),
        ));
    }
}

/// On the first row, opening the dropdown and confirming at once keeps the
/// chosen entry.
pub proof fn lemma_pm_dropdown_open_confirm_keeps_choice(d: PmSetupDialogView)
    requires
        d.field_index == 0,
    ensures
        pm_dropdown_confirmed(pm_toggled_dropdown(d)).selected_team_index == d.selected_team_index,
        !pm_dropdown_confirmed(pm_toggled_dropdown(d)).dropdown_open,
{
}

/// A dialog opened from the settings screen goes back to it when closed.
pub proof fn lemma_pm_open_then_close(d: PmSetupDialogView)
    ensures
        !pm_closed(pm_opened(d)).0.active,
        pm_closed(pm_opened(d)).1 == PmSetupEffectView::ReturnToSettings,
{
}

/// Moving down and then up, in the field rows or in the dropdown, comes back
/// to the same place wherever there was a place below.
pub proof fn lemma_pm_down_then_up(d: PmSetupDialogView)
    ensures
        d.field_index < pm_last_field(d) ==> pm_navigated_prev(pm_navigated_next(d)) == d,
        d.dropdown_index + 1 < d.teams.len() ==> pm_dropdown_moved_prev(pm_dropdown_moved_next(d)) == d,
{
    assert(d.field_index < pm_last_field(d) ==> pm_navigated_prev(pm_navigated_next(d)) =~= d);
    assert(d.dropdown_index + 1 < d.teams.len() ==> pm_dropdown_moved_prev(pm_dropdown_moved_next(d)) =~= d);
}

} // verus!
