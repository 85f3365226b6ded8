//! The top-level key handler of the front end: it routes a key press to the
//! open dialog, overlay or input mode, or to the configured key bindings.
use vstd::prelude::*;
use crate::ids::AgentId;
use crate::action::{Action, ActionView, InputMode};
use crate::agent::texts;
use crate::keys::{handle_input_mode_key, input_mode_action, keybind_matches, matches_keybind, InputState, KeyCode, KeyInput, Keybind};
use crate::setup_keys::{
    git_setup_result, handle_git_setup_key, handle_pm_setup_key, opt_action, pm_setup_action, GitProvider,
    GitSetupState, KeyResult, KeyResultView, PmSetupState, ProjectMgmtProvider,
};
use crate::settings_keys::{handle_settings_key, settings_action, SettingsKeyState};

verus! {

/// The configured key bindings.
#[derive(Debug)]
pub struct Keybinds {
    pub quit: Keybind,
    pub nav_down: Keybind,
    pub nav_up: Keybind,
    pub nav_first: Keybind,
    pub nav_last: Keybind,
    pub resume: Keybind,
    pub refresh_task_list: Keybind,
    pub yank: Keybind,
    pub set_note: Keybind,
    pub new_agent: Keybind,
    pub delete_agent: Keybind,
    pub attach: Keybind,
    pub copy_path: Keybind,
    pub merge: Keybind,
    pub push: Keybind,
    pub fetch: Keybind,
    pub summary: Keybind,
    pub toggle_diff: Keybind,
    pub toggle_logs: Keybind,
    pub toggle_settings: Keybind,
    pub open_mr: Keybind,
    pub open_editor: Keybind,
    pub asana_assign: Keybind,
    pub asana_open: Keybind,
    pub refresh_all: Keybind,
    pub toggle_help: Keybind,
    pub show_tasks: Keybind,
    pub debug_status: Keybind,
    pub toggle_columns: Keybind,
}

/// The tabs of the preview panel.
#[derive(Debug, Clone, Copy, PartialEq, Eq, Structural)]
pub enum PreviewTab {
    Preview,
    DevServer,
    GitDiff,
}

/// The steps of the project-management status debug overlay.
#[derive(Debug, Clone, Copy, PartialEq, Eq, Structural)]
pub enum PmStatusDebugStep {
    SelectProvider,
    ShowPayload,
}

/// The steps of the global setup wizard that the key handler tells apart.
#[derive(Debug, Clone, Copy, PartialEq, Eq, Structural)]
pub enum GlobalSetupStep {
    WorktreeLocation,
    AgentSettings,
}

/// What the key handler reads of the global setup wizard.
#[derive(Debug, Clone, Copy, PartialEq, Eq, Structural)]
pub struct GlobalSetupWizard {
    pub dropdown_open: bool,
    pub step: GlobalSetupStep,
}

/// What the key handler reads of the project setup wizard.
#[derive(Debug, Clone, Copy, PartialEq, Eq, Structural)]
pub struct ProjectSetupWizard {
    pub file_browser_active: bool,
    pub git_provider_dropdown_open: bool,
    pub pm_provider_dropdown_open: bool,
}

/// What the top-level key handler reads of the application state. A dialog,
/// overlay or wizard that is shown is `Some`.
#[derive(Debug)]
pub struct KeyContext {
    pub settings_active: bool,
    pub settings: SettingsKeyState,
    pub pm_setup: Option<PmSetupState>,
    pub pm_provider: ProjectMgmtProvider,
    pub git_setup: Option<GitSetupState>,
    pub git_provider: GitProvider,
    pub gitlab_token_present: bool,
    pub task_reassignment_warning: bool,
    pub devserver_warning: bool,
    pub input: InputState,
    pub show_help: bool,
    pub show_status_debug: bool,
    pub pm_status_debug: Option<PmStatusDebugStep>,
    pub column_selector_active: bool,
    pub global_setup: Option<GlobalSetupWizard>,
    pub tutorial_on_last_step: Option<bool>,
    pub project_setup: Option<ProjectSetupWizard>,
    pub keybinds: Keybinds,
    pub selected_agent_paused: bool,
    pub selected_agent_task_linked: bool,
    pub preview_tab: PreviewTab,
}

/// Whether a key press matches a configured binding.
pub open spec fn hits(key: KeyInput, kb: Keybind) -> bool {
    keybind_matches(key, kb.key@, texts(kb.modifiers@))
}

/// An optional action as a key result.
pub open spec fn act(o: Option<ActionView>) -> KeyResultView {
    match o {
        Some(a) => KeyResultView::Act(a),
        None => KeyResultView::Ignore,
    }
}

/// `make(id)` for the selected agent, if one is selected.
pub open spec fn for_selected(sel: Option<AgentId>, make: spec_fn(AgentId) -> ActionView) -> Option<ActionView> {
    match sel {
        Some(id) => Some(make(id)),
        None => None,
    }
}

/// The result of a key press when no dialog, overlay or input mode takes it:
/// the configured bindings in order, then the fixed keys.
pub open spec fn binding_action(key: KeyInput, ctx: KeyContext) -> Option<ActionView> {
    let kb = ctx.keybinds;
    let c = key.code;
    let sel = ctx.input.selected_agent_id;
    let paused = ctx.selected_agent_paused;
    if c == KeyCode::Char('c') && key.ctrl {
        Some(ActionView::Quit)
    } else if hits(key, kb.quit) {
        Some(ActionView::Quit)
    } else if hits(key, kb.nav_down) {
        Some(ActionView::SelectNext)
    } else if hits(key, kb.nav_up) {
        Some(ActionView::SelectPrevious)
    } else if hits(key, kb.nav_first) {
        Some(ActionView::SelectFirst)
    } else if hits(key, kb.nav_last) {
        Some(ActionView::SelectLast)
    } else if paused && hits(key, kb.resume) {
        for_selected(sel, |id: AgentId| ActionView::ResumeAgent { id })
    } else if !paused && hits(key, kb.refresh_task_list) && sel is Some {
        Some(ActionView::RefreshSelected)
    } else if hits(key, kb.yank) {
        for_selected(sel, |id: AgentId| ActionView::CopyAgentName { id })
    } else if hits(key, kb.set_note) {
        Some(ActionView::EnterInputMode(InputMode::SetNote))
    } else if hits(key, kb.new_agent) {
        Some(ActionView::EnterInputMode(InputMode::NewAgent))
    } else if hits(key, kb.delete_agent) {
        Some(ActionView::EnterInputMode(
            if ctx.selected_agent_task_linked { InputMode::ConfirmDeleteTask } else { InputMode::ConfirmDelete },
        ))
    } else if hits(key, kb.attach) {
        match ctx.preview_tab {
            PreviewTab::Preview => for_selected(sel, |id: AgentId| ActionView::AttachToAgent { id }),
            PreviewTab::DevServer => for_selected(sel, |id: AgentId| ActionView::AttachToDevServer { agent_id: id }),
            PreviewTab::GitDiff => None,
        }
    } else if hits(key, kb.copy_path) {
        for_selected(sel, |id: AgentId| ActionView::CopyWorktreePath { id })
    } else if hits(key, kb.merge) && sel is Some {
        Some(ActionView::EnterInputMode(InputMode::ConfirmMerge))
    } else if hits(key, kb.push) && sel is Some {
        Some(ActionView::EnterInputMode(InputMode::ConfirmPush))
    } else if hits(key, kb.fetch) {
        for_selected(sel, |id: AgentId| ActionView::FetchRemote { id })
    } else if hits(key, kb.summary) && !key.ctrl {
        for_selected(sel, |id: AgentId| ActionView::RequestSummary { id })
    } else if hits(key, kb.toggle_diff) {
        Some(ActionView::ToggleDiffView)
    } else if hits(key, kb.toggle_logs) {
        Some(ActionView::ToggleLogs)
    } else if hits(key, kb.toggle_settings) && !key.ctrl {
        Some(ActionView::ToggleSettings)
    } else if hits(key, kb.open_mr) {
        match ctx.git_provider {
            GitProvider::GitLab => for_selected(sel, |id: AgentId| ActionView::OpenMrInBrowser { id }),
            GitProvider::GitHub => for_selected(sel, |id: AgentId| ActionView::OpenPrInBrowser { id }),
            GitProvider::Codeberg => for_selected(sel, |id: AgentId| ActionView::OpenCodebergPrInBrowser { id }),
        }
    } else if hits(key, kb.open_editor) {
        for_selected(sel, |id: AgentId| ActionView::OpenInEditor { id })
    } else if hits(key, kb.asana_assign) {
        Some(ActionView::EnterInputMode(InputMode::AssignProjectTask))
    } else if hits(key, kb.asana_open) {
        for_selected(sel, |id: AgentId| ActionView::OpenProjectTaskInBrowser { id })
    } else if hits(key, kb.refresh_all) {
        Some(ActionView::RefreshAll)
    } else if hits(key, kb.toggle_help) {
        Some(ActionView::ToggleHelp)
    } else if hits(key, kb.show_tasks) {
        Some(ActionView::EnterInputMode(InputMode::BrowseTasks))
    } else if hits(key, kb.debug_status) {
        Some(ActionView::ToggleStatusDebug)
    } else if hits(key, kb.toggle_columns) {
        Some(ActionView::ToggleColumnSelector)
    } else if c == KeyCode::Char('Q') {
        Some(ActionView::OpenPmStatusDebug)
    } else if c == KeyCode::Char('T') {
        if ctx.selected_agent_task_linked {
            for_selected(sel, |id: AgentId| ActionView::OpenTaskStatusDropdown { id })
        } else {
            None
        }
    } else if c == KeyCode::Esc {
        Some(ActionView::ClearError)
    } else if c == KeyCode::Tab {
        Some(ActionView::NextPreviewTab)
    } else if c == KeyCode::BackTab {
        Some(ActionView::PrevPreviewTab)
    } else if c == KeyCode::Char('s') && key.ctrl {
        Some(ActionView::RequestStartDevServer)
    } else if c == KeyCode::Char('S') && key.ctrl {
        Some(ActionView::RestartDevServer)
    } else if c == KeyCode::Char('C') && ctx.preview_tab == PreviewTab::DevServer {
        Some(ActionView::ClearDevServerLogs)
    } else if c == KeyCode::Char('O') && ctx.preview_tab == PreviewTab::DevServer {
        Some(ActionView::OpenDevServerInBrowser)
    } else if c == KeyCode::PageUp {
        Some(ActionView::ScrollPreviewUp)
    } else if c == KeyCode::PageDown {
        Some(ActionView::ScrollPreviewDown)
    } else {
        None
    }
}

/// The action for a key in the global setup wizard.
pub open spec fn global_setup_action(c: KeyCode, w: GlobalSetupWizard) -> Option<ActionView> {
    if c == KeyCode::Esc {
        if w.dropdown_open {
            Some(ActionView::GlobalSetupToggleDropdown)
        } else if w.step == GlobalSetupStep::AgentSettings {
            Some(ActionView::GlobalSetupPrevStep)
        } else {
            None
        }
    } else if c == KeyCode::Up || c == KeyCode::Char('k') {
        Some(if w.dropdown_open {
            ActionView::GlobalSetupDropdownPrev
        } else if w.step == GlobalSetupStep::WorktreeLocation {
            ActionView::GlobalSetupSelectPrev
        } else {
            ActionView::GlobalSetupNavigateUp
        })
    } else if c == KeyCode::Down || c == KeyCode::Char('j') {
        Some(if w.dropdown_open {
            ActionView::GlobalSetupDropdownNext
        } else if w.step == GlobalSetupStep::WorktreeLocation {
            ActionView::GlobalSetupSelectNext
        } else {
            ActionView::GlobalSetupNavigateDown
        })
    } else if c == KeyCode::Enter {
        Some(if w.dropdown_open {
            ActionView::GlobalSetupConfirmDropdown
        } else if w.step == GlobalSetupStep::AgentSettings {
            ActionView::GlobalSetupToggleDropdown
        } else {
            ActionView::GlobalSetupNextStep
        })
    } else if c == KeyCode::Char('c') {
        if w.step == GlobalSetupStep::AgentSettings && !w.dropdown_open {
            Some(ActionView::GlobalSetupComplete)
        } else {
            None
        }
    } else {
        None
    }
}

/// The action for a key in the project setup wizard.
pub open spec fn project_setup_action(c: KeyCode, w: ProjectSetupWizard) -> Option<ActionView> {
    let git = w.git_provider_dropdown_open;
    let pm = w.pm_provider_dropdown_open;
    if w.file_browser_active {
        if c == KeyCode::Esc {
            Some(ActionView::ProjectSetupCloseFileBrowser)
        } else if c == KeyCode::Enter || c == KeyCode::Char(' ') {
            Some(ActionView::FileBrowserToggle)
        } else if c == KeyCode::Up || c == KeyCode::Char('k') {
            Some(ActionView::FileBrowserSelectPrev)
        } else if c == KeyCode::Down || c == KeyCode::Char('j') {
            Some(ActionView::FileBrowserSelectNext)
        } else if c == KeyCode::Right {
            Some(ActionView::FileBrowserEnterDir)
        } else if c == KeyCode::Left {
            Some(ActionView::FileBrowserGoParent)
        } else {
            None
        }
    } else if c == KeyCode::Esc {
        Some(if git || pm { ActionView::ProjectSetupToggleDropdown } else { ActionView::ProjectSetupSkip })
    } else if c == KeyCode::Up || c == KeyCode::Char('k') {
        Some(if git {
            ActionView::ProjectSetupDropdownPrev
        } else if pm {
            ActionView::ProjectSetupPmDropdownPrev
        } else {
            ActionView::ProjectSetupNavigatePrev
        })
    } else if c == KeyCode::Down || c == KeyCode::Char('j') {
        Some(if git {
            ActionView::ProjectSetupDropdownNext
        } else if pm {
            ActionView::ProjectSetupPmDropdownNext
        } else {
            ActionView::ProjectSetupNavigateNext
        })
    } else if c == KeyCode::Enter {
        Some(if git {
            ActionView::ProjectSetupConfirmDropdown
        } else if pm {
            ActionView::ProjectSetupConfirmPmDropdown
        } else {
            ActionView::ProjectSetupSelect
        })
    } else if c == KeyCode::Char('c') {
        Some(ActionView::ProjectSetupComplete)
    } else if c == KeyCode::Char('l') {
        if git {
            Some(ActionView::ProjectSetupDropdownNext)
        } else if pm {
            Some(ActionView::ProjectSetupPmDropdownNext)
        } else {
            None
        }
    } else if c == KeyCode::Char('h') {
        if git {
            Some(ActionView::ProjectSetupDropdownPrev)
        } else if pm {
            Some(ActionView::ProjectSetupPmDropdownPrev)
        } else {
            None
        }
    } else {
        None
    }
}

/// The result of a key press: the first of the settings screen, the setup
/// dialogs, the warnings, input modes, overlays and wizards that is open
/// takes it; otherwise the key bindings do.
pub open spec fn key_event_result(key: KeyInput, ctx: KeyContext) -> KeyResultView {
    let c = key.code;
    let inp = ctx.input;
    if ctx.settings_active {
        act(settings_action(key, ctx.settings))
    } else if ctx.pm_setup is Some {
        act(pm_setup_action(key, ctx.pm_setup->0, ctx.pm_provider))
    } else if ctx.git_setup is Some {
        git_setup_result(key, ctx.git_setup->0, ctx.git_provider, ctx.gitlab_token_present)
    } else if ctx.task_reassignment_warning {
        act(
            if c == KeyCode::Char('y') || c == KeyCode::Char('Y') {
                Some(ActionView::ConfirmTaskReassignment)
            } else if c == KeyCode::Char('n') || c == KeyCode::Esc {
                Some(ActionView::DismissTaskReassignmentWarning)
            } else {
                None
            },
        )
    } else if ctx.devserver_warning {
        act(
            if c == KeyCode::Char('y') || c == KeyCode::Char('Y') {
                Some(ActionView::ConfirmStartDevServer)
            } else if c == KeyCode::Char('n') || c == KeyCode::Esc {
                Some(ActionView::DismissDevServerWarning)
            } else {
                None
            },
        )
    } else if inp.input_mode is Some {
        act(
            input_mode_action(
                c,
                inp.input_mode,
                inp.selected_agent_id,
                inp.task_list_filter_open,
                texts(inp.task_list_status_options@),
                inp.task_list_filter_selected as int,
                inp.input_buffer@,
            ),
        )
    } else if ctx.show_help {
        KeyResultView::Act(ActionView::ToggleHelp)
    } else if ctx.show_status_debug && (hits(key, ctx.keybinds.debug_status) || c == KeyCode::Esc) {
        KeyResultView::Act(ActionView::ToggleStatusDebug)
    } else if ctx.pm_status_debug is Some {
        let step = ctx.pm_status_debug->0;
        act(
            if c == KeyCode::Esc {
                Some(ActionView::ClosePmStatusDebug)
            } else if c == KeyCode::Char('j') || c == KeyCode::Down {
                if step == PmStatusDebugStep::SelectProvider { Some(ActionView::PmStatusDebugSelectNext) } else { None }
            } else if c == KeyCode::Char('k') || c == KeyCode::Up {
                if step == PmStatusDebugStep::SelectProvider { Some(ActionView::PmStatusDebugSelectPrev) } else { None }
            } else if c == KeyCode::Enter {
                if step == PmStatusDebugStep::SelectProvider { Some(ActionView::PmStatusDebugFetchSelected) } else { None }
            } else if c == KeyCode::Char('c') {
                if step == PmStatusDebugStep::ShowPayload { Some(ActionView::PmStatusDebugCopyPayload) } else { None }
            } else {
                None
            },
        )
    } else if ctx.column_selector_active {
        act(
            if c == KeyCode::Esc {
                Some(ActionView::ColumnSelectorClose)
            } else if c == KeyCode::Char(' ') || c == KeyCode::Enter {
                Some(ActionView::ColumnSelectorToggle)
            } else if c == KeyCode::Char('j') || c == KeyCode::Down {
                Some(ActionView::ColumnSelectorSelectNext)
            } else if c == KeyCode::Char('k') || c == KeyCode::Up {
                Some(ActionView::ColumnSelectorSelectPrev)
            } else {
                None
            },
        )
    } else if ctx.global_setup is Some {
        act(global_setup_action(c, ctx.global_setup->0))
    } else if ctx.tutorial_on_last_step is Some {
        let last = ctx.tutorial_on_last_step->0;
        act(
            if c == KeyCode::Esc || c == KeyCode::Char('q') {
                Some(ActionView::TutorialSkip)
            } else if c == KeyCode::Enter || c == KeyCode::Right || c == KeyCode::Char('l') {
                Some(if last { ActionView::TutorialComplete } else { ActionView::TutorialNextStep })
            } else if c == KeyCode::Left || c == KeyCode::Char('h') {
                Some(ActionView::TutorialPrevStep)
            } else {
                None
            },
        )
    } else if ctx.project_setup is Some {
        act(project_setup_action(c, ctx.project_setup->0))
    } else {
        act(binding_action(key, ctx))
    }
}

/// Whether a key press hits the review-link binding and no other
/// configured binding, and is not Ctrl+C.
pub open spec fn hits_only_open_mr(key: KeyInput, kb: Keybinds) -> bool {
    &&& !(key.code == KeyCode::Char('c') && key.ctrl)
    &&& hits(key, kb.open_mr)
    &&& !hits(key, kb.quit)
    &&& !hits(key, kb.nav_down)
    &&& !hits(key, kb.nav_up)
    &&& !hits(key, kb.nav_first)
    &&& !hits(key, kb.nav_last)
    &&& !hits(key, kb.resume)
    &&& !hits(key, kb.refresh_task_list)
    &&& !hits(key, kb.yank)
    &&& !hits(key, kb.set_note)
    &&& !hits(key, kb.new_agent)
    &&& !hits(key, kb.delete_agent)
    &&& !hits(key, kb.attach)
    &&& !hits(key, kb.copy_path)
    &&& !hits(key, kb.merge)
    &&& !hits(key, kb.push)
    &&& !hits(key, kb.fetch)
    &&& !hits(key, kb.summary)
    &&& !hits(key, kb.toggle_diff)
    &&& !hits(key, kb.toggle_logs)
    &&& !hits(key, kb.toggle_settings)
    &&& !hits(key, kb.open_editor)
    &&& !hits(key, kb.asana_assign)
    &&& !hits(key, kb.asana_open)
    &&& !hits(key, kb.refresh_all)
    &&& !hits(key, kb.toggle_help)
    &&& !hits(key, kb.show_tasks)
    &&& !hits(key, kb.debug_status)
    &&& !hits(key, kb.toggle_columns)
}

/// The review-link binding opens the selected agent's review in the form
/// the project's git provider uses: a merge request on GitLab, a pull
/// request on GitHub, a Codeberg pull request on Codeberg; with no agent
/// selected the key does nothing.
pub proof fn lemma_open_mr_follows_provider(key: KeyInput, ctx: KeyContext)
    requires
        main_view(ctx),
        hits_only_open_mr(key, ctx.keybinds),
    ensures
        key_event_result(key, ctx) == (match ctx.input.selected_agent_id {
            Some(id) => KeyResultView::Act(match ctx.git_provider {
                GitProvider::GitLab => ActionView::OpenMrInBrowser { id },
                GitProvider::GitHub => ActionView::OpenPrInBrowser { id },
                GitProvider::Codeberg => ActionView::OpenCodebergPrInBrowser { id },
            }),
            None => KeyResultView::Ignore,
        }),
{
}

/// Whether no dialog, warning, prompt or overlay takes the keys.
pub open spec fn main_view(ctx: KeyContext) -> bool {
    &&& !ctx.settings_active
    &&& ctx.pm_setup is None
    &&& ctx.git_setup is None
    &&& !ctx.task_reassignment_warning
    &&& !ctx.devserver_warning
    &&& ctx.input.input_mode is None
    &&& !ctx.show_help
    &&& !ctx.show_status_debug
    &&& ctx.pm_status_debug is None
    &&& !ctx.column_selector_active
    &&& ctx.global_setup is None
    &&& ctx.tutorial_on_last_step is None
    &&& ctx.project_setup is None
}

/// Ctrl+C quits from the main view, whatever the key bindings say.
pub proof fn lemma_ctrl_c_quits(key: KeyInput, ctx: KeyContext)
    requires
        main_view(ctx),
        key.code == KeyCode::Char('c'),
        key.ctrl,
    ensures
        key_event_result(key, ctx) == KeyResultView::Act(ActionView::Quit),
{
}

/// While a yes/no warning is up (and no dialog above it), `y` or `Y`
/// confirms, `n` or Esc dismisses, and every other key is ignored.
pub proof fn lemma_warnings_answer_yes_or_no(key: KeyInput, ctx: KeyContext)
    requires
        !ctx.settings_active,
        ctx.pm_setup is None,
        ctx.git_setup is None,
        ctx.task_reassignment_warning || ctx.devserver_warning,
    ensures
        (key.code == KeyCode::Char('y') || key.code == KeyCode::Char('Y')) ==> key_event_result(key, ctx)
            == KeyResultView::Act(
            if ctx.task_reassignment_warning {
                ActionView::ConfirmTaskReassignment
            } else {
                ActionView::ConfirmStartDevServer
            },
        ),
        (key.code == KeyCode::Char('n') || key.code == KeyCode::Esc) ==> key_event_result(key, ctx)
            == KeyResultView::Act(
            if ctx.task_reassignment_warning {
                ActionView::DismissTaskReassignmentWarning
            } else {
                ActionView::DismissDevServerWarning
            },
        ),
        !(key.code == KeyCode::Char('y') || key.code == KeyCode::Char('Y') || key.code == KeyCode::Char('n')
            || key.code == KeyCode::Esc) ==> key_event_result(key, ctx) == KeyResultView::Ignore,
{
}

/// The help overlay takes every key and closes, unless a dialog, warning or
/// prompt is above it.
pub proof fn lemma_help_closes_on_any_key(key: KeyInput, ctx: KeyContext)
    requires
        !ctx.settings_active,
        ctx.pm_setup is None,
        ctx.git_setup is None,
        !ctx.task_reassignment_warning,
        !ctx.devserver_warning,
        ctx.input.input_mode is None,
        ctx.show_help,
    ensures
        key_event_result(key, ctx) == KeyResultView::Act(ActionView::ToggleHelp),
{
}

/// An optional action as a key result.
fn as_result(o: Option<Action>) -> (r: KeyResult)
    ensures
        r@ == act(opt_action(o)),
{
    match o {
        Some(a) => KeyResult::Act(a),
        None => KeyResult::Ignore,
    }
}

} // verus!

verus! {

fn global_setup_key(c: KeyCode, w: GlobalSetupWizard) -> (r: Option<Action>)
    ensures
        opt_action(r) == global_setup_action(c, w),
{
    match c {
        KeyCode::Esc => {
            if w.dropdown_open {
                Some(Action::GlobalSetupToggleDropdown)
            } else if w.step == GlobalSetupStep::AgentSettings {
                Some(Action::GlobalSetupPrevStep)
            } else {
                None
            }
        },
        KeyCode::Up | KeyCode::Char('k') => {
            if w.dropdown_open {
                Some(Action::GlobalSetupDropdownPrev)
            } else if w.step == GlobalSetupStep::WorktreeLocation {
                Some(Action::GlobalSetupSelectPrev)
            } else {
                Some(Action::GlobalSetupNavigateUp)
            }
        },
        KeyCode::Down | KeyCode::Char('j') => {
            if w.dropdown_open {
                Some(Action::GlobalSetupDropdownNext)
            } else if w.step == GlobalSetupStep::WorktreeLocation {
                Some(Action::GlobalSetupSelectNext)
            } else {
                Some(Action::GlobalSetupNavigateDown)
            }
        },
        KeyCode::Enter => {
            if w.dropdown_open {
                Some(Action::GlobalSetupConfirmDropdown)
            } else if w.step == GlobalSetupStep::AgentSettings {
                Some(Action::GlobalSetupToggleDropdown)
            } else {
                Some(Action::GlobalSetupNextStep)
            }
        },
        KeyCode::Char('c') => {
            if w.step == GlobalSetupStep::AgentSettings && !w.dropdown_open {
                Some(Action::GlobalSetupComplete)
            } else {
                None
            }
        },
        _ => None,
    }
}

fn project_setup_key(c: KeyCode, w: ProjectSetupWizard) -> (r: Option<Action>)
    ensures
        opt_action(r) == project_setup_action(c, w),
{
    if w.file_browser_active {
        return match c {
            KeyCode::Esc => Some(Action::ProjectSetupCloseFileBrowser),
            KeyCode::Enter | KeyCode::Char(' ') => Some(Action::FileBrowserToggle),
            KeyCode::Up | KeyCode::Char('k') => Some(Action::FileBrowserSelectPrev),
            KeyCode::Down | KeyCode::Char('j') => Some(Action::FileBrowserSelectNext),
            KeyCode::Right => Some(Action::FileBrowserEnterDir),
            KeyCode::Left => Some(Action::FileBrowserGoParent),
            _ => None,
        };
    }
    match c {
        KeyCode::Esc => {
            if w.git_provider_dropdown_open || w.pm_provider_dropdown_open {
                Some(Action::ProjectSetupToggleDropdown)
            } else {
                Some(Action::ProjectSetupSkip)
            }
        },
        KeyCode::Up | KeyCode::Char('k') => {
            if w.git_provider_dropdown_open {
                Some(Action::ProjectSetupDropdownPrev)
            } else if w.pm_provider_dropdown_open {
                Some(Action::ProjectSetupPmDropdownPrev)
            } else {
                Some(Action::ProjectSetupNavigatePrev)
            }
        },
        KeyCode::Down | KeyCode::Char('j') => {
            if w.git_provider_dropdown_open {
                Some(Action::ProjectSetupDropdownNext)
            } else if w.pm_provider_dropdown_open {
                Some(Action::ProjectSetupPmDropdownNext)
            } else {
                Some(Action::ProjectSetupNavigateNext)
            }
        },
        KeyCode::Enter => {
            if w.git_provider_dropdown_open {
                Some(Action::ProjectSetupConfirmDropdown)
            } else if w.pm_provider_dropdown_open {
                Some(Action::ProjectSetupConfirmPmDropdown)
            } else {
                Some(Action::ProjectSetupSelect)
            }
        },
        KeyCode::Char('c') => Some(Action::ProjectSetupComplete),
        KeyCode::Char('l') => {
            if w.git_provider_dropdown_open {
                Some(Action::ProjectSetupDropdownNext)
            } else if w.pm_provider_dropdown_open {
                Some(Action::ProjectSetupPmDropdownNext)
            } else {
                None
            }
        },
        KeyCode::Char('h') => {
            if w.git_provider_dropdown_open {
                Some(Action::ProjectSetupDropdownPrev)
            } else if w.pm_provider_dropdown_open {
                Some(Action::ProjectSetupPmDropdownPrev)
            } else {
                None
            }
        },
        _ => None,
    }
}

fn binding_key(key: KeyInput, ctx: &KeyContext) -> (r: Option<Action>)
    ensures
        opt_action(r) == binding_action(key, *ctx),
{
    let kb = &ctx.keybinds;
    let sel = ctx.input.selected_agent_id;
    if key.code == KeyCode::Char('c') && key.ctrl {
        return Some(Action::Quit);
    }
    if matches_keybind(key, &kb.quit) {
        return Some(Action::Quit);
    }
    if matches_keybind(key, &kb.nav_down) {
        return Some(Action::SelectNext);
    }
    if matches_keybind(key, &kb.nav_up) {
        return Some(Action::SelectPrevious);
    }
    if matches_keybind(key, &kb.nav_first) {
        return Some(Action::SelectFirst);
    }
    if matches_keybind(key, &kb.nav_last) {
        return Some(Action::SelectLast);
    }
    let is_paused = ctx.selected_agent_paused;
    if is_paused && matches_keybind(key, &kb.resume) {
        return match sel {
            Some(id) => Some(Action::ResumeAgent { id }),
            None => None,
        };
    }
    if !is_paused && matches_keybind(key, &kb.refresh_task_list) && sel.is_some() {
        return Some(Action::RefreshSelected);
    }
    if matches_keybind(key, &kb.yank) {
        return match sel {
            Some(id) => Some(Action::CopyAgentName { id }),
            None => None,
        };
    }
    if matches_keybind(key, &kb.set_note) {
        return Some(Action::EnterInputMode(InputMode::SetNote));
    }
    if matches_keybind(key, &kb.new_agent) {
        return Some(Action::EnterInputMode(InputMode::NewAgent));
    }
    if matches_keybind(key, &kb.delete_agent) {
        return Some(
            if ctx.selected_agent_task_linked {
                Action::EnterInputMode(InputMode::ConfirmDeleteTask)
            } else {
                Action::EnterInputMode(InputMode::ConfirmDelete)
            },
        );
    }
    if matches_keybind(key, &kb.attach) {
        return match ctx.preview_tab {
            PreviewTab::Preview => match sel {
                Some(id) => Some(Action::AttachToAgent { id }),
                None => None,
            },
            PreviewTab::DevServer => match sel {
                Some(id) => Some(Action::AttachToDevServer { agent_id: id }),
                None => None,
            },
            PreviewTab::GitDiff => None,
        };
    }
    if matches_keybind(key, &kb.copy_path) {
        return match sel {
            Some(id) => Some(Action::CopyWorktreePath { id }),
            None => None,
        };
    }
    if matches_keybind(key, &kb.merge) && sel.is_some() {
        return Some(Action::EnterInputMode(InputMode::ConfirmMerge));
    }
    if matches_keybind(key, &kb.push) && sel.is_some() {
        return Some(Action::EnterInputMode(InputMode::ConfirmPush));
    }
    if matches_keybind(key, &kb.fetch) {
        return match sel {
            Some(id) => Some(Action::FetchRemote { id }),
            None => None,
        };
    }
    if matches_keybind(key, &kb.summary) && !key.ctrl {
        return match sel {
            Some(id) => Some(Action::RequestSummary { id }),
            None => None,
        };
    }
    if matches_keybind(key, &kb.toggle_diff) {
        return Some(Action::ToggleDiffView);
    }
    if matches_keybind(key, &kb.toggle_logs) {
        return Some(Action::ToggleLogs);
    }
    if matches_keybind(key, &kb.toggle_settings) && !key.ctrl {
        return Some(Action::ToggleSettings);
    }
    if matches_keybind(key, &kb.open_mr) {
        return match sel {
            Some(id) => match ctx.git_provider {
                GitProvider::GitLab => Some(Action::OpenMrInBrowser { id }),
                GitProvider::GitHub => Some(Action::OpenPrInBrowser { id }),
                GitProvider::Codeberg => Some(Action::OpenCodebergPrInBrowser { id }),
            },
            None => None,
        };
    }
    if matches_keybind(key, &kb.open_editor) {
        return match sel {
            Some(id) => Some(Action::OpenInEditor { id }),
            None => None,
        };
    }
    if matches_keybind(key, &kb.asana_assign) {
        return Some(Action::EnterInputMode(InputMode::AssignProjectTask));
    }
    if matches_keybind(key, &kb.asana_open) {
        return match sel {
            Some(id) => Some(Action::OpenProjectTaskInBrowser { id }),
            None => None,
        };
    }
    if matches_keybind(key, &kb.refresh_all) {
        return Some(Action::RefreshAll);
    }
    if matches_keybind(key, &kb.toggle_help) {
        return Some(Action::ToggleHelp);
    }
    if matches_keybind(key, &kb.show_tasks) {
        return Some(Action::EnterInputMode(InputMode::BrowseTasks));
    }
    if matches_keybind(key, &kb.debug_status) {
        return Some(Action::ToggleStatusDebug);
    }
    if matches_keybind(key, &kb.toggle_columns) {
        return Some(Action::ToggleColumnSelector);
    }
    if key.code == KeyCode::Char('Q') {
        return Some(Action::OpenPmStatusDebug);
    }
    match key.code {
        KeyCode::Char('T') => {
            if ctx.selected_agent_task_linked {
                match sel {
                    Some(id) => Some(Action::OpenTaskStatusDropdown { id }),
                    None => None,
                }
            } else {
                None
            }
        },
        KeyCode::Esc => Some(Action::ClearError),
        KeyCode::Tab => Some(Action::NextPreviewTab),
        KeyCode::BackTab => Some(Action::PrevPreviewTab),
        KeyCode::Char('s') if key.ctrl => Some(Action::RequestStartDevServer),
        KeyCode::Char('S') if key.ctrl => Some(Action::RestartDevServer),
        KeyCode::Char('C') if ctx.preview_tab == PreviewTab::DevServer => Some(Action::ClearDevServerLogs),
        KeyCode::Char('O') if ctx.preview_tab == PreviewTab::DevServer => Some(Action::OpenDevServerInBrowser),
        KeyCode::PageUp => Some(Action::ScrollPreviewUp),
        KeyCode::PageDown => Some(Action::ScrollPreviewDown),
        _ => None,
    }
}

/// The result of a key press in the front end.
pub fn handle_key_event(key: KeyInput, ctx: &KeyContext) -> (r: KeyResult)
    ensures
        r@ == key_event_result(key, *ctx),
        main_view(*ctx) && hits_only_open_mr(key, ctx.keybinds) ==> r@ == (match ctx.input.selected_agent_id {
            Some(id) => KeyResultView::Act(match ctx.git_provider {
                GitProvider::GitLab => ActionView::OpenMrInBrowser { id },
                GitProvider::GitHub => ActionView::OpenPrInBrowser { id },
                GitProvider::Codeberg => ActionView::OpenCodebergPrInBrowser { id },
            }),
            None => KeyResultView::Ignore,
        }),
{
    proof {
        if main_view(*ctx) && hits_only_open_mr(key, ctx.keybinds) {
            lemma_open_mr_follows_provider(key, *ctx);
        }
    }
    if ctx.settings_active {
        return as_result(handle_settings_key(key, &ctx.settings));
    }
    if let Some(pm_setup) = &ctx.pm_setup {
        return as_result(handle_pm_setup_key(key, pm_setup, ctx.pm_provider));
    }
    if let Some(git_setup) = &ctx.git_setup {
        return handle_git_setup_key(key, git_setup, ctx.git_provider, ctx.gitlab_token_present);
    }
    if ctx.task_reassignment_warning {
        return as_result(
            match key.code {
                KeyCode::Char('y') | KeyCode::Char('Y') => Some(Action::ConfirmTaskReassignment),
                KeyCode::Char('n') | KeyCode::Esc => Some(Action::DismissTaskReassignmentWarning),
                _ => None,
            },
        );
    }
    if ctx.devserver_warning {
        return as_result(
            match key.code {
                KeyCode::Char('y') | KeyCode::Char('Y') => Some(Action::ConfirmStartDevServer),
                KeyCode::Char('n') | KeyCode::Esc => Some(Action::DismissDevServerWarning),
                _ => None,
            },
        );
    }
    if ctx.input.input_mode.is_some() {
        return as_result(handle_input_mode_key(key.code, &ctx.input));
    }
    if ctx.show_help {
        return KeyResult::Act(Action::ToggleHelp);
    }
    if ctx.show_status_debug {
        if matches_keybind(key, &ctx.keybinds.debug_status) || key.code == KeyCode::Esc {
            return KeyResult::Act(Action::ToggleStatusDebug);
        }
    }
    if let Some(step) = ctx.pm_status_debug {
        return as_result(
            match key.code {
                KeyCode::Esc => Some(Action::ClosePmStatusDebug),
                KeyCode::Char('j') | KeyCode::Down => {
                    if step == PmStatusDebugStep::SelectProvider {
                        Some(Action::PmStatusDebugSelectNext)
                    } else {
                        None
                    }
                },
                KeyCode::Char('k') | KeyCode::Up => {
                    if step == PmStatusDebugStep::SelectProvider {
                        Some(Action::PmStatusDebugSelectPrev)
                    } else {
                        None
                    }
                },
                KeyCode::Enter => {
                    if step == PmStatusDebugStep::SelectProvider {
                        Some(Action::PmStatusDebugFetchSelected)
                    } else {
                        None
                    }
                },
                KeyCode::Char('c') => {
                    if step == PmStatusDebugStep::ShowPayload {
                        Some(Action::PmStatusDebugCopyPayload)
                    } else {
                        None
                    }
                },
                _ => None,
            },
        );
    }
    if ctx.column_selector_active {
        return as_result(
            match key.code {
                KeyCode::Esc => Some(Action::ColumnSelectorClose),
                KeyCode::Char(' ') | KeyCode::Enter => Some(Action::ColumnSelectorToggle),
                KeyCode::Char('j') | KeyCode::Down => Some(Action::ColumnSelectorSelectNext),
                KeyCode::Char('k') | KeyCode::Up => Some(Action::ColumnSelectorSelectPrev),
                _ => None,
            },
        );
    }
    if let Some(wizard) = ctx.global_setup {
        return as_result(global_setup_key(key.code, wizard));
    }
    if let Some(is_last_step) = ctx.tutorial_on_last_step {
        return as_result(
            match key.code {
                KeyCode::Esc | KeyCode::Char('q') => Some(Action::TutorialSkip),
                KeyCode::Enter | KeyCode::Right | KeyCode::Char('l') => {
                    if is_last_step {
                        Some(Action::TutorialComplete)
                    } else {
                        Some(Action::TutorialNextStep)
                    }
                },
                KeyCode::Left | KeyCode::Char('h') => Some(Action::TutorialPrevStep),
                _ => None,
            },
        );
    }
    if let Some(wizard) = ctx.project_setup {
        return as_result(project_setup_key(key.code, wizard));
    }
    as_result(binding_key(key, ctx))
}

} // verus!
