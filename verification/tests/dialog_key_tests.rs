use grove::action::{Action, InputMode, ResetType};
use grove::key_events::{
    handle_key_event, GlobalSetupStep, GlobalSetupWizard, KeyContext, Keybinds, PmStatusDebugStep, PreviewTab,
    ProjectSetupWizard,
};
use grove::keys::{InputState, KeyCode, KeyInput, Keybind};
use grove::poll::{tmux_session_name, AgentPollState};
use grove::settings_keys::{handle_settings_key, ActionButtonType, SettingsKeyState};
use grove::setup_keys::{
    handle_git_setup_key, handle_pm_setup_key, GitProvider, GitSetupState, GitSetupStep, KeyResult, PmSetupState,
    PmSetupStep, ProjectMgmtProvider,
};

fn plain(code: KeyCode) -> KeyInput {
    KeyInput { code, ctrl: false, shift: false, alt: false }
}

fn ctrl(code: KeyCode) -> KeyInput {
    KeyInput { code, ctrl: true, shift: false, alt: false }
}

fn shifted(c: char) -> KeyInput {
    KeyInput { code: KeyCode::Char(c), ctrl: false, shift: true, alt: false }
}

fn pm(step: PmSetupStep) -> PmSetupState {
    PmSetupState { dropdown_open: false, step, field_index: 0, advanced_expanded: false, has_teams: true }
}

#[test]
fn pm_setup_linear_completes_on_c() {
    let st = pm(PmSetupStep::Workspace);
    assert_eq!(handle_pm_setup_key(plain(KeyCode::Char('c')), &st, ProjectMgmtProvider::Linear), Some(Action::PmSetupComplete));
    assert_eq!(handle_pm_setup_key(plain(KeyCode::Char('c')), &st, ProjectMgmtProvider::Asana), Some(Action::PmSetupNextStep));
    assert_eq!(handle_pm_setup_key(plain(KeyCode::Enter), &st, ProjectMgmtProvider::Asana), Some(Action::PmSetupToggleDropdown));
}

#[test]
fn pm_setup_advanced_fields_take_characters() {
    let st = PmSetupState { field_index: 1, advanced_expanded: true, ..pm(PmSetupStep::Project) };
    assert_eq!(handle_pm_setup_key(plain(KeyCode::Char('x')), &st, ProjectMgmtProvider::Notion), Some(Action::PmSetupInputChar('x')));
    assert_eq!(handle_pm_setup_key(ctrl(KeyCode::Char('v')), &st, ProjectMgmtProvider::Notion), Some(Action::PmSetupInputChar('v')));
    assert_eq!(handle_pm_setup_key(plain(KeyCode::Char('k')), &st, ProjectMgmtProvider::Notion), Some(Action::PmSetupNavigatePrev));
}

fn git(step: GitSetupStep) -> GitSetupState {
    GitSetupState {
        loading: false,
        editing_text: false,
        step,
        advanced_expanded: false,
        dropdown_open: false,
        field_index: 0,
        project_id_empty: true,
        owner_empty: false,
        repo_empty: false,
    }
}

#[test]
fn git_setup_paste_and_edit() {
    let st = GitSetupState { editing_text: true, ..git(GitSetupStep::Repository) };
    assert_eq!(handle_git_setup_key(ctrl(KeyCode::Char('v')), &st, GitProvider::GitHub, false), KeyResult::PasteIntoGitSetup);
    assert_eq!(handle_git_setup_key(plain(KeyCode::Char('v')), &st, GitProvider::GitHub, false), KeyResult::Act(Action::GitSetupInputChar('v')));
    let loading = GitSetupState { loading: true, ..st };
    assert_eq!(handle_git_setup_key(plain(KeyCode::Esc), &loading, GitProvider::GitHub, false), KeyResult::Ignore);
}

#[test]
fn git_setup_repository_fields() {
    let st = git(GitSetupStep::Repository);
    assert_eq!(handle_git_setup_key(plain(KeyCode::Enter), &st, GitProvider::GitHub, false), KeyResult::Act(Action::GitSetupStartEdit));
    let last = GitSetupState { field_index: 1, ..st };
    assert_eq!(handle_git_setup_key(plain(KeyCode::Enter), &last, GitProvider::GitHub, false), KeyResult::Act(Action::GitSetupComplete));
    let ci = GitSetupState { field_index: 2, ..st };
    assert_eq!(handle_git_setup_key(plain(KeyCode::Enter), &ci, GitProvider::Codeberg, false), KeyResult::Act(Action::GitSetupToggleDropdown));
    assert_eq!(handle_git_setup_key(plain(KeyCode::Char('f')), &st, GitProvider::GitLab, true), KeyResult::Act(Action::GitSetupFetchProjectId));
    assert_eq!(handle_git_setup_key(plain(KeyCode::Char('f')), &st, GitProvider::GitLab, false), KeyResult::Ignore);
}

fn settings() -> SettingsKeyState {
    SettingsKeyState {
        reset_pending: false,
        editing_prompt: false,
        editing_text: false,
        dropdown_open: false,
        file_browser_active: false,
        capturing_keybind: false,
        on_appearance_row: false,
        action_button: None,
        field_is_keybind: false,
    }
}

#[test]
fn settings_capture_keybinds() {
    let st = SettingsKeyState { capturing_keybind: true, ..settings() };
    let shifted = KeyInput { code: KeyCode::Char('G'), ctrl: true, shift: true, alt: false };
    assert_eq!(
        handle_settings_key(shifted, &st),
        Some(Action::SettingsCaptureKeybind { key: "g".to_string(), modifiers: vec!["Control".to_string(), "Shift".to_string()] })
    );
    assert_eq!(
        handle_settings_key(plain(KeyCode::F(12)), &st),
        Some(Action::SettingsCaptureKeybind { key: "F12".to_string(), modifiers: vec![] })
    );
    let named = KeyInput { code: KeyCode::PageUp, ctrl: false, shift: true, alt: true };
    assert_eq!(
        handle_settings_key(named, &st),
        Some(Action::SettingsCaptureKeybind { key: "PageUp".to_string(), modifiers: vec!["Shift".to_string(), "Alt".to_string()] })
    );
    assert_eq!(handle_settings_key(plain(KeyCode::Esc), &st), Some(Action::SettingsCancelKeybindCapture));
    assert_eq!(handle_settings_key(plain(KeyCode::BackTab), &st), None);
}

#[test]
fn settings_buttons_and_prompt() {
    let st = SettingsKeyState { action_button: Some(ActionButtonType::ResetAll), ..settings() };
    assert_eq!(handle_settings_key(plain(KeyCode::Enter), &st), Some(Action::SettingsRequestReset { reset_type: ResetType::AllSettings }));
    let st = SettingsKeyState { field_is_keybind: true, ..settings() };
    assert_eq!(handle_settings_key(plain(KeyCode::Enter), &st), Some(Action::SettingsStartKeybindCapture));
    let st = SettingsKeyState { editing_prompt: true, ..settings() };
    let shift_enter = KeyInput { code: KeyCode::Enter, ctrl: false, shift: true, alt: false };
    assert_eq!(handle_settings_key(shift_enter, &st), Some(Action::SettingsInputChar('\n')));
    assert_eq!(handle_settings_key(ctrl(KeyCode::Char('s')), &st), Some(Action::SettingsConfirmSelection));
}

fn kb(key: &str) -> Keybind {
    Keybind { key: key.to_string(), modifiers: vec![] }
}

fn context() -> KeyContext {
    KeyContext {
        settings_active: false,
        settings: settings(),
        pm_setup: None,
        pm_provider: ProjectMgmtProvider::Asana,
        git_setup: None,
        git_provider: GitProvider::GitHub,
        gitlab_token_present: false,
        task_reassignment_warning: false,
        devserver_warning: false,
        input: InputState {
            input_mode: None,
            selected_agent_id: Some(42),
            task_list_filter_open: false,
            task_list_status_options: vec![],
            task_list_filter_selected: 0,
            input_buffer: String::new(),
        },
        show_help: false,
        show_status_debug: false,
        pm_status_debug: None,
        column_selector_active: false,
        global_setup: None,
        tutorial_on_last_step: None,
        project_setup: None,
        keybinds: Keybinds {
            quit: kb("q"),
            nav_down: kb("j"),
            nav_up: kb("k"),
            nav_first: kb("g"),
            nav_last: kb("G"),
            resume: kb("r"),
            refresh_task_list: kb("r"),
            yank: kb("y"),
            set_note: kb("N"),
            new_agent: kb("n"),
            delete_agent: kb("d"),
            attach: kb("Enter"),
            copy_path: kb("c"),
            merge: kb("m"),
            push: kb("p"),
            fetch: kb("f"),
            summary: kb("s"),
            toggle_diff: kb("/"),
            toggle_logs: kb("L"),
            toggle_settings: kb("S"),
            open_mr: kb("o"),
            open_editor: kb("e"),
            asana_assign: kb("a"),
            asana_open: kb("A"),
            refresh_all: kb("R"),
            toggle_help: kb("?"),
            show_tasks: kb("t"),
            debug_status: kb("D"),
            toggle_columns: kb("|"),
        },
        selected_agent_paused: false,
        selected_agent_task_linked: false,
        preview_tab: PreviewTab::Preview,
    }
}

#[test]
fn bindings_route_to_actions() {
    let ctx = context();
    assert_eq!(handle_key_event(ctrl(KeyCode::Char('c')), &ctx), KeyResult::Act(Action::Quit));
    assert_eq!(handle_key_event(plain(KeyCode::Char('j')), &ctx), KeyResult::Act(Action::SelectNext));
    assert_eq!(handle_key_event(plain(KeyCode::Char('r')), &ctx), KeyResult::Act(Action::RefreshSelected));
    assert_eq!(handle_key_event(plain(KeyCode::Enter), &ctx), KeyResult::Act(Action::AttachToAgent { id: 42 }));
    assert_eq!(handle_key_event(plain(KeyCode::Char('d')), &ctx), KeyResult::Act(Action::EnterInputMode(InputMode::ConfirmDelete)));
    assert_eq!(handle_key_event(plain(KeyCode::Char('o')), &ctx), KeyResult::Act(Action::OpenPrInBrowser { id: 42 }));
    assert_eq!(handle_key_event(shifted('Q'), &ctx), KeyResult::Act(Action::OpenPmStatusDebug));
    assert_eq!(handle_key_event(plain(KeyCode::Char('Q')), &ctx), KeyResult::Act(Action::Quit));
    assert_eq!(handle_key_event(shifted('T'), &ctx), KeyResult::Ignore);
    assert_eq!(handle_key_event(plain(KeyCode::PageDown), &ctx), KeyResult::Act(Action::ScrollPreviewDown));
}

#[test]
fn paused_agent_resumes_instead_of_refreshing() {
    let ctx = KeyContext { selected_agent_paused: true, selected_agent_task_linked: true, ..context() };
    assert_eq!(handle_key_event(plain(KeyCode::Char('r')), &ctx), KeyResult::Act(Action::ResumeAgent { id: 42 }));
    assert_eq!(handle_key_event(plain(KeyCode::Char('d')), &ctx), KeyResult::Act(Action::EnterInputMode(InputMode::ConfirmDeleteTask)));
    assert_eq!(handle_key_event(shifted('T'), &ctx), KeyResult::Act(Action::OpenTaskStatusDropdown { id: 42 }));
}

#[test]
fn dialogs_and_overlays_take_keys_first() {
    let ctx = KeyContext { show_help: true, ..context() };
    assert_eq!(handle_key_event(plain(KeyCode::Char('j')), &ctx), KeyResult::Act(Action::ToggleHelp));
    let ctx = KeyContext { devserver_warning: true, ..context() };
    assert_eq!(handle_key_event(plain(KeyCode::Char('Y')), &ctx), KeyResult::Act(Action::ConfirmStartDevServer));
    let ctx = KeyContext { pm_status_debug: Some(PmStatusDebugStep::ShowPayload), ..context() };
    assert_eq!(handle_key_event(plain(KeyCode::Char('c')), &ctx), KeyResult::Act(Action::PmStatusDebugCopyPayload));
    assert_eq!(handle_key_event(plain(KeyCode::Enter), &ctx), KeyResult::Ignore);
    let ctx = KeyContext {
        global_setup: Some(GlobalSetupWizard { dropdown_open: false, step: GlobalSetupStep::WorktreeLocation }),
        ..context()
    };
    assert_eq!(handle_key_event(plain(KeyCode::Down), &ctx), KeyResult::Act(Action::GlobalSetupSelectNext));
    let ctx = KeyContext { tutorial_on_last_step: Some(true), ..context() };
    assert_eq!(handle_key_event(plain(KeyCode::Right), &ctx), KeyResult::Act(Action::TutorialComplete));
    let ctx = KeyContext {
        project_setup: Some(ProjectSetupWizard { file_browser_active: false, git_provider_dropdown_open: false, pm_provider_dropdown_open: true }),
        ..context()
    };
    assert_eq!(handle_key_event(plain(KeyCode::Char('l')), &ctx), KeyResult::Act(Action::ProjectSetupPmDropdownNext));
    let ctx = KeyContext { git_setup: Some(GitSetupState { editing_text: true, ..git(GitSetupStep::Token) }), ..context() };
    assert_eq!(handle_key_event(ctrl(KeyCode::Char('v')), &ctx), KeyResult::PasteIntoGitSetup);
}

#[test]
fn poll_state_tracks_activity_and_scans() {
    let mut st = AgentPollState::new();
    assert!(!st.record_capture(7, 100));
    assert!(!st.record_capture(7, 100));
    assert!(st.record_capture(7, 101));
    assert!(st.needs_mr_scan(&7));
    assert!(st.deep_scan_due(&7));
    st.start_tick();
    assert!(!st.deep_scan_due(&7));
    for _ in 0..19 {
        st.start_tick();
    }
    assert!(st.deep_scan_due(&7));
    st.mark_mr_found(7);
    assert!(!st.deep_scan_due(&7));
    assert!(!st.needs_mr_scan(&7));
}

#[test]
fn tmux_sessions_are_named_by_simple_id() {
    assert_eq!(
        tmux_session_name(0xa1a2a3a4b1b2c1c2d1d2d3d4d5d6d7d8),
        "grove-a1a2a3a4b1b2c1c2d1d2d3d4d5d6d7d8"
    );
}

#[test]
fn warnings_take_only_yes_and_no() {
    let ctx = KeyContext { task_reassignment_warning: true, ..context() };
    assert_eq!(handle_key_event(plain(KeyCode::Char('y')), &ctx), KeyResult::Act(Action::ConfirmTaskReassignment));
    assert_eq!(handle_key_event(plain(KeyCode::Esc), &ctx), KeyResult::Act(Action::DismissTaskReassignmentWarning));
    assert_eq!(handle_key_event(plain(KeyCode::Char('q')), &ctx), KeyResult::Ignore);
    assert_eq!(handle_key_event(ctrl(KeyCode::Char('c')), &ctx), KeyResult::Ignore);
    let ctx = KeyContext { devserver_warning: true, ..context() };
    assert_eq!(handle_key_event(plain(KeyCode::Char('n')), &ctx), KeyResult::Act(Action::DismissDevServerWarning));
    assert_eq!(handle_key_event(plain(KeyCode::Enter), &ctx), KeyResult::Ignore);
}

#[test]
fn ctrl_c_quits_whatever_the_bindings() {
    let mut ctx = context();
    ctx.keybinds.copy_path = Keybind { key: "c".to_string(), modifiers: vec!["Control".to_string()] };
    assert_eq!(handle_key_event(ctrl(KeyCode::Char('c')), &ctx), KeyResult::Act(Action::Quit));
    let ctx = KeyContext { show_help: true, ..context() };
    assert_eq!(handle_key_event(ctrl(KeyCode::Char('c')), &ctx), KeyResult::Act(Action::ToggleHelp));
}
