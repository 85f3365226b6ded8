use grove::decimal::{parse_u64, u64_text};
use grove::file_browser::{FileBrowser, FileEntry};
use grove::panels::SettingsCursor;
use grove::git_setup::{
    CodebergCiProvider, GitSavedConfig, GitSetupDialog, GitSetupEffect, RemoteInfo,
};
use grove::key_events::{PmStatusDebugStep, PreviewTab};
use grove::keys::InputState;
use grove::panels::{
    status_dropdown_for_agent, status_dropdown_for_task, ColumnSelector, PmStatusDebugPanel, PreviewPane, StatusOption,
};
use grove::pm_setup::{PmSetupDialog, PmSetupEffect};
use grove::setup_keys::{GitProvider, GitSetupStep, PmSetupStep, ProjectMgmtProvider};
use grove::task_nav::TaskBrowser;
use grove::tasks::TaskListItem;

fn task(id: &str, parent: Option<&str>, status: &str, has_children: bool) -> TaskListItem {
    TaskListItem {
        id: id.to_string(),
        identifier: None,
        name: format!("task {}", id),
        status_name: status.to_string(),
        url: String::new(),
        parent_id: parent.map(|p| p.to_string()),
        has_children,
    }
}

fn browser() -> TaskBrowser {
    TaskBrowser {
        tasks: vec![
            task("p", None, "Open", true),
            task("c", Some("p"), "Open", false),
            task("q", None, "Done", false),
            task("r", None, "Open", false),
        ],
        expanded_ids: vec![],
        hidden_status_names: vec![],
        selected: 0,
        scroll: 3,
        loading: false,
    }
}

#[test]
fn task_selection_skips_hidden_tasks_and_wraps() {
    let mut b = browser();
    b.select_next();
    assert_eq!(b.selected, 2);
    b.select_next();
    assert_eq!(b.selected, 3);
    b.select_next();
    assert_eq!(b.selected, 0);
    b.select_prev();
    assert_eq!(b.selected, 3);
    b.select_prev();
    assert_eq!(b.selected, 2);
}

#[test]
fn task_selection_from_a_hidden_task_starts_at_the_first_shown() {
    let mut b = browser();
    b.selected = 1;
    b.select_next();
    assert_eq!(b.selected, 2);
    b.selected = 1;
    b.select_prev();
    assert_eq!(b.selected, 3);
}

#[test]
fn task_selection_with_nothing_shown_stays() {
    let mut b = browser();
    b.hidden_status_names = vec!["Open".to_string(), "Done".to_string()];
    b.selected = 2;
    b.select_next();
    assert_eq!(b.selected, 2);
    b.select_prev();
    assert_eq!(b.selected, 2);
}

#[test]
fn expanding_shows_children_and_collapsing_hides_them() {
    let mut b = browser();
    b.toggle_expand();
    assert_eq!(b.expanded_ids, vec!["p".to_string()]);
    b.select_next();
    assert_eq!(b.selected, 1);
    b.selected = 0;
    b.toggle_expand();
    assert!(b.expanded_ids.is_empty());
    b.select_next();
    assert_eq!(b.selected, 2);
}

#[test]
fn expanding_a_task_without_children_does_nothing() {
    let mut b = browser();
    b.selected = 3;
    b.toggle_expand();
    assert!(b.expanded_ids.is_empty());
    b.selected = 9;
    b.toggle_expand();
    assert!(b.expanded_ids.is_empty());
}

#[test]
fn status_filter_hides_and_shows_again() {
    let mut b = browser();
    b.selected = 3;
    b.toggle_status_filter("Done".to_string());
    assert_eq!(b.hidden_status_names, vec!["Done".to_string()]);
    assert_eq!((b.selected, b.scroll), (0, 0));
    b.select_next();
    assert_eq!(b.selected, 3);
    b.toggle_status_filter("Open".to_string());
    b.toggle_status_filter("Done".to_string());
    assert_eq!(b.hidden_status_names, vec!["Open".to_string()]);
}

fn input_state(options: usize, selected: usize) -> InputState {
    InputState {
        input_mode: None,
        selected_agent_id: None,
        task_list_filter_open: false,
        task_list_status_options: (0..options).map(|i| format!("s{}", i)).collect(),
        task_list_filter_selected: selected,
        input_buffer: String::new(),
    }
}

#[test]
fn filter_rows_wrap_both_ways() {
    let mut st = input_state(3, 2);
    st.task_list_filter_next();
    assert_eq!(st.task_list_filter_selected, 0);
    st.task_list_filter_prev();
    assert_eq!(st.task_list_filter_selected, 2);
    let mut empty = input_state(0, 5);
    empty.task_list_filter_next();
    empty.task_list_filter_prev();
    assert_eq!(empty.task_list_filter_selected, 5);
    let mut st = input_state(3, 2);
    st.toggle_task_list_filter();
    assert!(st.task_list_filter_open);
    assert_eq!(st.task_list_filter_selected, 0);
    st.task_list_filter_selected = 1;
    st.toggle_task_list_filter();
    assert!(!st.task_list_filter_open);
    assert_eq!(st.task_list_filter_selected, 1);
}

fn entry(id: &str, title: &str, third: &str) -> (String, String, String) {
    (id.to_string(), title.to_string(), third.to_string())
}

fn pm_dialog() -> PmSetupDialog {
    PmSetupDialog {
        active: false,
        from_settings: false,
        step: PmSetupStep::Advanced,
        teams: vec![entry("old", "Old", "")],
        all_databases: vec![],
        teams_loading: false,
        error: Some("stale".to_string()),
        selected_team_index: 4,
        selected_workspace_gid: None,
        field_index: 2,
        advanced_expanded: true,
        dropdown_open: false,
        dropdown_index: 0,
        manual_team_id: "m".to_string(),
        in_progress_state: "i".to_string(),
        done_state: "d".to_string(),
    }
}

#[test]
fn pm_setup_opens_cleared_and_closes_back_to_settings() {
    let mut d = pm_dialog();
    d.open();
    assert!(d.active && d.from_settings);
    assert_eq!(d.step, PmSetupStep::Token);
    assert!(d.teams.is_empty() && d.error.is_none());
    assert_eq!((d.selected_team_index, d.field_index, d.advanced_expanded), (0, 0, false));
    assert_eq!(d.manual_team_id, "");
    assert!(matches!(d.close(), PmSetupEffect::ReturnToSettings));
    assert!(!d.active && !d.from_settings);
    assert!(matches!(d.close(), PmSetupEffect::Nothing));
}

#[test]
fn pm_setup_token_step_loads_the_top_level_list() {
    let mut d = pm_dialog();
    d.open();
    assert!(matches!(d.next_step(ProjectMgmtProvider::Asana, true), PmSetupEffect::LoadTopLevel));
    assert_eq!(d.step, PmSetupStep::Workspace);
    assert!(d.teams_loading);
    let mut d = pm_dialog();
    d.open();
    assert!(matches!(d.next_step(ProjectMgmtProvider::Asana, false), PmSetupEffect::Nothing));
    assert!(!d.teams_loading);
    let mut d = pm_dialog();
    d.open();
    assert!(matches!(d.next_step(ProjectMgmtProvider::Beads, true), PmSetupEffect::Nothing));
}

#[test]
fn pm_setup_notion_workspace_filters_databases() {
    let mut d = pm_dialog();
    d.step = PmSetupStep::Workspace;
    d.teams = vec![entry("page1", "Page one", ""), entry("page2", "Page two", "")];
    d.selected_team_index = 1;
    d.all_databases = vec![
        entry("db1", "Tasks", "page1"),
        entry("db2", "Bugs", "page2"),
        entry("db3", "Ideas", "page2"),
    ];
    assert!(matches!(d.next_step(ProjectMgmtProvider::Notion, true), PmSetupEffect::Nothing));
    assert_eq!(d.step, PmSetupStep::Project);
    assert_eq!(d.selected_workspace_gid, Some("page2".to_string()));
    assert_eq!(d.teams, vec![entry("db2", "Bugs", ""), entry("db3", "Ideas", "")]);
    assert_eq!(d.selected_team_index, 0);
    assert!(matches!(d.prev_step(ProjectMgmtProvider::Notion, true), PmSetupEffect::LoadNotionParentPages));
    assert_eq!(d.step, PmSetupStep::Workspace);
}

#[test]
fn pm_setup_asana_workspace_loads_projects() {
    let mut d = pm_dialog();
    d.step = PmSetupStep::Workspace;
    d.teams = vec![entry("ws1", "Workspace", "")];
    d.selected_team_index = 0;
    match d.next_step(ProjectMgmtProvider::Asana, true) {
        PmSetupEffect::LoadChildren(id) => assert_eq!(id, "ws1"),
        _ => panic!("expected a load of the workspace's projects"),
    }
    assert!(d.teams.is_empty() && d.teams_loading);
    assert_eq!(d.step, PmSetupStep::Project);
    let mut d = pm_dialog();
    d.step = PmSetupStep::Workspace;
    d.teams = vec![];
    d.selected_team_index = 0;
    assert!(matches!(d.next_step(ProjectMgmtProvider::Asana, true), PmSetupEffect::Nothing));
    assert_eq!(d.step, PmSetupStep::Workspace);
    let mut d = pm_dialog();
    d.step = PmSetupStep::Workspace;
    d.next_step(ProjectMgmtProvider::Linear, true);
    assert_eq!(d.step, PmSetupStep::Advanced);
    d.prev_step(ProjectMgmtProvider::Linear, true);
    assert_eq!(d.step, PmSetupStep::Workspace);
}

#[test]
fn pm_setup_fields_take_typing_and_paste() {
    let mut d = pm_dialog();
    d.input_char('x');
    assert_eq!(d.in_progress_state, "ix");
    d.backspace();
    d.backspace();
    d.backspace();
    assert_eq!(d.in_progress_state, "");
    d.paste("Doing");
    assert_eq!(d.in_progress_state, "Doing");
    d.navigate_next();
    d.paste("Done!");
    assert_eq!(d.done_state, "dDone!");
    d.navigate_next();
    assert_eq!(d.field_index, 3);
    d.field_index = 0;
    d.input_char('z');
    assert_eq!((d.manual_team_id.as_str(), d.in_progress_state.as_str()), ("m", "Doing"));
}

#[test]
fn pm_setup_dropdown_chooses_an_entry() {
    let mut d = pm_dialog();
    d.field_index = 0;
    d.teams = vec![entry("a", "A", ""), entry("b", "B", ""), entry("c", "C", "")];
    d.selected_team_index = 1;
    d.toggle_dropdown();
    assert!(d.dropdown_open);
    assert_eq!(d.dropdown_index, 1);
    d.dropdown_next();
    d.dropdown_next();
    assert_eq!(d.dropdown_index, 2);
    d.confirm_dropdown();
    assert_eq!(d.selected_team_index, 2);
    assert!(!d.dropdown_open);
    d.dropdown_prev();
    assert_eq!(d.dropdown_index, 1);
}

#[test]
fn pm_setup_complete_prefers_the_manual_id() {
    let mut d = pm_dialog();
    d.teams = vec![entry("t1", "Team one", "")];
    d.selected_team_index = 0;
    d.from_settings = true;
    let (choice, effect) = d.complete();
    assert_eq!(choice.id, Some("m".to_string()));
    assert_eq!(choice.name, "Team one");
    assert_eq!(choice.in_progress_state, Some("i".to_string()));
    assert!(matches!(effect, PmSetupEffect::ReturnToSettings));
    let mut d = pm_dialog();
    d.manual_team_id.clear();
    d.done_state.clear();
    let (choice, _) = d.complete();
    assert_eq!(choice.id, None);
    assert_eq!(choice.name, "manual");
    assert_eq!(choice.done_state, None);
}

#[test]
fn pm_setup_loading_results() {
    let mut d = pm_dialog();
    d.teams_loading = true;
    d.teams_loaded(vec![entry("x", "X", "")]);
    assert_eq!((d.teams.len(), d.teams_loading, d.selected_team_index), (1, false, 0));
    d.teams_loading = true;
    d.load_failed("no access".to_string());
    assert_eq!(d.error, Some("no access".to_string()));
    assert!(!d.teams_loading);
    d.notion_databases_loaded(vec![entry("db", "Db", "pg")], vec![entry("pg", "Page", "")]);
    assert_eq!(d.all_databases.len(), 1);
    assert_eq!(d.teams[0].0, "pg");
}

fn saved() -> GitSavedConfig {
    GitSavedConfig {
        gitlab_project_id: Some(4321),
        gitlab_base_url: "https://gitlab.com".to_string(),
        github_owner: Some("octo".to_string()),
        github_repo: None,
        codeberg_owner: None,
        codeberg_repo: Some("forge".to_string()),
        codeberg_base_url: "https://git.example.org".to_string(),
        codeberg_ci_provider: CodebergCiProvider::Woodpecker,
        woodpecker_repo_id: Some(7),
    }
}

fn git_dialog() -> GitSetupDialog {
    GitSetupDialog {
        active: false,
        from_settings: false,
        step: GitSetupStep::Advanced,
        error: Some("old".to_string()),
        field_index: 3,
        advanced_expanded: true,
        editing_text: true,
        dropdown_open: true,
        dropdown_index: 1,
        text_buffer: "buf".to_string(),
        loading: true,
        project_id: "9".to_string(),
        owner: "o".to_string(),
        repo: "r".to_string(),
        base_url: "u".to_string(),
        detected_from_remote: true,
        project_name: Some("n".to_string()),
        ci_provider: CodebergCiProvider::Woodpecker,
        woodpecker_repo_id: "w".to_string(),
    }
}

fn remote(provider: GitProvider) -> RemoteInfo {
    RemoteInfo {
        owner: "remote-owner".to_string(),
        repo: "remote-repo".to_string(),
        provider,
        base_url: Some("https://remote.example".to_string()),
    }
}

#[test]
fn git_setup_opens_from_remote_and_config() {
    let mut d = git_dialog();
    d.open(GitProvider::GitHub, Some(remote(GitProvider::GitHub)), &saved());
    assert_eq!((d.owner.as_str(), d.repo.as_str()), ("octo", "remote-repo"));
    assert_eq!(d.base_url, "https://remote.example");
    assert!(d.detected_from_remote && d.active && d.from_settings);
    assert_eq!(d.step, GitSetupStep::Token);
    assert_eq!(d.ci_provider, CodebergCiProvider::ForgejoActions);
    assert_eq!(d.project_id, "");
    let mut d = git_dialog();
    d.open(GitProvider::GitLab, Some(remote(GitProvider::GitHub)), &saved());
    assert_eq!(d.project_id, "4321");
    assert_eq!(d.base_url, "");
    assert!(!d.detected_from_remote);
    let mut d = git_dialog();
    d.open(GitProvider::Codeberg, None, &saved());
    assert_eq!((d.owner.as_str(), d.repo.as_str()), ("", "forge"));
    assert_eq!(d.base_url, "https://git.example.org");
    assert_eq!(d.ci_provider, CodebergCiProvider::Woodpecker);
    assert_eq!(d.woodpecker_repo_id, "7");
}

#[test]
fn git_setup_token_step_looks_up_gitlab_project() {
    let mut d = git_dialog();
    d.open(GitProvider::GitLab, Some(remote(GitProvider::GitLab)), &GitSavedConfig { gitlab_project_id: None, ..saved() });
    match d.next_step(GitProvider::GitLab, true) {
        GitSetupEffect::FetchProjectId { owner, repo, base_url } => {
            assert_eq!((owner.as_str(), repo.as_str()), ("remote-owner", "remote-repo"));
            assert_eq!(base_url, "https://remote.example");
        }
        _ => panic!("expected a project lookup"),
    }
    assert!(d.loading);
    assert_eq!(d.step, GitSetupStep::Repository);
    let mut d = git_dialog();
    d.project_id.clear();
    d.base_url.clear();
    match d.fetch_project_id(true) {
        GitSetupEffect::FetchProjectId { base_url, .. } => assert_eq!(base_url, "https://gitlab.com"),
        _ => panic!("expected a project lookup"),
    }
    assert!(d.error.is_none());
    let mut d = git_dialog();
    d.step = GitSetupStep::Token;
    assert!(matches!(d.next_step(GitProvider::GitLab, true), GitSetupEffect::Nothing));
    assert!(matches!(d.fetch_project_id(false), GitSetupEffect::Nothing));
}

#[test]
fn git_setup_lookup_results() {
    let mut d = git_dialog();
    d.project_id_fetched(123456, "group/project".to_string());
    assert_eq!(d.project_id, "123456");
    assert_eq!(d.project_name, Some("group/project".to_string()));
    assert!(!d.loading);
    d.lookup_failed("not found".to_string());
    assert_eq!(d.error, Some("not found".to_string()));
}

#[test]
fn git_setup_editing_fields() {
    let mut d = git_dialog();
    d.field_index = 1;
    d.start_edit();
    assert_eq!(d.text_buffer, "r");
    d.input_char('x');
    d.paste("yz");
    d.backspace();
    d.confirm_edit();
    assert_eq!(d.repo, "rxy");
    assert!(!d.editing_text && d.text_buffer.is_empty());
    d.field_index = 7;
    d.start_edit();
    assert_eq!(d.text_buffer, "u");
    d.cancel_edit();
    assert_eq!(d.base_url, "u");
}

#[test]
fn git_setup_fields_and_steps() {
    let mut d = git_dialog();
    d.field_index = 0;
    d.advanced_expanded = false;
    d.navigate_next(GitProvider::GitHub);
    d.navigate_next(GitProvider::GitHub);
    d.navigate_next(GitProvider::GitHub);
    assert_eq!(d.field_index, 1);
    d.navigate_next(GitProvider::GitLab);
    d.navigate_next(GitProvider::GitLab);
    assert_eq!(d.field_index, 2);
    d.navigate_prev();
    d.navigate_prev();
    d.navigate_prev();
    assert_eq!(d.field_index, 0);
    assert!(matches!(d.prev_step(), GitSetupEffect::Nothing));
    assert_eq!(d.step, GitSetupStep::Repository);
    d.prev_step();
    d.from_settings = true;
    assert!(matches!(d.prev_step(), GitSetupEffect::ReturnToSettings));
    assert!(!d.active);
}

#[test]
fn git_setup_ci_dropdown() {
    let mut d = git_dialog();
    d.toggle_dropdown();
    assert!(!d.dropdown_open);
    assert_eq!(d.ci_provider, CodebergCiProvider::Woodpecker);
    d.toggle_dropdown();
    assert!(d.dropdown_open);
    assert_eq!(d.dropdown_index, 1);
    d.dropdown_next();
    assert_eq!(d.dropdown_index, 0);
    d.dropdown_prev();
    d.dropdown_prev();
    assert_eq!(d.dropdown_index, 0);
    d.confirm_dropdown();
    assert_eq!(d.ci_provider, CodebergCiProvider::ForgejoActions);
    d.dropdown_open = true;
    d.close_dropdown();
    assert!(!d.dropdown_open);
}

#[test]
fn git_setup_complete_saves_and_reopens() {
    let mut d = git_dialog();
    d.project_id = "0042".to_string();
    d.base_url = "https://gl.example".to_string();
    let mut cfg = saved();
    d.from_settings = true;
    assert!(matches!(d.complete(GitProvider::GitLab, &mut cfg), GitSetupEffect::ReturnToSettings));
    assert_eq!(cfg.gitlab_project_id, Some(42));
    assert_eq!(cfg.gitlab_base_url, "https://gl.example");
    let mut e = git_dialog();
    e.open(GitProvider::GitLab, None, &cfg);
    assert_eq!(e.project_id, "42");
    assert_eq!(e.base_url, "https://gl.example");

    let mut d = git_dialog();
    d.project_id = "not a number".to_string();
    let mut cfg = saved();
    d.complete(GitProvider::GitLab, &mut cfg);
    assert_eq!(cfg.gitlab_project_id, Some(4321));

    let mut d = git_dialog();
    d.woodpecker_repo_id = "x1".to_string();
    d.ci_provider = CodebergCiProvider::ForgejoActions;
    let mut cfg = saved();
    d.complete(GitProvider::Codeberg, &mut cfg);
    assert_eq!((cfg.codeberg_owner.as_deref(), cfg.codeberg_repo.as_deref()), (Some("o"), Some("r")));
    assert_eq!(cfg.woodpecker_repo_id, None);
    assert_eq!(cfg.codeberg_ci_provider, CodebergCiProvider::ForgejoActions);
    assert_eq!(cfg.codeberg_base_url, "u");
    let mut e = git_dialog();
    e.open(GitProvider::Codeberg, None, &cfg);
    assert_eq!((e.owner.as_str(), e.repo.as_str(), e.base_url.as_str()), ("o", "r", "u"));
    assert_eq!(e.ci_provider, CodebergCiProvider::ForgejoActions);

    let mut d = git_dialog();
    let mut cfg = saved();
    d.complete(GitProvider::GitHub, &mut cfg);
    assert_eq!((cfg.github_owner.as_deref(), cfg.github_repo.as_deref()), (Some("o"), Some("r")));
}

#[test]
fn decimal_text_and_parse() {
    assert_eq!(u64_text(0), "0");
    assert_eq!(u64_text(907), "907");
    assert_eq!(u64_text(u64::MAX), "18446744073709551615");
    assert_eq!(parse_u64("18446744073709551615"), Some(u64::MAX));
    assert_eq!(parse_u64("18446744073709551616"), None);
    assert_eq!(parse_u64("+12"), Some(12));
    assert_eq!(parse_u64("007"), Some(7));
    assert_eq!(parse_u64(""), None);
    assert_eq!(parse_u64("+"), None);
    assert_eq!(parse_u64("-1"), None);
    assert_eq!(parse_u64("1 2"), None);
    for n in [0u64, 5, 10, 99, 1000, 123456789] {
        assert_eq!(parse_u64(&u64_text(n)), Some(n));
        assert_eq!(parse_u64(&n.to_string()), n.to_string().parse::<u64>().ok());
    }
}

#[test]
fn preview_tabs_and_scrolling() {
    let mut p = PreviewPane { tab: PreviewTab::Preview, output_scroll: 5, gitdiff_scroll: 15, gitdiff_line_count: 30, gitdiff_content: None };
    p.scroll_up();
    assert_eq!(p.output_scroll, 15);
    p.scroll_down();
    p.scroll_down();
    assert_eq!(p.output_scroll, 0);
    p.next_tab();
    assert_eq!(p.tab, PreviewTab::GitDiff);
    p.scroll_down();
    assert_eq!(p.gitdiff_scroll, 25);
    p.scroll_down();
    assert_eq!(p.gitdiff_scroll, 29);
    p.scroll_up();
    p.scroll_up();
    p.scroll_up();
    p.scroll_up();
    assert_eq!(p.gitdiff_scroll, 0);
    p.next_tab();
    assert_eq!(p.tab, PreviewTab::DevServer);
    p.scroll_up();
    assert_eq!((p.output_scroll, p.gitdiff_scroll), (0, 0));
    p.next_tab();
    assert_eq!(p.tab, PreviewTab::Preview);
    p.prev_tab();
    assert_eq!(p.tab, PreviewTab::DevServer);
    p.output_scroll = usize::MAX - 3;
    p.tab = PreviewTab::Preview;
    p.scroll_up();
    assert_eq!(p.output_scroll, usize::MAX);
}

#[test]
fn diff_content_sets_line_count() {
    let mut p = PreviewPane { tab: PreviewTab::GitDiff, output_scroll: 3, gitdiff_scroll: 0, gitdiff_line_count: 0, gitdiff_content: None };
    let diff = "diff --git a/x b/x\r\n+added\n-removed\n context".to_string();
    p.diff_content_arrived(Some(diff.clone()));
    assert_eq!(p.gitdiff_line_count, 4);
    assert_eq!(p.gitdiff_line_count, diff.lines().count());
    assert_eq!(p.gitdiff_content, Some(diff));
    for _ in 0..5 {
        p.scroll_down();
    }
    assert_eq!(p.gitdiff_scroll, 3);
    p.scroll_up();
    assert_eq!(p.gitdiff_scroll, 0);
    assert_eq!(p.output_scroll, 3);
    for text in ["", "\n", "a", "a\n", "a\n\nb\n", "\r\n\r\nx", "one\ntwo\n\n"] {
        p.diff_content_arrived(Some(text.to_string()));
        assert_eq!(p.gitdiff_line_count, text.lines().count(), "{:?}", text);
    }
    p.diff_content_arrived(None);
    assert_eq!(p.gitdiff_line_count, 0);
    assert_eq!(p.gitdiff_content, None);
}

#[test]
fn column_selector_moves_and_toggles() {
    let mut c = ColumnSelector { active: true, visible: vec![true, false, true], selected_index: 0 };
    c.select_next();
    c.select_next();
    c.select_next();
    assert_eq!(c.selected_index, 2);
    c.toggle_selected();
    assert_eq!(c.visible, vec![true, false, false]);
    c.select_prev();
    c.toggle_selected();
    c.toggle_selected();
    assert_eq!(c.visible, vec![true, false, false]);
    c.select_prev();
    c.select_prev();
    assert_eq!(c.selected_index, 0);
    let mut empty = ColumnSelector { active: true, visible: vec![], selected_index: 0 };
    empty.select_next();
    empty.toggle_selected();
    assert_eq!(empty.selected_index, 0);
}

#[test]
fn pm_status_debug_ignores_stale_replies() {
    let mut p = PmStatusDebugPanel {
        active: false,
        step: PmStatusDebugStep::ShowPayload,
        selected_index: 3,
        selected_provider: Some(ProjectMgmtProvider::Linear),
        loading: true,
        payload: Some("x".to_string()),
        error: None,
    };
    p.open();
    assert!(p.active);
    assert_eq!((p.step, p.selected_index, p.selected_provider), (PmStatusDebugStep::SelectProvider, 0, None));
    for _ in 0..10 {
        p.select_next();
    }
    assert_eq!(p.selected_index, 5);
    p.select_prev();
    assert_eq!(p.selected_index, 4);
    p.selected_provider = Some(ProjectMgmtProvider::Notion);
    p.loading = true;
    p.fetched(ProjectMgmtProvider::Asana, "{}".to_string());
    assert!(p.loading && p.payload.is_none());
    p.fetched(ProjectMgmtProvider::Notion, "{\"a\":1}".to_string());
    assert!(!p.loading);
    assert_eq!(p.payload, Some("{\"a\":1}".to_string()));
    assert_eq!(p.step, PmStatusDebugStep::ShowPayload);
    p.fetch_failed(ProjectMgmtProvider::Notion, "boom".to_string());
    assert_eq!(p.error, Some("boom".to_string()));
    p.close();
    assert!(!p.active && p.payload.is_none() && p.error.is_none());
}

#[test]
fn dialogs_opened_from_project_setup_do_not_return_to_settings() {
    let mut d = git_dialog();
    d.open_for_project(GitProvider::GitLab, Some(remote(GitProvider::GitLab)));
    assert!(d.active && !d.from_settings);
    assert_eq!((d.owner.as_str(), d.base_url.as_str(), d.project_id.as_str()), ("remote-owner", "https://remote.example", ""));
    assert!(matches!(d.close(), GitSetupEffect::Nothing));
    let mut p = pm_dialog();
    p.teams_loading = true;
    p.open_for_project();
    assert!(p.active && !p.from_settings && !p.teams_loading);
    assert_eq!(p.step, PmSetupStep::Token);
    assert!(matches!(p.close(), PmSetupEffect::Nothing));
}

#[test]
fn pm_status_debug_fetch_selected() {
    let mut p = PmStatusDebugPanel {
        active: true,
        step: PmStatusDebugStep::SelectProvider,
        selected_index: 2,
        selected_provider: None,
        loading: false,
        payload: None,
        error: Some("old".to_string()),
    };
    assert!(p.fetch_selected(ProjectMgmtProvider::Clickup, true, "ClickUp"));
    assert!(p.loading && p.error.is_none());
    assert_eq!(p.step, PmStatusDebugStep::SelectProvider);
    assert!(!p.fetch_selected(ProjectMgmtProvider::Linear, false, "Linear"));
    assert_eq!(p.error, Some("Linear is not configured.".to_string()));
    assert_eq!(p.selected_provider, Some(ProjectMgmtProvider::Linear));
    assert!(!p.loading);
    assert_eq!(p.step, PmStatusDebugStep::ShowPayload);
}

fn option(name: &str) -> StatusOption {
    StatusOption { id: format!("id-{}", name), name: name.to_string(), is_child: false }
}

#[test]
fn status_dropdowns_open_only_with_options() {
    assert!(status_dropdown_for_agent(7, vec![]).is_none());
    let mut d = status_dropdown_for_agent(7, vec![option("Todo"), option("Doing")]).unwrap();
    assert_eq!((d.agent_id, d.selected_index, d.task_id.is_none()), (7, 0, true));
    d.select_next();
    d.select_next();
    assert_eq!(d.selected_index, 1);
    d.select_prev();
    d.select_prev();
    assert_eq!(d.selected_index, 0);
    assert!(status_dropdown_for_task("t".to_string(), "T".to_string(), vec![]).is_none());
    let d = status_dropdown_for_task("t".to_string(), "T".to_string(), vec![option("Done")]).unwrap();
    assert_eq!((d.agent_id, d.task_id.as_deref(), d.task_name.as_deref()), (0, Some("t"), Some("T")));
    assert_eq!(d.status_options[0].name, "Done");
}

fn dir_entry(name: &str, is_dir: bool) -> FileEntry {
    FileEntry { name: name.to_string(), path: format!("/repo/{}", name), is_dir }
}

#[test]
fn file_browser_moves_marks_and_walks() {
    let mut fb = FileBrowser {
        active: true,
        current_path: "/repo".to_string(),
        entries: vec![dir_entry("..", true), dir_entry("src", true), dir_entry("a.txt", false)],
        selected_index: 0,
        selected_files: vec![],
    };
    fb.select_prev();
    assert_eq!(fb.selected_index, 0);
    assert!(fb.toggle_selected());
    assert_eq!(fb.selected_files, vec!["/repo/..".to_string()]);
    fb.select_next();
    assert!(!fb.toggle_selected());
    fb.select_next();
    fb.select_next();
    assert_eq!(fb.selected_index, 2);
    assert!(fb.toggle_selected());
    assert_eq!(fb.selected_files, vec!["/repo/..".to_string(), "/repo/a.txt".to_string()]);
    assert!(fb.toggle_selected());
    assert_eq!(fb.selected_files, vec!["/repo/..".to_string()]);
    assert!(!fb.enter_dir());
    fb.select_prev();
    assert!(fb.enter_dir());
    assert_eq!(fb.current_path, "/repo/src");
    assert_eq!(fb.selected_index, 0);
    fb.selected_index = 2;
    assert!(fb.go_parent());
    assert_eq!(fb.current_path, "/repo");
    assert_eq!(fb.selected_index, 0);
    assert!(!fb.move_to_parent(None));
    assert_eq!(fb.current_path, "/repo");
    fb.entries.clear();
    fb.select_next();
    assert_eq!(fb.selected_index, 0);
    assert!(!fb.toggle_selected());
}

#[test]
fn settings_fields_wrap_round() {
    let mut c = SettingsCursor { field_index: 0, editing_text: false };
    c.select_prev(5);
    assert_eq!(c.field_index, 4);
    c.select_next(5);
    assert_eq!(c.field_index, 0);
    c.select_next(5);
    assert_eq!(c.field_index, 1);
    c.editing_text = true;
    c.select_next(5);
    c.select_prev(5);
    assert_eq!(c.field_index, 1);
    c.editing_text = false;
    c.field_index = 0;
    c.select_prev(0);
    assert_eq!(c.field_index, 0);
}

#[test]
fn going_up_follows_path_parent() {
    let mut fb = FileBrowser {
        active: true,
        current_path: "/a/b2/c".to_string(),
        entries: vec![],
        selected_index: 3,
        selected_files: vec![],
    };
    assert!(fb.go_parent());
    assert_eq!(fb.current_path, "/a/b2");
    assert_eq!(fb.selected_index, 0);
    assert!(fb.go_parent());
    assert_eq!(fb.current_path, "/a");
    assert!(fb.go_parent());
    assert_eq!(fb.current_path, "/");
    assert!(!fb.go_parent());
    assert_eq!(fb.current_path, "/");
    fb.current_path = "rel".to_string();
    assert!(fb.go_parent());
    assert_eq!(fb.current_path, "");
    fb.selected_index = 2;
    assert!(!fb.go_parent());
    assert_eq!(fb.current_path, "");
    assert_eq!(fb.selected_index, 2);
}
