use grove::decimal::{parse_u64, u64_text};
use grove::git_setup::{CodebergCiProvider, GitSavedConfig, GitSetupDialog};
use grove::pm_setup::PmSetupDialog;
use grove::setup_keys::{GitProvider, GitSetupStep, PmSetupStep};
use grove::submit::{submit_input, AgentTaskLink, SubmitOutcome};
use grove::action::InputMode;
use grove::task_nav::TaskBrowser;
use grove::tasks::{compute_visible_task_indices, parse_asana_task_gid, sort_tasks_by_parent, TaskListItem};
use grove::agent::{AgentStatus, AgentStatusState, StatusDebounce};
use grove::action::Action;
use grove::keys::{matches_keybind, KeyCode, KeyInput, Keybind};
use grove::settings_keys::{handle_settings_key, SettingsKeyState};

fn item(id: &str, parent: Option<&str>, status: &str) -> TaskListItem {
    TaskListItem {
        id: id.to_string(),
        identifier: None,
        name: id.to_string(),
        status_name: status.to_string(),
        url: String::new(),
        parent_id: parent.map(|p| p.to_string()),
        has_children: true,
    }
}

#[test]
fn deep_chains_sort_and_show_in_full() {
    let n = 12;
    let mut tasks: Vec<TaskListItem> = (0..n)
        .rev()
        .map(|k| {
            let parent = if k == 0 { None } else { Some(format!("t{}", k - 1)) };
            item(&format!("t{}", k), parent.as_deref(), "Open")
        })
        .collect();
    sort_tasks_by_parent(&mut tasks);
    let ids: Vec<String> = tasks.iter().map(|t| t.id.clone()).collect();
    let expected: Vec<String> = (0..n).map(|k| format!("t{}", k)).collect();
    assert_eq!(ids, expected);
    let expanded: Vec<String> = expected.clone();
    assert_eq!(compute_visible_task_indices(&tasks, &expanded, &[]), (0..n as usize).collect::<Vec<usize>>());
    let mut partly = expanded.clone();
    partly.retain(|id| id != "t5");
    assert_eq!(compute_visible_task_indices(&tasks, &partly, &[]), (0..6usize).collect::<Vec<usize>>());
}

#[test]
fn parent_cycles_still_list_every_task() {
    let mut tasks = vec![item("a", Some("b"), "Open"), item("b", Some("a"), "Open"), item("r", None, "Open")];
    sort_tasks_by_parent(&mut tasks);
    let ids: Vec<&str> = tasks.iter().map(|t| t.id.as_str()).collect();
    assert_eq!(ids, vec!["r", "a", "b"]);
    let expanded = vec!["a".to_string(), "b".to_string()];
    assert_eq!(compute_visible_task_indices(&tasks, &expanded, &[]), vec![0, 1, 2]);
    assert_eq!(compute_visible_task_indices(&tasks, &expanded, &["Open".to_string()]), Vec::<usize>::new());
}

#[test]
fn toggling_a_status_twice_restores_the_filter() {
    let mut b = TaskBrowser {
        tasks: vec![item("a", None, "Open")],
        expanded_ids: vec![],
        hidden_status_names: vec!["Done".to_string()],
        selected: 0,
        scroll: 0,
        loading: false,
    };
    b.toggle_status_filter("Blocked".to_string());
    b.toggle_status_filter("Blocked".to_string());
    assert_eq!(b.hidden_status_names, vec!["Done".to_string()]);
    b.hidden_status_names = vec!["Done".to_string(), "Blocked".to_string()];
    b.toggle_status_filter("Done".to_string());
    b.toggle_status_filter("Done".to_string());
    assert_eq!(b.hidden_status_names, vec!["Blocked".to_string(), "Done".to_string()]);
}

fn pm_dialog() -> PmSetupDialog {
    PmSetupDialog {
        active: true,
        from_settings: false,
        step: PmSetupStep::Workspace,
        teams: vec![("a".to_string(), "A".to_string(), String::new()), ("b".to_string(), "B".to_string(), String::new())],
        all_databases: vec![],
        teams_loading: false,
        error: None,
        selected_team_index: 1,
        selected_workspace_gid: None,
        field_index: 0,
        advanced_expanded: true,
        dropdown_open: false,
        dropdown_index: 0,
        manual_team_id: "m".to_string(),
        in_progress_state: String::new(),
        done_state: String::new(),
    }
}

#[test]
fn pm_pasting_is_typing() {
    let mut typed = pm_dialog();
    let mut pasted = pm_dialog();
    typed.field_index = 1;
    pasted.field_index = 1;
    for c in "team-42".chars() {
        typed.input_char(c);
    }
    pasted.paste("team-42");
    assert_eq!(typed.manual_team_id, pasted.manual_team_id);
    typed.input_char('x');
    typed.backspace();
    assert_eq!(typed.manual_team_id, "mteam-42");
}

#[test]
fn pm_dropdown_and_rows_go_back_and_forth() {
    let mut d = pm_dialog();
    d.toggle_dropdown();
    d.confirm_dropdown();
    assert_eq!(d.selected_team_index, 1);
    d.dropdown_index = 0;
    d.dropdown_next();
    d.dropdown_prev();
    assert_eq!(d.dropdown_index, 0);
    d.navigate_next();
    d.navigate_prev();
    assert_eq!(d.field_index, 0);
    d.step = PmSetupStep::Token;
    d.next_step(grove::setup_keys::ProjectMgmtProvider::Clickup, false);
    d.prev_step(grove::setup_keys::ProjectMgmtProvider::Clickup, false);
    assert_eq!(d.step, PmSetupStep::Token);
}

fn git_dialog() -> GitSetupDialog {
    GitSetupDialog {
        active: true,
        from_settings: false,
        step: GitSetupStep::Token,
        error: None,
        field_index: 0,
        advanced_expanded: false,
        editing_text: false,
        dropdown_open: false,
        dropdown_index: 0,
        text_buffer: String::new(),
        loading: false,
        project_id: String::new(),
        owner: "o".to_string(),
        repo: "r".to_string(),
        base_url: String::new(),
        detected_from_remote: false,
        project_name: None,
        ci_provider: CodebergCiProvider::Woodpecker,
        woodpecker_repo_id: String::new(),
    }
}

#[test]
fn git_found_project_is_what_is_saved() {
    let mut d = git_dialog();
    d.project_id_fetched(99821, "g/p".to_string());
    let mut cfg = GitSavedConfig {
        gitlab_project_id: None,
        gitlab_base_url: "https://gitlab.com".to_string(),
        github_owner: None,
        github_repo: None,
        codeberg_owner: None,
        codeberg_repo: None,
        codeberg_base_url: "https://codeberg.org".to_string(),
        codeberg_ci_provider: CodebergCiProvider::ForgejoActions,
        woodpecker_repo_id: None,
    };
    d.complete(GitProvider::GitLab, &mut cfg);
    assert_eq!(cfg.gitlab_project_id, Some(99821));
}

#[test]
fn git_edits_and_dropdown_keep_values() {
    let mut d = git_dialog();
    d.field_index = 1;
    d.start_edit();
    d.confirm_edit();
    assert_eq!((d.owner.as_str(), d.repo.as_str()), ("o", "r"));
    assert!(!d.editing_text && d.text_buffer.is_empty());
    d.toggle_dropdown();
    d.confirm_dropdown();
    assert_eq!(d.ci_provider, CodebergCiProvider::Woodpecker);
    d.toggle_dropdown();
    d.toggle_dropdown();
    assert_eq!(d.ci_provider, CodebergCiProvider::Woodpecker);
}

#[test]
fn dashes_do_not_change_the_task_named() {
    let agents = vec![AgentTaskLink {
        id: 6,
        name: "six".to_string(),
        task_linked: true,
        task_id: Some("ab-c-d".to_string()),
        task_name: None,
    }];
    for input in ["abcd", "a-b-c-d", "--abcd--"] {
        match submit_input(InputMode::AssignProjectTask, &input.to_string(), Some(5), &String::new(), &agents) {
            SubmitOutcome::Warn(w) => assert_eq!(w.task_current_agent, Some((6, "six".to_string()))),
            _ => panic!("expected a warning"),
        }
    }
}

#[test]
fn numbers_read_back() {
    for n in [1u64, 42, 65535, 4294967296, u64::MAX - 1] {
        assert_eq!(parse_u64(&u64_text(n)), Some(n));
    }
}

#[test]
fn parsing_agrees_with_std() {
    for s in ["+12", "-0", "", "+", "007", "18446744073709551616", "18446744073709551615", " 1", "1_000", "٣", "99x"] {
        assert_eq!(parse_u64(s), s.parse::<u64>().ok(), "{:?}", s);
    }
}

#[test]
fn debounce_counts_on_from_what_is_pending() {
    let mut st = AgentStatusState {
        status: AgentStatus::Idle,
        status_reason: None,
        paused: false,
        debounce: StatusDebounce { pending_status: Some(AgentStatus::Paused), pending_status_count: 2 },
    };
    assert!(!st.report_status(AgentStatus::Paused, None));
    assert_eq!(st.debounce.pending_status_count, 3);
    assert_eq!(st.status, AgentStatus::Idle);
    assert!(st.report_status(AgentStatus::Paused, Some("quiet".to_string())));
    assert_eq!(st.status, AgentStatus::Paused);
    assert_eq!(st.status_reason, Some("quiet".to_string()));
    assert_eq!(st.debounce.pending_status, None);
    assert_eq!(st.debounce.pending_status_count, 0);
    // A different status starts its own count of four.
    for _ in 0..3 {
        assert!(!st.report_status(AgentStatus::Idle, None));
    }
    assert!(st.report_status(AgentStatus::Idle, None));
    assert_eq!(st.status, AgentStatus::Idle);
    // Reporting the current status clears what was pending.
    assert!(!st.report_status(AgentStatus::Paused, None));
    assert!(!st.report_status(AgentStatus::Idle, None));
    assert_eq!(st.debounce.pending_status, None);
    assert_eq!(st.debounce.pending_status_count, 0);
    // Errors and requests for input apply at once.
    assert!(st.report_status(AgentStatus::AwaitingInput, None));
    assert_eq!(st.status, AgentStatus::AwaitingInput);
    assert!(st.report_status(AgentStatus::Error("boom".to_string()), None));
    assert_eq!(st.status, AgentStatus::Error("boom".to_string()));
}

#[test]
fn paused_agents_keep_their_status_but_take_reasons() {
    let mut st = AgentStatusState {
        status: AgentStatus::Idle,
        status_reason: Some("old".to_string()),
        paused: true,
        debounce: StatusDebounce { pending_status: Some(AgentStatus::Paused), pending_status_count: 3 },
    };
    assert!(!st.report_status(AgentStatus::Error("x".to_string()), None));
    assert_eq!(st.status, AgentStatus::Idle);
    assert_eq!(st.status_reason, Some("old".to_string()));
    assert!(!st.report_status(AgentStatus::Paused, Some("new".to_string())));
    assert_eq!(st.status, AgentStatus::Idle);
    assert_eq!(st.status_reason, Some("new".to_string()));
    assert_eq!(st.debounce.pending_status, Some(AgentStatus::Paused));
    assert_eq!(st.debounce.pending_status_count, 3);
}

#[test]
fn asana_gid_parsing_is_idempotent() {
    for input in [
        "  https://app.asana.com/0/111/222/f  ",
        "https://app.asana.com/1/9/project/8/task/7777/",
        "https://app.asana.com/0/111/abc",
        "  12345 ",
        "https://app.asana.com/1/9/task//x",
        "",
        "not a gid",
    ] {
        let once = parse_asana_task_gid(input);
        assert_eq!(parse_asana_task_gid(&once), once, "{:?}", input);
        let trimmed = input.trim();
        let is_digit_piece = once.chars().all(|c| c.is_ascii_digit())
            && trimmed.trim_end_matches('/').split('/').any(|p| p == once);
        assert!(once == trimmed || is_digit_piece, "{:?}", input);
    }
    assert_eq!(parse_asana_task_gid("https://app.asana.com/0/111/222/f"), "222");
    assert_eq!(parse_asana_task_gid("https://app.asana.com/1/9/project/8/task/7777/"), "7777");
}

#[test]
fn more_expanded_or_fewer_hidden_shows_more() {
    let tasks = vec![
        item("a", None, "Open"),
        item("b", Some("a"), "Done"),
        item("c", Some("b"), "Open"),
        item("d", None, "Done"),
        item("e", Some("d"), "Open"),
    ];
    let e1: Vec<String> = vec!["a".to_string()];
    let e2: Vec<String> = vec!["a".to_string(), "b".to_string(), "d".to_string()];
    let h1: Vec<String> = vec![];
    let h2: Vec<String> = vec!["Done".to_string()];
    for h in [&h1, &h2] {
        let small = compute_visible_task_indices(&tasks, &e1, h);
        let large = compute_visible_task_indices(&tasks, &e2, h);
        assert!(small.iter().all(|i| large.contains(i)), "{:?} {:?}", small, large);
    }
    for e in [&e1, &e2] {
        let fewer = compute_visible_task_indices(&tasks, e, &h2);
        let more = compute_visible_task_indices(&tasks, e, &h1);
        assert!(fewer.iter().all(|i| more.contains(i)), "{:?} {:?}", fewer, more);
    }
    assert_eq!(compute_visible_task_indices(&tasks, &e2, &h1), vec![0, 1, 2, 3, 4]);
    assert_eq!(compute_visible_task_indices(&tasks, &e2, &h2), vec![0]);
    assert_eq!(compute_visible_task_indices(&tasks, &e1, &h1), vec![0, 1, 3]);
}

#[test]
fn captured_bindings_match_their_key_press() {
    let capture = SettingsKeyState {
        reset_pending: false,
        editing_prompt: false,
        editing_text: false,
        dropdown_open: false,
        file_browser_active: false,
        capturing_keybind: true,
        on_appearance_row: false,
        action_button: None,
        field_is_keybind: false,
    };
    let codes = [
        KeyCode::Char('a'),
        KeyCode::Char('Q'),
        KeyCode::Char('?'),
        KeyCode::Char('1'),
        KeyCode::Enter,
        KeyCode::Backspace,
        KeyCode::Tab,
        KeyCode::Delete,
        KeyCode::Home,
        KeyCode::End,
        KeyCode::PageUp,
        KeyCode::PageDown,
        KeyCode::Up,
        KeyCode::Down,
        KeyCode::Left,
        KeyCode::Right,
    ];
    for code in codes {
        for bits in 0..8u8 {
            let key = KeyInput { code, ctrl: bits & 1 != 0, shift: bits & 2 != 0, alt: bits & 4 != 0 };
            match handle_settings_key(key, &capture) {
                Some(Action::SettingsCaptureKeybind { key: k, modifiers }) => {
                    assert!(matches_keybind(key, &Keybind { key: k, modifiers }), "{:?}", key);
                }
                other => panic!("{:?} gave {:?}", key, other),
            }
        }
    }
    let f5 = KeyInput { code: KeyCode::F(5), ctrl: false, shift: false, alt: false };
    match handle_settings_key(f5, &capture) {
        Some(Action::SettingsCaptureKeybind { key: k, modifiers }) => {
            assert_eq!(k, "F5");
            assert!(!matches_keybind(f5, &Keybind { key: k, modifiers }));
        }
        other => panic!("F5 gave {:?}", other),
    }
}

#[test]
fn sorting_twice_is_sorting_once() {
    let lists = vec![
        vec![
            item("c", Some("a"), "Open"),
            item("d", Some("b"), "Open"),
            item("a", None, "Open"),
            item("e", Some("c"), "Open"),
            item("b", None, "Open"),
            item("f", Some("a"), "Open"),
        ],
        vec![
            item("x", Some("y"), "Open"),
            item("y", Some("x"), "Open"),
            item("r", None, "Open"),
            item("z", Some("missing"), "Open"),
        ],
        vec![
            item("c", Some("x"), "Open"),
            item("x", None, "Open"),
            item("x", None, "Open"),
            item("d", Some("x"), "Open"),
        ],
    ];
    for mut tasks in lists {
        sort_tasks_by_parent(&mut tasks);
        let once: Vec<(String, Option<String>)> = tasks.iter().map(|t| (t.id.clone(), t.parent_id.clone())).collect();
        sort_tasks_by_parent(&mut tasks);
        let twice: Vec<(String, Option<String>)> = tasks.iter().map(|t| (t.id.clone(), t.parent_id.clone())).collect();
        assert_eq!(once, twice);
    }
}

#[test]
fn a_leftover_count_without_a_pending_status_is_harmless() {
    let mut st = AgentStatusState {
        status: AgentStatus::Idle,
        status_reason: None,
        paused: false,
        debounce: StatusDebounce { pending_status: None, pending_status_count: u32::MAX },
    };
    assert!(!st.report_status(AgentStatus::Paused, None));
    assert_eq!(st.debounce.pending_status, Some(AgentStatus::Paused));
    assert_eq!(st.debounce.pending_status_count, 1);
    assert!(!st.report_status(AgentStatus::Paused, None));
    assert!(!st.report_status(AgentStatus::Paused, None));
    assert!(st.report_status(AgentStatus::Paused, None));
    assert_eq!(st.status, AgentStatus::Paused);
}
