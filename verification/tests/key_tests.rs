use grove::action::Action;
use grove::agent::{cached_session_id, AgentStatus, StatusDebounce};
use grove::git_diff::combine_git_diffs;
use grove::action::InputMode;
use grove::keys::{handle_input_mode_key, matches_keybind, InputState, KeyCode, KeyInput, Keybind};

fn key(code: KeyCode, ctrl: bool, shift: bool, alt: bool) -> KeyInput {
    KeyInput { code, ctrl, shift, alt }
}

fn bind(k: &str, mods: &[&str]) -> Keybind {
    Keybind { key: k.to_string(), modifiers: mods.iter().map(|m| m.to_string()).collect() }
}

#[test]
fn named_keys_match_their_codes() {
    assert!(matches_keybind(key(KeyCode::Up, false, false, false), &bind("Up", &[])));
    assert!(!matches_keybind(key(KeyCode::Down, false, false, false), &bind("Up", &[])));
    assert!(matches_keybind(key(KeyCode::PageDown, true, false, false), &bind("PageDown", &["Control"])));
    assert!(!matches_keybind(key(KeyCode::PageDown, false, false, false), &bind("PageDown", &["Control"])));
}

#[test]
fn letters_match_without_case_and_with_shift_as_listed() {
    assert!(matches_keybind(key(KeyCode::Char('n'), false, false, false), &bind("n", &[])));
    assert!(matches_keybind(key(KeyCode::Char('N'), false, true, false), &bind("n", &["Shift"])));
    assert!(!matches_keybind(key(KeyCode::Char('N'), false, true, false), &bind("n", &[])));
    assert!(!matches_keybind(key(KeyCode::Char('n'), false, false, true), &bind("n", &[])));
    assert!(matches_keybind(key(KeyCode::Char('?'), false, true, false), &bind("?", &[])));
    assert!(!matches_keybind(key(KeyCode::Char('n'), false, false, false), &bind("", &[])));
}

fn state(mode: Option<InputMode>) -> InputState {
    InputState {
        input_mode: mode,
        selected_agent_id: Some(9),
        task_list_filter_open: false,
        task_list_status_options: vec!["Todo".to_string(), "Done".to_string()],
        task_list_filter_selected: 1,
        input_buffer: "ab".to_string(),
    }
}

#[test]
fn confirm_delete_task_keys() {
    let s = state(Some(InputMode::ConfirmDeleteTask));
    assert_eq!(handle_input_mode_key(KeyCode::Char('Y'), &s), Some(Action::DeleteAgentAndCompleteTask { id: 9 }));
    assert_eq!(handle_input_mode_key(KeyCode::Char('n'), &s), Some(Action::DeleteAgent { id: 9 }));
    assert_eq!(handle_input_mode_key(KeyCode::Esc, &s), Some(Action::ExitInputMode));
    assert_eq!(handle_input_mode_key(KeyCode::Enter, &s), None);
}

#[test]
fn browse_tasks_keys() {
    let mut s = state(Some(InputMode::BrowseTasks));
    assert_eq!(handle_input_mode_key(KeyCode::Down, &s), Some(Action::SelectTaskNext));
    assert_eq!(handle_input_mode_key(KeyCode::Left, &s), Some(Action::ToggleTaskExpand));
    s.task_list_filter_open = true;
    assert_eq!(
        handle_input_mode_key(KeyCode::Char(' '), &s),
        Some(Action::ToggleTaskStatusFilter { status_name: "Done".to_string() })
    );
    s.task_list_filter_selected = 5;
    assert_eq!(handle_input_mode_key(KeyCode::Enter, &s), None);
}

#[test]
fn text_input_keys_edit_the_buffer() {
    let s = state(Some(InputMode::NewAgent));
    assert_eq!(handle_input_mode_key(KeyCode::Char('c'), &s), Some(Action::UpdateInput("abc".to_string())));
    assert_eq!(handle_input_mode_key(KeyCode::Backspace, &s), Some(Action::UpdateInput("a".to_string())));
    assert_eq!(handle_input_mode_key(KeyCode::Enter, &s), Some(Action::SubmitInput));
    let s = state(Some(InputMode::ConfirmPush));
    assert_eq!(handle_input_mode_key(KeyCode::Char('c'), &s), None);
    assert_eq!(handle_input_mode_key(KeyCode::Char('y'), &s), Some(Action::SubmitInput));
}

#[test]
fn status_changes_on_fourth_report() {
    let mut d = StatusDebounce::new();
    let current = AgentStatus::Idle;
    assert!(!d.observe(&current, &AgentStatus::Paused));
    assert!(!d.observe(&current, &AgentStatus::Paused));
    assert!(!d.observe(&current, &AgentStatus::Paused));
    assert!(d.observe(&current, &AgentStatus::Paused));
    assert_eq!(d.pending_status_count, 0);
}

#[test]
fn errors_bypass_debounce() {
    let mut d = StatusDebounce::new();
    assert!(!d.observe(&AgentStatus::Idle, &AgentStatus::Paused));
    assert!(d.observe(&AgentStatus::Idle, &AgentStatus::Error("boom".to_string())));
    assert!(d.pending_status.is_none());
    assert!(!d.observe(&AgentStatus::Idle, &AgentStatus::Idle));
}

#[test]
fn combined_diff_frames_sections() {
    assert_eq!(combine_git_diffs(None, Some("  \n".to_string()), "main"), "No changes to display");
    assert_eq!(
        combine_git_diffs(Some("d1".to_string()), None, "main"),
        "╭─ Uncommitted Changes ─╮\nd1\n"
    );
    assert_eq!(
        combine_git_diffs(Some("d1".to_string()), Some("d2".to_string()), "main"),
        "╭─ Uncommitted Changes ─╮\nd1\n╰───────────────────────╯\n\n╭─ Commits vs main ─╮\nd2\n╰───────────────────────╯\n"
    );
}

#[test]
fn cached_session_is_trimmed() {
    assert_eq!(cached_session_id(Some("  abc ")), Some("abc".to_string()));
    assert_eq!(cached_session_id(Some("   ")), None);
    assert_eq!(cached_session_id(None), None);
}
