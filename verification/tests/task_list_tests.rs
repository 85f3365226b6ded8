use grove::keys::InputState;
use grove::task_list::{build_asana_task_list, build_task_list, AsanaListTask, FetchedTask};
use grove::task_nav::TaskBrowser;

fn fetched(id: &str, status: Option<&str>, parent: Option<&str>) -> FetchedTask {
    FetchedTask {
        id: id.to_string(),
        identifier: None,
        name: format!("Task {}", id),
        status: status.map(|s| s.to_string()),
        url: format!("https://x/{}", id),
        parent_id: parent.map(|p| p.to_string()),
    }
}

#[test]
fn fetched_tasks_become_a_sorted_list() {
    let list = build_task_list(
        &vec![fetched("c", Some("Open"), Some("p")), fetched("p", None, None), fetched("q", Some("Done"), None)],
        "Unknown",
    );
    let ids: Vec<&str> = list.iter().map(|t| t.id.as_str()).collect();
    assert_eq!(ids, vec!["p", "c", "q"]);
    assert!(list[0].has_children);
    assert!(!list[1].has_children && !list[2].has_children);
    assert_eq!(list[0].status_name, "Unknown");
    assert_eq!(list[1].status_name, "Open");
    assert_eq!(list[1].parent_id, Some("p".to_string()));
}

#[test]
fn asana_tasks_become_a_sorted_list() {
    let t = |gid: &str, parent: Option<&str>, completed: bool, section: Option<&str>, subtasks: u64| AsanaListTask {
        gid: gid.to_string(),
        name: gid.to_uppercase(),
        permalink_url: None,
        parent_gid: parent.map(|p| p.to_string()),
        completed,
        section_name: section.map(|s| s.to_string()),
        num_subtasks: subtasks,
    };
    let list = build_asana_task_list(&vec![
        t("s1", Some("a"), true, Some("ignored"), 0),
        t("a", None, false, Some("Doing"), 2),
        t("s2", Some("a"), false, None, 0),
        t("b", None, true, None, 0),
    ]);
    let got: Vec<(&str, &str, bool)> = list.iter().map(|x| (x.id.as_str(), x.status_name.as_str(), x.has_children)).collect();
    assert_eq!(
        got,
        vec![("a", "Doing", true), ("s1", "Complete", false), ("s2", "Not Complete", false), ("b", "No Section", false)]
    );
    assert_eq!(list[0].url, "");
}

#[test]
fn fetched_list_starts_with_parents_expanded() {
    let mut b = TaskBrowser {
        tasks: vec![],
        expanded_ids: vec!["old".to_string()],
        hidden_status_names: vec!["Done".to_string()],
        selected: 4,
        scroll: 2,
        loading: false,
    };
    let list = build_task_list(
        &vec![fetched("p", None, None), fetched("c", None, Some("p")), fetched("p", None, None)],
        "Unknown",
    );
    let mut input = InputState {
        input_mode: None,
        selected_agent_id: None,
        task_list_filter_open: true,
        task_list_status_options: vec!["Open".to_string()],
        task_list_filter_selected: 3,
        input_buffer: String::new(),
    };
    b.fetch_started();
    assert!(b.loading && b.tasks.is_empty());
    b.tasks_fetched(list, &mut input);
    assert!(!b.loading);
    assert_eq!(input.task_list_filter_selected, 0);
    assert!(input.task_list_filter_open);
    assert_eq!(b.expanded_ids, vec!["p".to_string()]);
    assert_eq!((b.selected, b.scroll), (0, 2));
    assert_eq!(b.hidden_status_names, vec!["Done".to_string()]);
}

#[test]
fn loaded_status_options_keep_a_valid_filter_row() {
    let mut st = InputState {
        input_mode: None,
        selected_agent_id: None,
        task_list_filter_open: true,
        task_list_status_options: vec![],
        task_list_filter_selected: 3,
        input_buffer: String::new(),
    };
    st.status_options_loaded(vec!["a".to_string(), "b".to_string()]);
    assert_eq!(st.task_list_filter_selected, 0);
    st.task_list_filter_selected = 1;
    st.status_options_loaded(vec!["a".to_string(), "b".to_string(), "c".to_string()]);
    assert_eq!(st.task_list_filter_selected, 1);
}
