use grove::tasks::{compute_visible_task_indices, parse_asana_task_gid, sort_tasks_by_parent, TaskListItem};

fn task(id: &str, parent: Option<&str>, status: &str) -> TaskListItem {
    TaskListItem {
        id: id.to_string(),
        identifier: None,
        name: format!("task {}", id),
        status_name: status.to_string(),
        url: String::new(),
        parent_id: parent.map(|p| p.to_string()),
        has_children: false,
    }
}

fn ids(tasks: &[TaskListItem]) -> Vec<&str> {
    tasks.iter().map(|t| t.id.as_str()).collect()
}

#[test]
fn asana_new_format_url() {
    assert_eq!(
        parse_asana_task_gid("https://app.asana.com/1/111/project/222/task/333"),
        "333"
    );
}

#[test]
fn asana_old_format_url() {
    assert_eq!(parse_asana_task_gid("https://app.asana.com/0/222/333/f"), "333");
    assert_eq!(parse_asana_task_gid("  https://app.asana.com/0/222/444/  "), "444");
}

#[test]
fn asana_bare_gid_is_trimmed() {
    assert_eq!(parse_asana_task_gid("  12345 \n"), "12345");
    assert_eq!(parse_asana_task_gid("https://example.com/task/1"), "https://example.com/task/1");
}

#[test]
fn asana_url_without_gid_is_returned_trimmed() {
    assert_eq!(parse_asana_task_gid(" https://app.asana.com/0/abc "), "https://app.asana.com/0/abc");
}

#[test]
fn children_follow_their_parents() {
    let mut tasks = vec![
        task("c1", Some("p"), "Open"),
        task("q", None, "Open"),
        task("p", None, "Open"),
        task("c2", Some("p"), "Open"),
        task("g", Some("c1"), "Open"),
    ];
    sort_tasks_by_parent(&mut tasks);
    assert_eq!(ids(&tasks), vec!["q", "p", "c1", "g", "c2"]);
}

#[test]
fn orphans_and_cycles_go_last_in_list_order() {
    let mut tasks = vec![
        task("a", Some("b"), "Open"),
        task("r", None, "Open"),
        task("b", Some("a"), "Open"),
        task("o", Some("missing"), "Open"),
    ];
    sort_tasks_by_parent(&mut tasks);
    assert_eq!(ids(&tasks), vec!["r", "a", "b", "o"]);
}

#[test]
fn flat_list_is_unchanged() {
    let mut tasks = vec![task("x", None, "Open"), task("y", None, "Open")];
    sort_tasks_by_parent(&mut tasks);
    assert_eq!(ids(&tasks), vec!["x", "y"]);
}

#[test]
fn visible_tasks_follow_expansion_and_status() {
    let tasks = vec![
        task("p", None, "Open"),
        task("c", Some("p"), "Open"),
        task("d", Some("c"), "Open"),
        task("h", None, "Done"),
        task("k", Some("h"), "Open"),
    ];
    let hidden = vec!["Done".to_string()];
    assert_eq!(compute_visible_task_indices(&tasks, &[], &hidden), vec![0]);
    let expanded = vec!["p".to_string()];
    assert_eq!(compute_visible_task_indices(&tasks, &expanded, &hidden), vec![0, 1]);
    let expanded = vec!["p".to_string(), "c".to_string(), "h".to_string()];
    assert_eq!(compute_visible_task_indices(&tasks, &expanded, &hidden), vec![0, 1, 2]);
    assert_eq!(compute_visible_task_indices(&tasks, &expanded, &[]), vec![0, 1, 2, 3, 4]);
}

#[test]
fn parent_cycle_stops_the_walk() {
    let tasks = vec![task("a", Some("b"), "Open"), task("b", Some("a"), "Open")];
    let expanded = vec!["a".to_string(), "b".to_string()];
    assert_eq!(compute_visible_task_indices(&tasks, &expanded, &[]), vec![0, 1]);
}
