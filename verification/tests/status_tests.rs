use grove::task_status::{
    airtable_task_status, asana_task_status, clickup_task_status, cycle_airtable, cycle_asana, cycle_clickup,
    cycle_linear, failure_message, linear_task_status, notion_task_status, AirtableRecordInfo, AirtableTaskStatus,
    AsanaTaskInfo, AsanaTaskStatus, ClickUpTaskInfo, ClickUpTaskStatus, LinearIssueInfo, LinearTaskStatus,
    NotionPageInfo, StatusMove, StatusRequest,
};

fn s(x: &str) -> String {
    x.to_string()
}

#[test]
fn asana_status_from_task() {
    let t = AsanaTaskInfo { gid: s("77"), name: s("Ship"), permalink_url: None, has_parent: true, completed: false };
    assert_eq!(
        asana_task_status(t),
        AsanaTaskStatus::InProgress {
            gid: s("77"),
            name: s("Ship"),
            url: s("https://app.asana.com/0/0/77/f"),
            is_subtask: true,
            status_name: s("In Progress"),
        }
    );
    let t = AsanaTaskInfo { gid: s("8"), name: s("Done"), permalink_url: Some(s("https://a/8")), has_parent: false, completed: true };
    assert_eq!(
        asana_task_status(t),
        AsanaTaskStatus::Completed { gid: s("8"), name: s("Done"), is_subtask: false, status_name: s("Complete") }
    );
    let t = AsanaTaskInfo { gid: s("9"), name: s("Open"), permalink_url: Some(s("https://a/9")), has_parent: false, completed: false };
    match asana_task_status(t) {
        AsanaTaskStatus::InProgress { url, .. } => assert_eq!(url, "https://a/9"),
        _ => panic!("expected in progress"),
    }
}

#[test]
fn notion_status_from_page() {
    let p = NotionPageInfo { id: s("p"), name: s("Page"), url: s("u"), status_id: None, status_name: Some(s("Todo")) };
    let st = notion_task_status(p);
    assert_eq!((st.page_id.as_str(), st.status_option_id.as_str(), st.status_name.as_str()), ("p", "", "Todo"));
}

#[test]
fn clickup_status_from_task() {
    let t = ClickUpTaskInfo { id: s("c"), name: s("N"), url: None, has_parent: false, status: s("review"), status_type: s("custom") };
    assert_eq!(
        clickup_task_status(t),
        ClickUpTaskStatus::InProgress { id: s("c"), name: s("N"), url: s(""), status: s("review"), is_subtask: false }
    );
    let t = ClickUpTaskInfo { id: s("c"), name: s("N"), url: Some(s("x")), has_parent: true, status: s("done"), status_type: s("closed") };
    assert_eq!(clickup_task_status(t), ClickUpTaskStatus::Completed { id: s("c"), name: s("N"), is_subtask: true });
}

#[test]
fn airtable_status_reads_the_status_name_in_any_case() {
    let rec = |status: Option<&str>| AirtableRecordInfo {
        id: s("r"),
        name: s("Rec"),
        url: s("https://air/r"),
        status: status.map(s),
        has_parent: false,
    };
    assert_eq!(
        airtable_task_status(rec(Some("In PROGRESS"))),
        AirtableTaskStatus::InProgress { id: s("r"), name: s("Rec"), url: s("https://air/r"), is_subtask: false }
    );
    assert_eq!(
        airtable_task_status(rec(Some("DONE"))),
        AirtableTaskStatus::Completed { id: s("r"), name: s("Rec"), is_subtask: false }
    );
    assert_eq!(
        airtable_task_status(rec(Some("Completed"))),
        AirtableTaskStatus::Completed { id: s("r"), name: s("Rec"), is_subtask: false }
    );
    assert_eq!(
        airtable_task_status(rec(None)),
        AirtableTaskStatus::NotStarted { id: s("r"), name: s("Rec"), url: s("https://air/r"), is_subtask: false }
    );
}

#[test]
fn linear_status_from_state_kind() {
    let issue = |kind: &str| LinearIssueInfo {
        id: s("i"),
        identifier: s("ENG-1"),
        title: s("Fix"),
        state_type: s(kind),
        state_name: s("State"),
        url: s("https://l/i"),
        has_parent: true,
    };
    assert!(matches!(linear_task_status(issue("cancelled")), LinearTaskStatus::Completed { .. }));
    assert!(matches!(linear_task_status(issue("completed")), LinearTaskStatus::Completed { .. }));
    assert_eq!(
        linear_task_status(issue("started")),
        LinearTaskStatus::InProgress {
            id: s("i"),
            identifier: s("ENG-1"),
            name: s("Fix"),
            status_name: s("State"),
            url: s("https://l/i"),
            is_subtask: true,
        }
    );
    assert!(matches!(linear_task_status(issue("backlog")), LinearTaskStatus::NotStarted { .. }));
    assert!(matches!(linear_task_status(issue("Started")), LinearTaskStatus::NotStarted { .. }));
}

fn req(id: &str, to: StatusMove) -> StatusRequest {
    StatusRequest { task_id: s(id), to }
}

#[test]
fn asana_cycle_goes_round() {
    let start = AsanaTaskStatus::NotStarted {
        gid: s("g"),
        name: s("N"),
        url: s("https://u"),
        is_subtask: false,
        status_name: s("Backlog"),
    };
    let (st, r) = cycle_asana(&start).unwrap();
    assert_eq!(r, req("g", StatusMove::ToInProgress));
    assert_eq!(
        st,
        AsanaTaskStatus::InProgress {
            gid: s("g"),
            name: s("N"),
            url: s("https://u"),
            is_subtask: false,
            status_name: s("In Progress"),
        }
    );
    let (st, r) = cycle_asana(&st).unwrap();
    assert_eq!(r, req("g", StatusMove::ToDone));
    assert_eq!(st, AsanaTaskStatus::Completed { gid: s("g"), name: s("N"), is_subtask: false, status_name: s("Complete") });
    let (st, r) = cycle_asana(&st).unwrap();
    assert_eq!(r, req("g", StatusMove::ToNotStarted));
    assert_eq!(
        st,
        AsanaTaskStatus::NotStarted { gid: s("g"), name: s("N"), url: s(""), is_subtask: false, status_name: s("Not Started") }
    );
    assert!(cycle_asana(&AsanaTaskStatus::Unlinked).is_none());
    assert!(cycle_asana(&AsanaTaskStatus::Error { gid: s("g"), message: s("m") }).is_none());
}

#[test]
fn other_providers_cycle() {
    let c = ClickUpTaskStatus::Completed { id: s("c"), name: s("N"), is_subtask: true };
    let (st, r) = cycle_clickup(&c).unwrap();
    assert_eq!(r, req("c", StatusMove::ToNotStarted));
    assert_eq!(st, ClickUpTaskStatus::NotStarted { id: s("c"), name: s("N"), url: s(""), status: s(""), is_subtask: true });
    let (st, _) = cycle_clickup(&st).unwrap();
    assert!(matches!(st, ClickUpTaskStatus::InProgress { .. }));
    let t = AirtableTaskStatus::InProgress { id: s("t"), name: s("N"), url: s("u"), is_subtask: false };
    let (st, r) = cycle_airtable(&t).unwrap();
    assert_eq!(r, req("t", StatusMove::ToDone));
    assert_eq!(st, AirtableTaskStatus::Completed { id: s("t"), name: s("N"), is_subtask: false });
    let l = LinearTaskStatus::InProgress {
        id: s("l"),
        identifier: s("ENG-2"),
        name: s("N"),
        status_name: s("Doing"),
        url: s("u"),
        is_subtask: false,
    };
    let (st, r) = cycle_linear(&l).unwrap();
    assert_eq!(r, req("l", StatusMove::ToDone));
    assert_eq!(
        st,
        LinearTaskStatus::Completed { id: s("l"), identifier: s("ENG-2"), name: s("N"), status_name: s("Done"), is_subtask: false }
    );
    let (st, _) = cycle_linear(&st).unwrap();
    assert!(matches!(st, LinearTaskStatus::NotStarted { ref status_name, .. } if status_name == "Todo"));
    assert!(cycle_linear(&LinearTaskStatus::Unlinked).is_none());
}

#[test]
fn failure_messages() {
    assert_eq!(failure_message(StatusMove::ToInProgress, "timeout"), "Failed to move to In Progress: timeout");
    assert_eq!(failure_message(StatusMove::ToDone, "403"), "Failed to complete task: 403");
    assert_eq!(failure_message(StatusMove::ToNotStarted, ""), "Failed to uncomplete task: ");
}
