use grove::setup_keys::ProjectMgmtProvider;
use grove::task_agent::{
    finish_plan, linear_task_title, plan_agent_for_task, task_link_status, AgentPlan, BranchSource, TaskLink,
};
use grove::task_status::{AsanaTaskStatus, LinearTaskStatus};
use grove::tasks::TaskListItem;

fn task(identifier: Option<&str>, name: &str, parent: Option<&str>) -> TaskListItem {
    TaskListItem {
        id: "id-1".to_string(),
        identifier: identifier.map(|s| s.to_string()),
        name: name.to_string(),
        status_name: "Todo".to_string(),
        url: "https://t/1".to_string(),
        parent_id: parent.map(|s| s.to_string()),
        has_children: false,
    }
}

#[test]
fn linear_titles_drop_the_identifier() {
    assert_eq!(linear_task_title("ENG-12 - Fix login", "ENG-12"), "Fix login");
    assert_eq!(linear_task_title("ENG-12", "ENG-12"), "ENG-12");
    assert_eq!(linear_task_title("Other name", "ENG-12"), "Other name");
    assert_eq!(linear_task_title("ENG-12 -- ", "ENG-12"), "ENG-12 -- ");
    assert_eq!(linear_task_title("ENG-12:  x ", "ENG-12"), ":  x");
}

#[test]
fn plans_for_linear_tasks() {
    let user = Some("ana".to_string());
    let plan = plan_agent_for_task(&task(Some("ENG-7"), "ENG-7 Add cache", None), ProjectMgmtProvider::Linear, &user).unwrap();
    assert_eq!(
        plan,
        AgentPlan {
            name: "ENG-7 Add cache".to_string(),
            branch_source: BranchSource::Linear {
                username: "ana".to_string(),
                identifier: "ENG-7".to_string(),
                title: "Add cache".to_string(),
            },
        }
    );
    assert_eq!(
        plan_agent_for_task(&task(None, "x", None), ProjectMgmtProvider::Linear, &user),
        Err("Linear task has no identifier".to_string())
    );
    assert_eq!(
        plan_agent_for_task(&task(Some("E-1"), "x", None), ProjectMgmtProvider::Linear, &Some(String::new())),
        Err("Linear username not configured. Please re-run Linear setup.".to_string())
    );
    assert_eq!(
        plan_agent_for_task(&task(Some("E-1"), "x", None), ProjectMgmtProvider::Linear, &None),
        Err("Linear username not configured. Please re-run Linear setup.".to_string())
    );
}

#[test]
fn plans_for_other_tasks_and_branch_check() {
    let plan = plan_agent_for_task(&task(None, "Write docs", None), ProjectMgmtProvider::Asana, &None).unwrap();
    assert_eq!(plan.name, "Write docs");
    assert_eq!(plan.branch_source, BranchSource::Plain("Write docs".to_string()));
    assert_eq!(finish_plan(plan, String::new()), Err("Invalid task name for branch".to_string()));
    let plan = plan_agent_for_task(&task(None, "Write docs", None), ProjectMgmtProvider::Notion, &None).unwrap();
    assert_eq!(finish_plan(plan, "write-docs".to_string()), Ok(("Write docs".to_string(), "write-docs".to_string())));
    let linear = AgentPlan {
        name: "E-1 t".to_string(),
        branch_source: BranchSource::Linear { username: "a".to_string(), identifier: "E-1".to_string(), title: "t".to_string() },
    };
    assert_eq!(finish_plan(linear, String::new()), Ok(("E-1 t".to_string(), String::new())));
}

#[test]
fn link_status_for_each_provider() {
    let t = task(Some("ENG-3"), "Name", Some("parent"));
    assert_eq!(
        task_link_status(&t, ProjectMgmtProvider::Asana),
        TaskLink::Asana(AsanaTaskStatus::NotStarted {
            gid: "id-1".to_string(),
            name: "Name".to_string(),
            url: "https://t/1".to_string(),
            is_subtask: true,
            status_name: "Todo".to_string(),
        })
    );
    assert_eq!(
        task_link_status(&t, ProjectMgmtProvider::Linear),
        TaskLink::Linear(LinearTaskStatus::NotStarted {
            id: "id-1".to_string(),
            identifier: "ENG-3".to_string(),
            name: "Name".to_string(),
            status_name: "Todo".to_string(),
            url: "https://t/1".to_string(),
            is_subtask: true,
        })
    );
    match task_link_status(&task(None, "N", None), ProjectMgmtProvider::Notion) {
        TaskLink::Notion(n) => assert_eq!((n.page_id.as_str(), n.status_option_id.as_str()), ("id-1", "")),
        _ => panic!("expected a Notion link"),
    }
    match task_link_status(&task(None, "N", None), ProjectMgmtProvider::Beads) {
        TaskLink::Beads { identifier, .. } => assert_eq!(identifier, ""),
        _ => panic!("expected a Beads link"),
    }
}
