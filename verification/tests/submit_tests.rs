use grove::action::{Action, InputMode};
use grove::submit::{
    assign_selected_task, confirm_reassignment, decide_submit, submit_input, AgentTaskLink, SubmitOutcome,
    TaskReassignmentWarning,
};
use grove::tasks::TaskListItem;

fn agent(id: u128, name: &str, linked: bool, task_id: Option<&str>) -> AgentTaskLink {
    AgentTaskLink {
        id,
        name: name.to_string(),
        task_linked: linked,
        task_id: task_id.map(|t| t.to_string()),
        task_name: task_id.map(|t| format!("Task {}", t)),
    }
}

fn sent(o: SubmitOutcome) -> Action {
    match o {
        SubmitOutcome::Send(a) => a,
        _ => panic!("expected an action"),
    }
}

#[test]
fn new_agent_trims_the_name_and_rejects_blank_branches() {
    let a = sent(submit_input(InputMode::NewAgent, &"  fix bug ".to_string(), None, &"fix-bug".to_string(), &vec![]));
    assert_eq!(a, Action::CreateAgent { name: "fix bug".to_string(), branch: "fix-bug".to_string(), task: None });
    let a = sent(submit_input(InputMode::NewAgent, &"   ".to_string(), None, &String::new(), &vec![]));
    assert_eq!(a, Action::ShowError("Invalid name: name cannot be only spaces".to_string()));
    assert!(matches!(
        submit_input(InputMode::NewAgent, &String::new(), None, &String::new(), &vec![]),
        SubmitOutcome::Nothing
    ));
}

#[test]
fn prompts_about_the_selected_agent() {
    let e = String::new();
    assert_eq!(
        sent(submit_input(InputMode::SetNote, &"remember".to_string(), Some(5), &e, &vec![])),
        Action::SetAgentNote { id: 5, note: Some("remember".to_string()) }
    );
    assert_eq!(sent(submit_input(InputMode::SetNote, &e, Some(5), &e, &vec![])), Action::SetAgentNote { id: 5, note: None });
    assert_eq!(sent(submit_input(InputMode::ConfirmDelete, &e, Some(5), &e, &vec![])), Action::DeleteAgent { id: 5 });
    assert_eq!(sent(submit_input(InputMode::ConfirmMerge, &e, Some(5), &e, &vec![])), Action::MergeMain { id: 5 });
    assert_eq!(sent(submit_input(InputMode::ConfirmPush, &e, Some(5), &e, &vec![])), Action::PushBranch { id: 5 });
    assert_eq!(
        sent(submit_input(InputMode::AssignAsana, &"123".to_string(), Some(5), &e, &vec![])),
        Action::AssignAsanaTask { id: 5, url_or_gid: "123".to_string() }
    );
    assert!(matches!(submit_input(InputMode::ConfirmDelete, &e, None, &e, &vec![]), SubmitOutcome::Nothing));
    assert!(matches!(submit_input(InputMode::AssignAsana, &e, Some(5), &e, &vec![]), SubmitOutcome::Nothing));
    assert!(matches!(submit_input(InputMode::BrowseTasks, &"x".to_string(), Some(5), &e, &vec![]), SubmitOutcome::Nothing));
}

#[test]
fn project_task_assignment_goes_through_when_free() {
    let agents = vec![agent(5, "five", false, None), agent(6, "six", true, Some("OTHER-1"))];
    assert_eq!(
        sent(submit_input(InputMode::AssignProjectTask, &"ABC-12".to_string(), Some(5), &String::new(), &agents)),
        Action::AssignProjectTask { id: 5, url_or_id: "ABC-12".to_string() }
    );
}

#[test]
fn project_task_assignment_warns_when_taken() {
    let agents = vec![agent(5, "five", true, Some("T-9")), agent(6, "six", true, Some("ABC-12"))];
    match submit_input(InputMode::AssignProjectTask, &"https://x.example/team/abc12".to_string(), Some(5), &String::new(), &agents) {
        SubmitOutcome::Warn(w) => {
            assert_eq!(w.target_agent_id, 5);
            assert_eq!(w.task_id, "https://x.example/team/abc12");
            assert_eq!(w.agent_current_task, Some(("T-9".to_string(), "Task T-9".to_string())));
            assert_eq!(w.task_current_agent, Some((6, "six".to_string())));
        }
        _ => panic!("expected a warning"),
    }
    let agents = vec![agent(6, "six", true, Some("abc-12"))];
    match submit_input(InputMode::AssignProjectTask, &"ABC12".to_string(), Some(5), &String::new(), &agents) {
        SubmitOutcome::Warn(w) => {
            assert_eq!(w.agent_current_task, None);
            assert_eq!(w.task_current_agent, Some((6, "six".to_string())));
        }
        _ => panic!("expected a warning"),
    }
}

#[test]
fn decision_uses_the_given_keys() {
    let agents = vec![agent(6, "six", false, Some("anything"))];
    let keys = vec![Some("k".to_string())];
    match decide_submit(InputMode::AssignProjectTask, &"in".to_string(), Some(5), &String::new(), &agents, &"k".to_string(), &keys) {
        SubmitOutcome::Warn(w) => assert_eq!(w.task_current_agent, Some((6, "six".to_string()))),
        _ => panic!("expected a warning"),
    }
    assert_eq!(
        sent(decide_submit(InputMode::AssignProjectTask, &"in".to_string(), Some(5), &String::new(), &agents, &"j".to_string(), &keys)),
        Action::AssignProjectTask { id: 5, url_or_id: "in".to_string() }
    );
}

fn list_task(id: &str, name: &str) -> TaskListItem {
    TaskListItem {
        id: id.to_string(),
        identifier: None,
        name: name.to_string(),
        status_name: "Open".to_string(),
        url: String::new(),
        parent_id: None,
        has_children: false,
    }
}

#[test]
fn assigning_the_selected_task() {
    let tasks = vec![list_task("T-1", "First"), list_task("X-2", "Second")];
    let agents = vec![agent(5, "five", false, None), agent(6, "six", true, Some("t1"))];
    match assign_selected_task(&tasks, 0, Some(5), &agents) {
        SubmitOutcome::Warn(w) => {
            assert_eq!((w.task_id.as_str(), w.task_name.as_str()), ("T-1", "First"));
            assert_eq!(w.task_current_agent, Some((6, "six".to_string())));
            assert_eq!(w.agent_current_task, None);
        }
        _ => panic!("expected a warning"),
    }
    assert_eq!(
        sent(assign_selected_task(&tasks, 1, Some(5), &agents)),
        Action::AssignProjectTask { id: 5, url_or_id: "X-2".to_string() }
    );
    assert!(matches!(assign_selected_task(&tasks, 1, None, &agents), SubmitOutcome::NoAgentSelected));
    assert!(matches!(assign_selected_task(&tasks, 2, Some(5), &agents), SubmitOutcome::Nothing));
    let tasks = vec![list_task("a/b", "Path")];
    let agents = vec![agent(6, "six", false, Some("b"))];
    assert!(matches!(assign_selected_task(&tasks, 0, Some(5), &agents), SubmitOutcome::Send(_)));
}

#[test]
fn confirming_a_reassignment() {
    let w = TaskReassignmentWarning {
        target_agent_id: 5,
        task_id: "T-1".to_string(),
        task_name: "First".to_string(),
        agent_current_task: None,
        task_current_agent: Some((6, "six".to_string())),
    };
    let (unlink, action) = confirm_reassignment(w);
    assert_eq!(unlink, Some(6));
    assert_eq!(action, Action::AssignProjectTask { id: 5, url_or_id: "T-1".to_string() });
}
