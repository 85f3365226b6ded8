//! Starting an agent on a task from the task list: the agent's name, where
//! its branch name comes from, and the status that links the task to it.
use vstd::prelude::*;
use crate::agent::opt_text;
use crate::setup_keys::ProjectMgmtProvider;
use crate::task_status::{
    AirtableTaskStatus, AsanaTaskStatus, ClickUpTaskStatus, LinearTaskStatus, NotionTaskStatus,
};
use crate::tasks::{TaskListItem, TaskListItemView};
use crate::text::{chars_of, trim_text, trim_ws};

verus! {

/// `s` without the `-` and space characters it starts with.
pub open spec fn strip_leading_dashes(s: Seq<char>) -> Seq<char>
    decreases s.len(),
{
    if s.len() > 0 && (s[0] == '-' || s[0] == ' ') {
        strip_leading_dashes(s.drop_first())
    } else {
        s
    }
}

/// `s` without the prefix `p`, where it starts with it.
pub open spec fn strip_prefix_text(s: Seq<char>, p: Seq<char>) -> Seq<char> {
    if p.len() <= s.len() && s.subrange(0, p.len() as int) == p {
        s.subrange(p.len() as int, s.len() as int)
    } else {
        s
    }
}

/// The title of a Linear task for its agent: the task's name without its
/// identifier in front, trimmed and without leading dashes; the whole name
/// where nothing is left.
pub open spec fn linear_title(name: Seq<char>, identifier: Seq<char>) -> Seq<char> {
    let rest = strip_leading_dashes(trim_ws(strip_prefix_text(name, identifier)));
    if rest.len() == 0 { name } else { rest }
}

/// Where an agent's branch name is made from: a Linear user, issue
/// identifier and title, or a plain text.
#[derive(Debug, PartialEq, Eq)]
pub enum BranchSource {
    Linear { username: String, identifier: String, title: String },
    Plain(String),
}

/// An agent to start on a task: its name and where its branch name comes from.
#[derive(Debug, PartialEq, Eq)]
pub struct AgentPlan {
    pub name: String,
    pub branch_source: BranchSource,
}

/// The message where a Linear task has no identifier.
pub open spec fn no_identifier_message() -> Seq<char> {
    "Linear task has no identifier"@
}

/// The message where no Linear user is configured.
pub open spec fn no_username_message() -> Seq<char> {
    "Linear username not configured. Please re-run Linear setup."@
}

/// The message where a task's name gives no branch name.
pub open spec fn invalid_branch_message() -> Seq<char> {
    "Invalid task name for branch"@
}

/// A text, or the empty text where there is none.
pub open spec fn or_empty(o: Option<Seq<char>>) -> Seq<char> {
    match o {
        Some(t) => t,
        None => Seq::empty(),
    }
}

fn strip_dashes_front(s: &str) -> (r: String)
    ensures
        r@ == strip_leading_dashes(s@),
{
    let cs = chars_of(s);
    let mut k: usize = 0;
    proof {
        assert(s@.subrange(0, s@.len() as int) =~= s@);
    }
    while k < cs.len() && (cs[k] == '-' || cs[k] == ' ')
        invariant
            k <= cs@.len(),
            cs@ == s@,
            strip_leading_dashes(s@) == strip_leading_dashes(s@.subrange(k as int, s@.len() as int)),
        decreases cs.len() - k,
    {
        proof {
            let t = s@.subrange(k as int, s@.len() as int);
            assert(t.drop_first() =~= s@.subrange(k as int + 1, s@.len() as int));
        }
        k = k + 1;
    }
    proof {
        let t = s@.subrange(k as int, s@.len() as int);
        assert(strip_leading_dashes(t) == t);
    }
    crate::text::text_of_segment(s, k, cs.len())
}

fn strip_prefix_of(s: &str, p: &str) -> (r: String)
    ensures
        r@ == strip_prefix_text(s@, p@),
{
    let n = p.unicode_len();
    let m = s.unicode_len();
    if n <= m && crate::text::str_eq(s.substring_char(0, n), p) {
        crate::text::text_of_segment(s, n, m)
    } else {
        String::from_str(s)
    }
}

/// The title of a Linear task for its agent; see [`linear_title`].
pub fn linear_task_title(name: &str, identifier: &str) -> (r: String)
    ensures
        r@ == linear_title(name@, identifier@),
{
    let stripped = strip_prefix_of(name, identifier);
    let trimmed = trim_text(stripped.as_str());
    let rest = strip_dashes_front(trimmed.as_str());
    if rest.unicode_len() == 0 {
        String::from_str(name)
    } else {
        rest
    }
}

/// The agent to start on `task` for `provider`: for Linear, named by the
/// issue identifier and title, with a branch from the configured Linear
/// user, the identifier and the title (an error where no user is configured,
/// or the task has no identifier); for the others, named by the task, with
/// a branch from the task's name.
pub fn plan_agent_for_task(
    task: &TaskListItem,
    provider: ProjectMgmtProvider,
    linear_username: &Option<String>,
) -> (r: Result<AgentPlan, String>)
    ensures
        provider == ProjectMgmtProvider::Linear ==> match opt_text(*linear_username) {
            Some(u) if u.len() > 0 => {
                let id = or_empty(opt_text(task.identifier));
                if id.len() == 0 {
                    r matches Err(e) && e@ == no_identifier_message()
                } else {
                    let title = linear_title(task.name@, id);
                    r matches Ok(plan) && plan.name@ == id + " "@ + title && (plan.branch_source matches BranchSource::Linear {
                        username,
                        identifier,
                        title: t,
                    } && username@ == u && identifier@ == id && t@ == title)
                }
            },
            _ => r matches Err(e) && e@ == no_username_message(),
        },
        provider != ProjectMgmtProvider::Linear ==> (r matches Ok(plan) && plan.name@ == task.name@
            && (plan.branch_source matches BranchSource::Plain(t) && t@ == task.name@)),
{
    match provider {
        ProjectMgmtProvider::Linear => {
            match linear_username {
                Some(u) if u.unicode_len() > 0 => {
                    let identifier = match &task.identifier {
                        Some(i) => i.clone(),
                        None => String::new(),
                    };
                    if identifier.unicode_len() == 0 {
                        return Err(String::from_str("Linear task has no identifier"));
                    }
                    let title = linear_task_title(task.name.as_str(), identifier.as_str());
                    let mut name = identifier.clone();
                    crate::keys::push_char(&mut name, ' ');
                    let tcs = chars_of(title.as_str());
                    let mut i: usize = 0;
                    proof {
                        reveal_strlit(" ");
                        assert(identifier@ + " "@ + title@.take(0) =~= identifier@.push(' '));
                    }
                    while i < tcs.len()
                        invariant
                            i <= tcs@.len(),
                            tcs@ == title@,
                            name@ == identifier@ + " "@ + title@.take(i as int),
                        decreases tcs.len() - i,
                    {
                        crate::keys::push_char(&mut name, tcs[i]);
                        proof {
                            assert(identifier@ + " "@ + title@.take(i as int + 1)
                                =~= (identifier@ + " "@ + title@.take(i as int)).push(tcs@[i as int]));
                        }
                        i = i + 1;
                    }
                    proof {
                        reveal_strlit(" ");
                        assert(title@.take(tcs@.len() as int) =~= title@);
                    }
                    Ok(AgentPlan {
                        name,
                        branch_source: BranchSource::Linear { username: u.clone(), identifier, title },
                    })
                },
                _ => Err(String::from_str("Linear username not configured. Please re-run Linear setup.")),
            }
        },
        _ => Ok(AgentPlan { name: task.name.clone(), branch_source: BranchSource::Plain(task.name.clone()) }),
    }
}

/// The agent's name and branch once the branch name is made: a plain branch
/// source that gives an empty branch name is refused.
pub fn finish_plan(plan: AgentPlan, branch: String) -> (r: Result<(String, String), String>)
    ensures
        (plan.branch_source is Plain && branch@.len() == 0) ==> (r matches Err(e) && e@ == invalid_branch_message()),
        !(plan.branch_source is Plain && branch@.len() == 0) ==> (r matches Ok(p) && p.0@ == plan.name@
            && p.1@ == branch@),
{
    let plain = match &plan.branch_source {
        BranchSource::Plain(_) => true,
        _ => false,
    };
    if plain && branch.unicode_len() == 0 {
        Err(String::from_str("Invalid task name for branch"))
    } else {
        Ok((plan.name, branch))
    }
}

/// The status that links a task to a new agent, for each provider.
#[derive(Debug, PartialEq, Eq)]
pub enum TaskLink {
    Asana(AsanaTaskStatus),
    Notion(NotionTaskStatus),
    ClickUp(ClickUpTaskStatus),
    Airtable(AirtableTaskStatus),
    Linear(LinearTaskStatus),
    Beads { id: String, identifier: String, name: String, status_name: String, url: String },
}

/// Whether a task from the list is a subtask: it has a parent.
pub open spec fn is_subtask(t: TaskListItemView) -> bool {
    t.parent_id is Some
}

/// The status that links `task` to a new agent: not started (linked, for
/// Notion) with the task's id, name, address and status.
pub fn task_link_status(task: &TaskListItem, provider: ProjectMgmtProvider) -> (r: TaskLink)
    ensures
        provider == ProjectMgmtProvider::Asana ==> (r matches TaskLink::Asana(
            AsanaTaskStatus::NotStarted { gid, name, url, is_subtask: sub, status_name },
        ) && gid@ == task.id@ && name@ == task.name@ && url@ == task.url@ && sub == is_subtask(task@)
            && status_name@ == task.status_name@),
        provider == ProjectMgmtProvider::Notion ==> (r matches TaskLink::Notion(n) && n.page_id@ == task.id@
            && n.name@ == task.name@ && n.url@ == task.url@ && n.status_option_id@.len() == 0
            && n.status_name@ == task.status_name@),
        provider == ProjectMgmtProvider::Clickup ==> (r matches TaskLink::ClickUp(
            ClickUpTaskStatus::NotStarted { id, name, url, status, is_subtask: sub },
        ) && id@ == task.id@ && name@ == task.name@ && url@ == task.url@ && status@ == task.status_name@
            && sub == is_subtask(task@)),
        provider == ProjectMgmtProvider::Airtable ==> (r matches TaskLink::Airtable(
            AirtableTaskStatus::NotStarted { id, name, url, is_subtask: sub },
        ) && id@ == task.id@ && name@ == task.name@ && url@ == task.url@ && sub == is_subtask(task@)),
        provider == ProjectMgmtProvider::Linear ==> (r matches TaskLink::Linear(
            LinearTaskStatus::NotStarted { id, identifier, name, status_name, url, is_subtask: sub },
        ) && id@ == task.id@ && identifier@ == or_empty(opt_text(task.identifier)) && name@ == task.name@
            && status_name@ == task.status_name@ && url@ == task.url@ && sub == is_subtask(task@)),
        provider == ProjectMgmtProvider::Beads ==> (r matches TaskLink::Beads { id, identifier, name, status_name, url }
            && id@ == task.id@ && identifier@ == or_empty(opt_text(task.identifier)) && name@ == task.name@
            && status_name@ == task.status_name@ && url@ == task.url@),
{
    let sub = task.parent_id.is_some();
    let identifier = match &task.identifier {
        Some(i) => i.clone(),
        None => String::new(),
    };
    match provider {
        ProjectMgmtProvider::Asana => TaskLink::Asana(AsanaTaskStatus::NotStarted {
            gid: task.id.clone(),
            name: task.name.clone(),
            url: task.url.clone(),
            is_subtask: sub,
            status_name: task.status_name.clone(),
        }),
        ProjectMgmtProvider::Notion => TaskLink::Notion(NotionTaskStatus {
            page_id: task.id.clone(),
            name: task.name.clone(),
            url: task.url.clone(),
            status_option_id: String::new(),
            status_name: task.status_name.clone(),
        }),
        ProjectMgmtProvider::Clickup => TaskLink::ClickUp(ClickUpTaskStatus::NotStarted {
            id: task.id.clone(),
            name: task.name.clone(),
            url: task.url.clone(),
            status: task.status_name.clone(),
            is_subtask: sub,
        }),
        ProjectMgmtProvider::Airtable => TaskLink::Airtable(AirtableTaskStatus::NotStarted {
            id: task.id.clone(),
            name: task.name.clone(),
            url: task.url.clone(),
            is_subtask: sub,
        }),
        ProjectMgmtProvider::Linear => TaskLink::Linear(LinearTaskStatus::NotStarted {
            id: task.id.clone(),
            identifier,
            name: task.name.clone(),
            status_name: task.status_name.clone(),
            url: task.url.clone(),
            is_subtask: sub,
        }),
        ProjectMgmtProvider::Beads => TaskLink::Beads {
            id: task.id.clone(),
            identifier,
            name: task.name.clone(),
            status_name: task.status_name.clone(),
            url: task.url.clone(),
        },
    }
}

} // verus!
