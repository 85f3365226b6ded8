//! The status of a linked project task, as the background polls read it from
//! each project-management provider.
use vstd::prelude::*;
use crate::agent::opt_text;
use crate::text::{chars_of, contains_chars, contains_text, lowercase_text, str_eq, to_lowercase};

verus! {

/// An Asana task as fetched: its gid, name, permalink, whether it has a
/// parent task, and whether it is completed.
pub struct AsanaTaskInfo {
    pub gid: String,
    pub name: String,
    pub permalink_url: Option<String>,
    pub has_parent: bool,
    pub completed: bool,
}

/// The status of a linked Asana task.
#[derive(Debug, PartialEq, Eq)]
pub enum AsanaTaskStatus {
    /// No task is linked.
    Unlinked,
    NotStarted { gid: String, name: String, url: String, is_subtask: bool, status_name: String },
    InProgress { gid: String, name: String, url: String, is_subtask: bool, status_name: String },
    Completed { gid: String, name: String, is_subtask: bool, status_name: String },
    Error { gid: String, message: String },
}

/// The view of an [`AsanaTaskStatus`].
pub enum AsanaTaskStatusView {
    /// No task is linked.
    Unlinked,
    NotStarted { gid: Seq<char>, name: Seq<char>, url: Seq<char>, is_subtask: bool, status_name: Seq<char> },
    InProgress { gid: Seq<char>, name: Seq<char>, url: Seq<char>, is_subtask: bool, status_name: Seq<char> },
    Completed { gid: Seq<char>, name: Seq<char>, is_subtask: bool, status_name: Seq<char> },
    Error { gid: Seq<char>, message: Seq<char> },
}

impl View for AsanaTaskStatus {
    type V = AsanaTaskStatusView;

    open spec fn view(&self) -> AsanaTaskStatusView {
        match self {
            AsanaTaskStatus::Unlinked => AsanaTaskStatusView::Unlinked,
            AsanaTaskStatus::NotStarted { gid, name, url, is_subtask, status_name } => AsanaTaskStatusView::NotStarted {
                gid: gid@,
                name: name@,
                url: url@,
                is_subtask: *is_subtask,
                status_name: status_name@,
            },
            AsanaTaskStatus::Error { gid, message } => AsanaTaskStatusView::Error { gid: gid@, message: message@ },
            AsanaTaskStatus::Completed { gid, name, is_subtask, status_name } => AsanaTaskStatusView::Completed {
                gid: gid@,
                name: name@,
                is_subtask: *is_subtask,
                status_name: status_name@,
            },
            AsanaTaskStatus::InProgress { gid, name, url, is_subtask, status_name } => AsanaTaskStatusView::InProgress {
                gid: gid@,
                name: name@,
                url: url@,
                is_subtask: *is_subtask,
                status_name: status_name@,
            },
        }
    }
}

/// The address of an Asana task that has no permalink.
pub open spec fn asana_fallback_url(gid: Seq<char>) -> Seq<char> {
    "https://app.asana.com/0/0/"@ + gid + "/f"@
}

/// The status of a fetched Asana task: completed tasks are complete, all
/// others in progress, at their permalink or the address made from the gid.
pub open spec fn asana_status(t: AsanaTaskInfo) -> AsanaTaskStatusView {
    if t.completed {
        AsanaTaskStatusView::Completed {
            gid: t.gid@,
            name: t.name@,
            is_subtask: t.has_parent,
            status_name: "Complete"@,
        }
    } else {
        AsanaTaskStatusView::InProgress {
            gid: t.gid@,
            name: t.name@,
            url: match t.permalink_url {
                Some(u) => u@,
                None => asana_fallback_url(t.gid@),
            },
            is_subtask: t.has_parent,
            status_name: "In Progress"@,
        }
    }
}

fn concat3(a: &str, b: &str, c: &str) -> (r: String)
    ensures
        r@ == a@ + b@ + c@,
{
    let mut s = String::from_str(a);
    let bs = chars_of(b);
    let cs = chars_of(c);
    let mut i: usize = 0;
    while i < bs.len()
        invariant
            i <= bs@.len(),
            bs@ == b@,
            s@ == a@ + b@.take(i as int),
        decreases bs.len() - i,
    {
        crate::keys::push_char(&mut s, bs[i]);
        proof {
            assert(a@ + b@.take(i as int + 1) =~= (a@ + b@.take(i as int)).push(bs@[i as int]));
        }
        i = i + 1;
    }
    proof {
        assert(b@.take(bs@.len() as int) =~= b@);
    }
    let mut j: usize = 0;
    while j < cs.len()
        invariant
            j <= cs@.len(),
            cs@ == c@,
            s@ == a@ + b@ + c@.take(j as int),
        decreases cs.len() - j,
    {
        crate::keys::push_char(&mut s, cs[j]);
        proof {
            assert(a@ + b@ + c@.take(j as int + 1) =~= (a@ + b@ + c@.take(j as int)).push(cs@[j as int]));
        }
        j = j + 1;
    }
    proof {
        assert(c@.take(cs@.len() as int) =~= c@);
    }
    s
}

/// The status of a fetched Asana task; see [`asana_status`].
pub fn asana_task_status(t: AsanaTaskInfo) -> (r: AsanaTaskStatus)
    ensures
        r@ == asana_status(t),
{
    if t.completed {
        AsanaTaskStatus::Completed {
            gid: t.gid,
            name: t.name,
            is_subtask: t.has_parent,
            status_name: String::from_str("Complete"),
        }
    } else {
        let url = match t.permalink_url {
            Some(u) => u,
            None => concat3("https://app.asana.com/0/0/", t.gid.as_str(), "/f"),
        };
        AsanaTaskStatus::InProgress {
            gid: t.gid,
            name: t.name,
            url,
            is_subtask: t.has_parent,
            status_name: String::from_str("In Progress"),
        }
    }
}

/// A Notion page as fetched.
pub struct NotionPageInfo {
    pub id: String,
    pub name: String,
    pub url: String,
    pub status_id: Option<String>,
    pub status_name: Option<String>,
}

/// The status of a linked Notion page: its status option's id and name,
/// each empty where the page has none.
#[derive(Debug, PartialEq, Eq)]
pub struct NotionTaskStatus {
    pub page_id: String,
    pub name: String,
    pub url: String,
    pub status_option_id: String,
    pub status_name: String,
}

/// A text, or the empty text where there is none.
pub open spec fn text_or_empty(o: Option<Seq<char>>) -> Seq<char> {
    match o {
        Some(t) => t,
        None => Seq::empty(),
    }
}

fn take_or_empty(o: Option<String>) -> (r: String)
    ensures
        r@ == text_or_empty(opt_text(o)),
{
    match o {
        Some(t) => t,
        None => String::new(),
    }
}

/// The status of a fetched Notion page.
pub fn notion_task_status(p: NotionPageInfo) -> (r: NotionTaskStatus)
    ensures
        r.page_id@ == p.id@,
        r.name@ == p.name@,
        r.url@ == p.url@,
        r.status_option_id@ == text_or_empty(opt_text(p.status_id)),
        r.status_name@ == text_or_empty(opt_text(p.status_name)),
{
    NotionTaskStatus {
        page_id: p.id,
        name: p.name,
        url: p.url,
        status_option_id: take_or_empty(p.status_id),
        status_name: take_or_empty(p.status_name),
    }
}

/// A ClickUp task as fetched: `status_type` is the kind of its status
/// (`closed` for a finished one), `status` the status's name.
pub struct ClickUpTaskInfo {
    pub id: String,
    pub name: String,
    pub url: Option<String>,
    pub has_parent: bool,
    pub status: String,
    pub status_type: String,
}

/// The status of a linked ClickUp task.
#[derive(Debug, PartialEq, Eq)]
pub enum ClickUpTaskStatus {
    /// No task is linked.
    Unlinked,
    NotStarted { id: String, name: String, url: String, status: String, is_subtask: bool },
    InProgress { id: String, name: String, url: String, status: String, is_subtask: bool },
    Completed { id: String, name: String, is_subtask: bool },
    Error { id: String, message: String },
}

/// The view of a [`ClickUpTaskStatus`].
pub enum ClickUpTaskStatusView {
    /// No task is linked.
    Unlinked,
    NotStarted { id: Seq<char>, name: Seq<char>, url: Seq<char>, status: Seq<char>, is_subtask: bool },
    InProgress { id: Seq<char>, name: Seq<char>, url: Seq<char>, status: Seq<char>, is_subtask: bool },
    Completed { id: Seq<char>, name: Seq<char>, is_subtask: bool },
    Error { id: Seq<char>, message: Seq<char> },
}

impl View for ClickUpTaskStatus {
    type V = ClickUpTaskStatusView;

    open spec fn view(&self) -> ClickUpTaskStatusView {
        match self {
            ClickUpTaskStatus::Unlinked => ClickUpTaskStatusView::Unlinked,
            ClickUpTaskStatus::NotStarted { id, name, url, status, is_subtask } => ClickUpTaskStatusView::NotStarted {
                id: id@,
                name: name@,
                url: url@,
                status: status@,
                is_subtask: *is_subtask,
            },
            ClickUpTaskStatus::InProgress { id, name, url, status, is_subtask } => ClickUpTaskStatusView::InProgress {
                id: id@,
                name: name@,
                url: url@,
                status: status@,
                is_subtask: *is_subtask,
            },
            ClickUpTaskStatus::Completed { id, name, is_subtask } => ClickUpTaskStatusView::Completed {
                id: id@,
                name: name@,
                is_subtask: *is_subtask,
            },
            ClickUpTaskStatus::Error { id, message } => ClickUpTaskStatusView::Error { id: id@, message: message@ },
        }
    }
}

/// The status of a fetched ClickUp task: closed tasks are complete, all
/// others in progress with their status's name (and no address where the
/// task has none).
pub fn clickup_task_status(t: ClickUpTaskInfo) -> (r: ClickUpTaskStatus)
    ensures
        t.status_type@ == "closed"@ ==> (r matches ClickUpTaskStatus::Completed { id, name, is_subtask }
            && id@ == t.id@ && name@ == t.name@ && is_subtask == t.has_parent),
        t.status_type@ != "closed"@ ==> (r matches ClickUpTaskStatus::InProgress { id, name, url, status, is_subtask }
            && id@ == t.id@ && name@ == t.name@ && url@ == text_or_empty(opt_text(t.url)) && status@ == t.status@
            && is_subtask == t.has_parent),
{
    if str_eq(t.status_type.as_str(), "closed") {
        ClickUpTaskStatus::Completed { id: t.id, name: t.name, is_subtask: t.has_parent }
    } else {
        ClickUpTaskStatus::InProgress {
            id: t.id,
            name: t.name,
            url: take_or_empty(t.url),
            status: t.status,
            is_subtask: t.has_parent,
        }
    }
}

/// An Airtable record as fetched.
pub struct AirtableRecordInfo {
    pub id: String,
    pub name: String,
    pub url: String,
    pub status: Option<String>,
    pub has_parent: bool,
}

/// The status of a linked Airtable record.
#[derive(Debug, PartialEq, Eq)]
pub enum AirtableTaskStatus {
    /// No task is linked.
    Unlinked,
    NotStarted { id: String, name: String, url: String, is_subtask: bool },
    InProgress { id: String, name: String, url: String, is_subtask: bool },
    Completed { id: String, name: String, is_subtask: bool },
    Error { id: String, message: String },
}

/// The view of an [`AirtableTaskStatus`].
pub enum AirtableTaskStatusView {
    /// No task is linked.
    Unlinked,
    NotStarted { id: Seq<char>, name: Seq<char>, url: Seq<char>, is_subtask: bool },
    InProgress { id: Seq<char>, name: Seq<char>, url: Seq<char>, is_subtask: bool },
    Completed { id: Seq<char>, name: Seq<char>, is_subtask: bool },
    Error { id: Seq<char>, message: Seq<char> },
}

impl View for AirtableTaskStatus {
    type V = AirtableTaskStatusView;

    open spec fn view(&self) -> AirtableTaskStatusView {
        match self {
            AirtableTaskStatus::Unlinked => AirtableTaskStatusView::Unlinked,
            AirtableTaskStatus::NotStarted { id, name, url, is_subtask } => AirtableTaskStatusView::NotStarted {
                id: id@,
                name: name@,
                url: url@,
                is_subtask: *is_subtask,
            },
            AirtableTaskStatus::InProgress { id, name, url, is_subtask } => AirtableTaskStatusView::InProgress {
                id: id@,
                name: name@,
                url: url@,
                is_subtask: *is_subtask,
            },
            AirtableTaskStatus::Completed { id, name, is_subtask } => AirtableTaskStatusView::Completed {
                id: id@,
                name: name@,
                is_subtask: *is_subtask,
            },
            AirtableTaskStatus::Error { id, message } => AirtableTaskStatusView::Error { id: id@, message: message@ },
        }
    }
}

/// How an Airtable status name reads: 2 for done, 1 for in progress, 0 for
/// not started. A name is done when its lowercase holds `done` or
/// `complete`, in progress when it holds `progress`.
pub open spec fn airtable_stage(status: Seq<char>) -> nat {
    let low = lowercase_text(status);
    if contains_text(low, "done"@) || contains_text(low, "complete"@) {
        2
    } else if contains_text(low, "progress"@) {
        1
    } else {
        0
    }
}

/// The status of a fetched Airtable record, by [`airtable_stage`] of its
/// status name (empty where it has none).
pub fn airtable_task_status(rec: AirtableRecordInfo) -> (r: AirtableTaskStatus)
    ensures
        airtable_stage(text_or_empty(opt_text(rec.status))) == 2 ==> (r matches AirtableTaskStatus::Completed {
            id,
            name,
            is_subtask,
        } && id@ == rec.id@ && name@ == rec.name@ && is_subtask == rec.has_parent),
        airtable_stage(text_or_empty(opt_text(rec.status))) == 1 ==> (r matches AirtableTaskStatus::InProgress {
            id,
            name,
            url,
            is_subtask,
        } && id@ == rec.id@ && name@ == rec.name@ && url@ == rec.url@ && is_subtask == rec.has_parent),
        airtable_stage(text_or_empty(opt_text(rec.status))) == 0 ==> (r matches AirtableTaskStatus::NotStarted {
            id,
            name,
            url,
            is_subtask,
        } && id@ == rec.id@ && name@ == rec.name@ && url@ == rec.url@ && is_subtask == rec.has_parent),
{
    let status_name = take_or_empty(rec.status);
    let low = chars_of(to_lowercase(status_name.as_str()).as_str());
    if contains_chars(&low, "done") || contains_chars(&low, "complete") {
        AirtableTaskStatus::Completed { id: rec.id, name: rec.name, is_subtask: rec.has_parent }
    } else if contains_chars(&low, "progress") {
        AirtableTaskStatus::InProgress { id: rec.id, name: rec.name, url: rec.url, is_subtask: rec.has_parent }
    } else {
        AirtableTaskStatus::NotStarted { id: rec.id, name: rec.name, url: rec.url, is_subtask: rec.has_parent }
    }
}

/// A Linear issue as fetched: `state_type` is the kind of its workflow state
/// (`completed`, `cancelled`, `started`, ...), `state_name` the state's name.
pub struct LinearIssueInfo {
    pub id: String,
    pub identifier: String,
    pub title: String,
    pub state_type: String,
    pub state_name: String,
    pub url: String,
    pub has_parent: bool,
}

/// The status of a linked Linear issue.
#[derive(Debug, PartialEq, Eq)]
pub enum LinearTaskStatus {
    /// No task is linked.
    Unlinked,
    NotStarted { id: String, identifier: String, name: String, status_name: String, url: String, is_subtask: bool },
    InProgress { id: String, identifier: String, name: String, status_name: String, url: String, is_subtask: bool },
    Completed { id: String, identifier: String, name: String, status_name: String, is_subtask: bool },
    Error { id: String, message: String },
}

/// The view of a [`LinearTaskStatus`].
pub enum LinearTaskStatusView {
    /// No task is linked.
    Unlinked,
    NotStarted {
        id: Seq<char>,
        identifier: Seq<char>,
        name: Seq<char>,
        status_name: Seq<char>,
        url: Seq<char>,
        is_subtask: bool,
    },
    InProgress {
        id: Seq<char>,
        identifier: Seq<char>,
        name: Seq<char>,
        status_name: Seq<char>,
        url: Seq<char>,
        is_subtask: bool,
    },
    Completed { id: Seq<char>, identifier: Seq<char>, name: Seq<char>, status_name: Seq<char>, is_subtask: bool },
    Error { id: Seq<char>, message: Seq<char> },
}

impl View for LinearTaskStatus {
    type V = LinearTaskStatusView;

    open spec fn view(&self) -> LinearTaskStatusView {
        match self {
            LinearTaskStatus::Unlinked => LinearTaskStatusView::Unlinked,
            LinearTaskStatus::NotStarted { id, identifier, name, status_name, url, is_subtask } => {
                LinearTaskStatusView::NotStarted {
                    id: id@,
                    identifier: identifier@,
                    name: name@,
                    status_name: status_name@,
                    url: url@,
                    is_subtask: *is_subtask,
                }
            },
            LinearTaskStatus::InProgress { id, identifier, name, status_name, url, is_subtask } => {
                LinearTaskStatusView::InProgress {
                    id: id@,
                    identifier: identifier@,
                    name: name@,
                    status_name: status_name@,
                    url: url@,
                    is_subtask: *is_subtask,
                }
            },
            LinearTaskStatus::Completed { id, identifier, name, status_name, is_subtask } => {
                LinearTaskStatusView::Completed {
                    id: id@,
                    identifier: identifier@,
                    name: name@,
                    status_name: status_name@,
                    is_subtask: *is_subtask,
                }
            },
            LinearTaskStatus::Error { id, message } => LinearTaskStatusView::Error { id: id@, message: message@ },
        }
    }
}

/// How a Linear state kind reads: 2 for completed or cancelled, 1 for
/// started, 0 for anything else.
pub open spec fn linear_stage(state_type: Seq<char>) -> nat {
    if state_type == "completed"@ || state_type == "cancelled"@ {
        2
    } else if state_type == "started"@ {
        1
    } else {
        0
    }
}

/// The status of a fetched Linear issue, by [`linear_stage`] of its state
/// kind.
pub fn linear_task_status(i: LinearIssueInfo) -> (r: LinearTaskStatus)
    ensures
        linear_stage(i.state_type@) == 2 ==> (r matches LinearTaskStatus::Completed {
            id,
            identifier,
            name,
            status_name,
            is_subtask,
        } && id@ == i.id@ && identifier@ == i.identifier@ && name@ == i.title@ && status_name@ == i.state_name@
            && is_subtask == i.has_parent),
        linear_stage(i.state_type@) == 1 ==> (r matches LinearTaskStatus::InProgress {
            id,
            identifier,
            name,
            status_name,
            url,
            is_subtask,
        } && id@ == i.id@ && identifier@ == i.identifier@ && name@ == i.title@ && status_name@ == i.state_name@
            && url@ == i.url@ && is_subtask == i.has_parent),
        linear_stage(i.state_type@) == 0 ==> (r matches LinearTaskStatus::NotStarted {
            id,
            identifier,
            name,
            status_name,
            url,
            is_subtask,
        } && id@ == i.id@ && identifier@ == i.identifier@ && name@ == i.title@ && status_name@ == i.state_name@
            && url@ == i.url@ && is_subtask == i.has_parent),
{
    let kind = i.state_type.as_str();
    if str_eq(kind, "completed") || str_eq(kind, "cancelled") {
        LinearTaskStatus::Completed {
            id: i.id,
            identifier: i.identifier,
            name: i.title,
            status_name: i.state_name,
            is_subtask: i.has_parent,
        }
    } else if str_eq(kind, "started") {
        LinearTaskStatus::InProgress {
            id: i.id,
            identifier: i.identifier,
            name: i.title,
            status_name: i.state_name,
            url: i.url,
            is_subtask: i.has_parent,
        }
    } else {
        LinearTaskStatus::NotStarted {
            id: i.id,
            identifier: i.identifier,
            name: i.title,
            status_name: i.state_name,
            url: i.url,
            is_subtask: i.has_parent,
        }
    }
}

/// Where a cycle moves a task on its provider.
#[derive(Debug, Clone, Copy, PartialEq, Eq, Structural)]
pub enum StatusMove {
    ToInProgress,
    ToDone,
    ToNotStarted,
}

/// A request to move the task `task_id` on its provider.
#[derive(Debug, PartialEq, Eq)]
pub struct StatusRequest {
    pub task_id: String,
    pub to: StatusMove,
}

/// What the message of a failed move starts with.
pub open spec fn failure_prefix(to: StatusMove) -> Seq<char> {
    match to {
        StatusMove::ToInProgress => "Failed to move to In Progress: "@,
        StatusMove::ToDone => "Failed to complete task: "@,
        StatusMove::ToNotStarted => "Failed to uncomplete task: "@,
    }
}

/// The message for a move that failed with `error`.
pub fn failure_message(to: StatusMove, error: &str) -> (r: String)
    ensures
        r@ == failure_prefix(to) + error@,
{
    let prefix = match to {
        StatusMove::ToInProgress => "Failed to move to In Progress: ",
        StatusMove::ToDone => "Failed to complete task: ",
        StatusMove::ToNotStarted => "Failed to uncomplete task: ",
    };
    let r = concat3(prefix, error, "");
    proof {
        assert(prefix@ + error@ + ""@ =~= failure_prefix(to) + error@) by {
            reveal_strlit("");
        }
    }
    r
}

/// How far a status has come: 0 not started, 1 in progress, 2 completed;
/// nothing for an error or no task.
pub open spec fn asana_stage(s: AsanaTaskStatusView) -> Option<nat> {
    match s {
        AsanaTaskStatusView::NotStarted { .. } => Some(0),
        AsanaTaskStatusView::InProgress { .. } => Some(1),
        AsanaTaskStatusView::Completed { .. } => Some(2),
        _ => None,
    }
}

/// The Asana status after a cycle, with the task and the move to request:
/// not started goes in progress, in progress completes, completed starts
/// over (without an address); an error or no task does not move.
pub open spec fn asana_cycled(s: AsanaTaskStatusView) -> Option<(AsanaTaskStatusView, Seq<char>, StatusMove)> {
    match s {
        AsanaTaskStatusView::NotStarted { gid, name, url, is_subtask, .. } => Some((
            AsanaTaskStatusView::InProgress { gid, name, url, is_subtask, status_name: "In Progress"@ },
            gid,
            StatusMove::ToInProgress,
        )),
        AsanaTaskStatusView::InProgress { gid, name, is_subtask, .. } => Some((
            AsanaTaskStatusView::Completed { gid, name, is_subtask, status_name: "Complete"@ },
            gid,
            StatusMove::ToDone,
        )),
        AsanaTaskStatusView::Completed { gid, name, is_subtask, .. } => Some((
            AsanaTaskStatusView::NotStarted { gid, name, url: Seq::empty(), is_subtask, status_name: "Not Started"@ },
            gid,
            StatusMove::ToNotStarted,
        )),
        _ => None,
    }
}

/// Cycles an Asana status; see [`asana_cycled`].
pub fn cycle_asana(s: &AsanaTaskStatus) -> (r: Option<(AsanaTaskStatus, StatusRequest)>)
    ensures
        match r {
            Some((st, req)) => asana_cycled(s@) == Some((st@, req.task_id@, req.to)),
            None => asana_cycled(s@) is None,
        },
{
    match s {
        AsanaTaskStatus::NotStarted { gid, name, url, is_subtask, .. } => Some((
            AsanaTaskStatus::InProgress {
                gid: gid.clone(),
                name: name.clone(),
                url: url.clone(),
                is_subtask: *is_subtask,
                status_name: String::from_str("In Progress"),
            },
            StatusRequest { task_id: gid.clone(), to: StatusMove::ToInProgress },
        )),
        AsanaTaskStatus::InProgress { gid, name, is_subtask, .. } => Some((
            AsanaTaskStatus::Completed {
                gid: gid.clone(),
                name: name.clone(),
                is_subtask: *is_subtask,
                status_name: String::from_str("Complete"),
            },
            StatusRequest { task_id: gid.clone(), to: StatusMove::ToDone },
        )),
        AsanaTaskStatus::Completed { gid, name, is_subtask, .. } => Some((
            AsanaTaskStatus::NotStarted {
                gid: gid.clone(),
                name: name.clone(),
                url: String::new(),
                is_subtask: *is_subtask,
                status_name: String::from_str("Not Started"),
            },
            StatusRequest { task_id: gid.clone(), to: StatusMove::ToNotStarted },
        )),
        _ => None,
    }
}

/// How far a ClickUp status has come.
pub open spec fn clickup_stage(s: ClickUpTaskStatusView) -> Option<nat> {
    match s {
        ClickUpTaskStatusView::NotStarted { .. } => Some(0),
        ClickUpTaskStatusView::InProgress { .. } => Some(1),
        ClickUpTaskStatusView::Completed { .. } => Some(2),
        _ => None,
    }
}

/// The ClickUp status after a cycle, with the task and the move to request.
pub open spec fn clickup_cycled(s: ClickUpTaskStatusView) -> Option<(ClickUpTaskStatusView, Seq<char>, StatusMove)> {
    match s {
        ClickUpTaskStatusView::NotStarted { id, name, url, status, is_subtask } => Some((
            ClickUpTaskStatusView::InProgress { id, name, url, status, is_subtask },
            id,
            StatusMove::ToInProgress,
        )),
        ClickUpTaskStatusView::InProgress { id, name, is_subtask, .. } => Some((
            ClickUpTaskStatusView::Completed { id, name, is_subtask },
            id,
            StatusMove::ToDone,
        )),
        ClickUpTaskStatusView::Completed { id, name, is_subtask } => Some((
            ClickUpTaskStatusView::NotStarted { id, name, url: Seq::empty(), status: Seq::empty(), is_subtask },
            id,
            StatusMove::ToNotStarted,
        )),
        _ => None,
    }
}

/// Cycles a ClickUp status; see [`clickup_cycled`].
pub fn cycle_clickup(s: &ClickUpTaskStatus) -> (r: Option<(ClickUpTaskStatus, StatusRequest)>)
    ensures
        match r {
            Some((st, req)) => clickup_cycled(s@) == Some((st@, req.task_id@, req.to)),
            None => clickup_cycled(s@) is None,
        },
{
    match s {
        ClickUpTaskStatus::NotStarted { id, name, url, status, is_subtask } => Some((
            ClickUpTaskStatus::InProgress {
                id: id.clone(),
                name: name.clone(),
                url: url.clone(),
                status: status.clone(),
                is_subtask: *is_subtask,
            },
            StatusRequest { task_id: id.clone(), to: StatusMove::ToInProgress },
        )),
        ClickUpTaskStatus::InProgress { id, name, is_subtask, .. } => Some((
            ClickUpTaskStatus::Completed { id: id.clone(), name: name.clone(), is_subtask: *is_subtask },
            StatusRequest { task_id: id.clone(), to: StatusMove::ToDone },
        )),
        ClickUpTaskStatus::Completed { id, name, is_subtask } => Some((
            ClickUpTaskStatus::NotStarted {
                id: id.clone(),
                name: name.clone(),
                url: String::new(),
                status: String::new(),
                is_subtask: *is_subtask,
            },
            StatusRequest { task_id: id.clone(), to: StatusMove::ToNotStarted },
        )),
        _ => None,
    }
}

/// How far an Airtable status has come.
pub open spec fn airtable_stage_of(s: AirtableTaskStatusView) -> Option<nat> {
    match s {
        AirtableTaskStatusView::NotStarted { .. } => Some(0),
        AirtableTaskStatusView::InProgress { .. } => Some(1),
        AirtableTaskStatusView::Completed { .. } => Some(2),
        _ => None,
    }
}

/// The Airtable status after a cycle, with the record and the move to request.
pub open spec fn airtable_cycled(s: AirtableTaskStatusView) -> Option<(AirtableTaskStatusView, Seq<char>, StatusMove)> {
    match s {
        AirtableTaskStatusView::NotStarted { id, name, url, is_subtask } => Some((
            AirtableTaskStatusView::InProgress { id, name, url, is_subtask },
            id,
            StatusMove::ToInProgress,
        )),
        AirtableTaskStatusView::InProgress { id, name, is_subtask, .. } => Some((
            AirtableTaskStatusView::Completed { id, name, is_subtask },
            id,
            StatusMove::ToDone,
        )),
        AirtableTaskStatusView::Completed { id, name, is_subtask } => Some((
            AirtableTaskStatusView::NotStarted { id, name, url: Seq::empty(), is_subtask },
            id,
            StatusMove::ToNotStarted,
        )),
        _ => None,
    }
}

/// Cycles an Airtable status; see [`airtable_cycled`].
pub fn cycle_airtable(s: &AirtableTaskStatus) -> (r: Option<(AirtableTaskStatus, StatusRequest)>)
    ensures
        match r {
            Some((st, req)) => airtable_cycled(s@) == Some((st@, req.task_id@, req.to)),
            None => airtable_cycled(s@) is None,
        },
{
    match s {
        AirtableTaskStatus::NotStarted { id, name, url, is_subtask } => Some((
            AirtableTaskStatus::InProgress { id: id.clone(), name: name.clone(), url: url.clone(), is_subtask: *is_subtask },
            StatusRequest { task_id: id.clone(), to: StatusMove::ToInProgress },
        )),
        AirtableTaskStatus::InProgress { id, name, is_subtask, .. } => Some((
            AirtableTaskStatus::Completed { id: id.clone(), name: name.clone(), is_subtask: *is_subtask },
            StatusRequest { task_id: id.clone(), to: StatusMove::ToDone },
        )),
        AirtableTaskStatus::Completed { id, name, is_subtask } => Some((
            AirtableTaskStatus::NotStarted { id: id.clone(), name: name.clone(), url: String::new(), is_subtask: *is_subtask },
            StatusRequest { task_id: id.clone(), to: StatusMove::ToNotStarted },
        )),
        _ => None,
    }
}

/// How far a Linear status has come.
pub open spec fn linear_stage_of(s: LinearTaskStatusView) -> Option<nat> {
    match s {
        LinearTaskStatusView::NotStarted { .. } => Some(0),
        LinearTaskStatusView::InProgress { .. } => Some(1),
        LinearTaskStatusView::Completed { .. } => Some(2),
        _ => None,
    }
}

/// The Linear status after a cycle, with the issue and the move to request.
pub open spec fn linear_cycled(s: LinearTaskStatusView) -> Option<(LinearTaskStatusView, Seq<char>, StatusMove)> {
    match s {
        LinearTaskStatusView::NotStarted { id, identifier, name, url, is_subtask, .. } => Some((
            LinearTaskStatusView::InProgress { id, identifier, name, status_name: "In Progress"@, url, is_subtask },
            id,
            StatusMove::ToInProgress,
        )),
        LinearTaskStatusView::InProgress { id, identifier, name, is_subtask, .. } => Some((
            LinearTaskStatusView::Completed { id, identifier, name, status_name: "Done"@, is_subtask },
            id,
            StatusMove::ToDone,
        )),
        LinearTaskStatusView::Completed { id, identifier, name, is_subtask, .. } => Some((
            LinearTaskStatusView::NotStarted {
                id,
                identifier,
                name,
                status_name: "Todo"@,
                url: Seq::empty(),
                is_subtask,
            },
            id,
            StatusMove::ToNotStarted,
        )),
        _ => None,
    }
}

/// Cycles a Linear status; see [`linear_cycled`].
pub fn cycle_linear(s: &LinearTaskStatus) -> (r: Option<(LinearTaskStatus, StatusRequest)>)
    ensures
        match r {
            Some((st, req)) => linear_cycled(s@) == Some((st@, req.task_id@, req.to)),
            None => linear_cycled(s@) is None,
        },
{
    match s {
        LinearTaskStatus::NotStarted { id, identifier, name, url, is_subtask, .. } => Some((
            LinearTaskStatus::InProgress {
                id: id.clone(),
                identifier: identifier.clone(),
                name: name.clone(),
                status_name: String::from_str("In Progress"),
                url: url.clone(),
                is_subtask: *is_subtask,
            },
            StatusRequest { task_id: id.clone(), to: StatusMove::ToInProgress },
        )),
        LinearTaskStatus::InProgress { id, identifier, name, is_subtask, .. } => Some((
            LinearTaskStatus::Completed {
                id: id.clone(),
                identifier: identifier.clone(),
                name: name.clone(),
                status_name: String::from_str("Done"),
                is_subtask: *is_subtask,
            },
            StatusRequest { task_id: id.clone(), to: StatusMove::ToDone },
        )),
        LinearTaskStatus::Completed { id, identifier, name, is_subtask, .. } => Some((
            LinearTaskStatus::NotStarted {
                id: id.clone(),
                identifier: identifier.clone(),
                name: name.clone(),
                status_name: String::from_str("Todo"),
                url: String::new(),
                is_subtask: *is_subtask,
            },
            StatusRequest { task_id: id.clone(), to: StatusMove::ToNotStarted },
        )),
        _ => None,
    }
}

/// The status a cycle leaves, where it moves.
pub open spec fn next_of<S, T>(c: Option<(S, T, StatusMove)>, s: S) -> S {
    match c {
        Some((n, _, _)) => n,
        None => s,
    }
}

/// The Asana status after one cycle.
pub open spec fn asana_step(s: AsanaTaskStatusView) -> AsanaTaskStatusView {
    next_of(asana_cycled(s), s)
}

/// The ClickUp status after one cycle.
pub open spec fn clickup_step(s: ClickUpTaskStatusView) -> ClickUpTaskStatusView {
    next_of(clickup_cycled(s), s)
}

/// The Airtable status after one cycle.
pub open spec fn airtable_step(s: AirtableTaskStatusView) -> AirtableTaskStatusView {
    next_of(airtable_cycled(s), s)
}

/// The Linear status after one cycle.
pub open spec fn linear_step(s: LinearTaskStatusView) -> LinearTaskStatusView {
    next_of(linear_cycled(s), s)
}

/// The stage a move leads to.
pub open spec fn move_stage(m: StatusMove) -> nat {
    match m {
        StatusMove::ToNotStarted => 0,
        StatusMove::ToInProgress => 1,
        StatusMove::ToDone => 2,
    }
}

/// The task an Asana status is about, where it is about one.
pub open spec fn asana_task(s: AsanaTaskStatusView) -> Option<Seq<char>> {
    match s {
        AsanaTaskStatusView::NotStarted { gid, .. } => Some(gid),
        AsanaTaskStatusView::InProgress { gid, .. } => Some(gid),
        AsanaTaskStatusView::Completed { gid, .. } => Some(gid),
        AsanaTaskStatusView::Error { gid, .. } => Some(gid),
        AsanaTaskStatusView::Unlinked => None,
    }
}

/// Cycling a linked task three times brings it back to the stage it was at,
/// on every provider that cycles.
pub proof fn lemma_cycle_round(
    a: AsanaTaskStatusView,
    c: ClickUpTaskStatusView,
    t: AirtableTaskStatusView,
    l: LinearTaskStatusView,
)
    ensures
        asana_stage(asana_step(asana_step(asana_step(a)))) == asana_stage(a),
        clickup_stage(clickup_step(clickup_step(clickup_step(c)))) == clickup_stage(c),
        airtable_stage_of(airtable_step(airtable_step(airtable_step(t)))) == airtable_stage_of(t),
        linear_stage_of(linear_step(linear_step(linear_step(l)))) == linear_stage_of(l),
{
}

/// A cycle keeps the task it is about, asks to move that task, and asks for
/// the stage it then shows; a status with an error or without a task does
/// not cycle.
pub proof fn lemma_cycle_moves_the_same_task(a: AsanaTaskStatusView)
    ensures
        asana_cycled(a) is Some <==> asana_stage(a) is Some,
        asana_cycled(a) matches Some((n, id, m)) ==> asana_task(n) == asana_task(a) && Some(id) == asana_task(a)
            && asana_stage(n) == Some(move_stage(m)),
{
}

} // verus!
