//! What submitting the input prompt leads to, for each input mode.
use vstd::prelude::*;
use crate::action::{Action, ActionView, InputMode};
use crate::agent::opt_text;
use crate::ids::AgentId;
use crate::tasks::{task_views, TaskListItem, TaskListItemView};
use crate::text::{chars_of, lowercase_text, to_lowercase, trim_text, trim_ws};

verus! {

/// `s` without its `-` characters.
pub open spec fn without_dashes(s: Seq<char>) -> Seq<char> {
    s.filter(|c: char| c != '-')
}

/// The key by which task ids are compared: without dashes, in lowercase.
pub open spec fn task_key(s: Seq<char>) -> Seq<char> {
    lowercase_text(without_dashes(s))
}

/// Whether `k` is the place just after the last `/` of `s` (0 where it has none).
pub open spec fn is_part_start(s: Seq<char>, k: int) -> bool {
    &&& 0 <= k <= s.len()
    &&& (k == 0 || s[k - 1] == '/')
    &&& forall|j: int| k <= j < s.len() ==> s[j] != '/'
}

/// The place just after the last `/` of `s`, or 0 where it has none.
pub open spec fn last_part_start(s: Seq<char>) -> int {
    choose|k: int| is_part_start(s, k)
}

/// The text after the last `/` of `s`, or all of `s` where it has none.
pub open spec fn last_path_part(s: Seq<char>) -> Seq<char> {
    s.subrange(last_part_start(s), s.len() as int)
}

/// The key by which a typed task reference is compared: its last path part,
/// after dropping dashes and lowercasing.
pub open spec fn reference_key(input: Seq<char>) -> Seq<char> {
    last_path_part(task_key(input))
}

/// An agent as the prompt reads it: its id and name, whether a project task
/// is linked to it, and that task's id and name where known.
pub struct AgentTaskLink {
    pub id: AgentId,
    pub name: String,
    pub task_linked: bool,
    pub task_id: Option<String>,
    pub task_name: Option<String>,
}

/// The view of an [`AgentTaskLink`].
pub struct AgentTaskLinkView {
    pub id: AgentId,
    pub name: Seq<char>,
    pub task_linked: bool,
    pub task_id: Option<Seq<char>>,
    pub task_name: Option<Seq<char>>,
}

impl View for AgentTaskLink {
    type V = AgentTaskLinkView;

    open spec fn view(&self) -> AgentTaskLinkView {
        AgentTaskLinkView {
            id: self.id,
            name: self.name@,
            task_linked: self.task_linked,
            task_id: opt_text(self.task_id),
            task_name: opt_text(self.task_name),
        }
    }
}

/// The views of a list of agents.
pub open spec fn link_views(v: Seq<AgentTaskLink>) -> Seq<AgentTaskLinkView> {
    v.map_values(|a: AgentTaskLink| a@)
}

/// The warning shown before a task is assigned where the agent already has
/// a task, or the task already has an agent.
pub struct TaskReassignmentWarning {
    pub target_agent_id: AgentId,
    pub task_id: String,
    pub task_name: String,
    pub agent_current_task: Option<(String, String)>,
    pub task_current_agent: Option<(AgentId, String)>,
}

/// The view of a [`TaskReassignmentWarning`].
pub struct TaskReassignmentWarningView {
    pub target_agent_id: AgentId,
    pub task_id: Seq<char>,
    pub task_name: Seq<char>,
    pub agent_current_task: Option<(Seq<char>, Seq<char>)>,
    pub task_current_agent: Option<(AgentId, Seq<char>)>,
}

impl View for TaskReassignmentWarning {
    type V = TaskReassignmentWarningView;

    open spec fn view(&self) -> TaskReassignmentWarningView {
        TaskReassignmentWarningView {
            target_agent_id: self.target_agent_id,
            task_id: self.task_id@,
            task_name: self.task_name@,
            agent_current_task: match self.agent_current_task {
                Some(t) => Some((t.0@, t.1@)),
                None => None,
            },
            task_current_agent: match self.task_current_agent {
                Some(a) => Some((a.0, a.1@)),
                None => None,
            },
        }
    }
}

/// What submitting the prompt leads to.
pub enum SubmitOutcome {
    /// Nothing.
    Nothing,
    /// This action is sent on.
    Send(Action),
    /// This warning is shown, and the prompt stays open.
    Warn(TaskReassignmentWarning),
    /// The user is told that no agent is selected.
    NoAgentSelected,
}

/// The view of a [`SubmitOutcome`].
pub enum SubmitOutcomeView {
    Nothing,
    Send(ActionView),
    Warn(TaskReassignmentWarningView),
    NoAgentSelected,
}

impl View for SubmitOutcome {
    type V = SubmitOutcomeView;

    open spec fn view(&self) -> SubmitOutcomeView {
        match self {
            SubmitOutcome::Nothing => SubmitOutcomeView::Nothing,
            SubmitOutcome::Send(a) => SubmitOutcomeView::Send(a@),
            SubmitOutcome::Warn(w) => SubmitOutcomeView::Warn(w@),
            SubmitOutcome::NoAgentSelected => SubmitOutcomeView::NoAgentSelected,
        }
    }
}

/// Whether `k` is the first place of `agents` that holds the agent `id`.
pub open spec fn is_agent_place(agents: Seq<AgentTaskLinkView>, id: AgentId, k: int) -> bool {
    &&& 0 <= k < agents.len()
    &&& agents[k].id == id
    &&& forall|m: int| 0 <= m < k ==> agents[m].id != id
}

/// The task linked to the agent `id`, as an id and a name (each empty
/// where unknown), where one is linked.
pub open spec fn agent_current_task(agents: Seq<AgentTaskLinkView>, id: AgentId) -> Option<(Seq<char>, Seq<char>)> {
    if exists|k: int| is_agent_place(agents, id, k) {
        let a = agents[choose|k: int| is_agent_place(agents, id, k)];
        if a.task_linked {
            Some((
                match a.task_id {
                    Some(t) => t,
                    None => Seq::empty(),
                },
                match a.task_name {
                    Some(t) => t,
                    None => Seq::empty(),
                },
            ))
        } else {
            None
        }
    } else {
        None
    }
}

/// The keys of the agents' tasks, in the agents' order.
pub open spec fn agent_keys(agents: Seq<AgentTaskLinkView>) -> Seq<Option<Seq<char>>> {
    agents.map_values(
        |a: AgentTaskLinkView|
            match a.task_id {
                Some(t) => Some(task_key(t)),
                None => None,
            },
    )
}

/// The views of a list of optional texts.
pub open spec fn opt_texts(v: Seq<Option<String>>) -> Seq<Option<Seq<char>>> {
    v.map_values(|o: Option<String>| opt_text(o))
}

/// Whether `k` is the first place of `keys` that holds `key`.
pub open spec fn is_task_holder(keys: Seq<Option<Seq<char>>>, key: Seq<char>, k: int) -> bool {
    &&& 0 <= k < keys.len()
    &&& keys[k] == Some(key)
    &&& forall|m: int| 0 <= m < k ==> keys[m] != Some(key)
}

/// The first agent, in the order given, whose task key (in `keys`, one per
/// agent) is `key`.
pub open spec fn task_current_agent(
    agents: Seq<AgentTaskLinkView>,
    keys: Seq<Option<Seq<char>>>,
    key: Seq<char>,
) -> Option<(AgentId, Seq<char>)> {
    if exists|k: int| is_task_holder(keys, key, k) {
        let a = agents[choose|k: int| is_task_holder(keys, key, k)];
        Some((a.id, a.name))
    } else {
        None
    }
}

/// The message for a new agent name made of spaces only.
pub open spec fn blank_name_message() -> Seq<char> {
    "Invalid name: name cannot be only spaces"@
}

/// What submitting the prompt in `mode` with the text `input` leads to;
/// `selected` is the selected agent, `branch` the branch name made from the
/// input, `agents` the agents in the order they are searched, `reference`
/// the key of the typed task reference and `keys` the keys of the agents'
/// tasks.
pub open spec fn submit_decision(
    mode: InputMode,
    input: Seq<char>,
    selected: Option<AgentId>,
    branch: Seq<char>,
    agents: Seq<AgentTaskLinkView>,
    reference: Seq<char>,
    keys: Seq<Option<Seq<char>>>,
) -> SubmitOutcomeView {
    match mode {
        InputMode::NewAgent => {
            if input.len() == 0 {
                SubmitOutcomeView::Nothing
            } else if branch.len() == 0 {
                SubmitOutcomeView::Send(ActionView::ShowError(blank_name_message()))
            } else {
                SubmitOutcomeView::Send(ActionView::CreateAgent { name: trim_ws(input), branch, task: None })
            }
        },
        InputMode::SetNote => match selected {
            Some(id) => SubmitOutcomeView::Send(ActionView::SetAgentNote {
                id,
                note: if input.len() == 0 { None } else { Some(input) },
            }),
            None => SubmitOutcomeView::Nothing,
        },
        InputMode::ConfirmDelete => match selected {
            Some(id) => SubmitOutcomeView::Send(ActionView::DeleteAgent { id }),
            None => SubmitOutcomeView::Nothing,
        },
        InputMode::ConfirmMerge => match selected {
            Some(id) => SubmitOutcomeView::Send(ActionView::MergeMain { id }),
            None => SubmitOutcomeView::Nothing,
        },
        InputMode::ConfirmPush => match selected {
            Some(id) => SubmitOutcomeView::Send(ActionView::PushBranch { id }),
            None => SubmitOutcomeView::Nothing,
        },
        InputMode::AssignAsana => match selected {
            Some(id) if input.len() > 0 => SubmitOutcomeView::Send(ActionView::AssignAsanaTask { id, url_or_gid: input }),
            _ => SubmitOutcomeView::Nothing,
        },
        InputMode::AssignProjectTask => match selected {
            Some(id) if input.len() > 0 => {
                let current = agent_current_task(agents, id);
                let holder = task_current_agent(agents, keys, reference);
                if current is Some || holder is Some {
                    SubmitOutcomeView::Warn(TaskReassignmentWarningView {
                        target_agent_id: id,
                        task_id: input,
                        task_name: input,
                        agent_current_task: current,
                        task_current_agent: holder,
                    })
                } else {
                    SubmitOutcomeView::Send(ActionView::AssignProjectTask { id, url_or_id: input })
                }
            },
            _ => SubmitOutcomeView::Nothing,
        },
        _ => SubmitOutcomeView::Nothing,
    }
}

/// What submitting the prompt leads to, with the task keys computed from
/// the input and the agents.
pub open spec fn submit_outcome(
    mode: InputMode,
    input: Seq<char>,
    selected: Option<AgentId>,
    branch: Seq<char>,
    agents: Seq<AgentTaskLinkView>,
) -> SubmitOutcomeView {
    submit_decision(mode, input, selected, branch, agents, reference_key(input), agent_keys(agents))
}

/// `s` without its `-` characters.
fn drop_dashes(s: &str) -> (r: String)
    ensures
        r@ == without_dashes(s@),
{
    let cs = chars_of(s);
    let ghost pred = |c: char| c != '-';
    let mut r = String::new();
    let mut i: usize = 0;
    proof {
        reveal(Seq::filter);
        assert(s@.take(0).filter(pred) =~= Seq::empty());
    }
    while i < cs.len()
        invariant
            i <= cs@.len(),
            cs@ == s@,
            pred == (|c: char| c != '-'),
            r@ == s@.take(i as int).filter(pred),
        decreases cs.len() - i,
    {
        proof {
            reveal(Seq::filter);
            assert(s@.take(i as int + 1).drop_last() =~= s@.take(i as int));
        }
        let c = cs[i];
        if c != '-' {
            crate::keys::push_char(&mut r, c);
        }
        i = i + 1;
    }
    proof {
        assert(s@.take(cs@.len() as int) =~= s@);
    }
    r
}

/// The text after the last `/` of `s`.
fn after_last_slash(s: &str) -> (r: String)
    ensures
        r@ == last_path_part(s@),
{
    let cs = chars_of(s);
    let mut k: usize = cs.len();
    while k > 0 && cs[k - 1] != '/'
        invariant
            k <= cs@.len(),
            cs@ == s@,
            forall|j: int| k <= j < cs@.len() ==> cs@[j] != '/',
        decreases k,
    {
        k = k - 1;
    }
    proof {
        assert(is_part_start(s@, k as int));
        let c = last_part_start(s@);
        assert(is_part_start(s@, c));
        if c < k {
            assert(s@[k - 1] == '/');
        } else if k < c {
            assert(s@[c - 1] == '/');
        }
    }
    let mut r = String::new();
    let mut i: usize = k;
    while i < cs.len()
        invariant
            k <= i <= cs@.len(),
            cs@ == s@,
            r@ == s@.subrange(k as int, i as int),
        decreases cs.len() - i,
    {
        crate::keys::push_char(&mut r, cs[i]);
        proof {
            assert(s@.subrange(k as int, i as int + 1) =~= s@.subrange(k as int, i as int).push(cs@[i as int]));
        }
        i = i + 1;
    }
    r
}

/// The key of a task id: without dashes, in lowercase.
fn key_of(s: &str) -> (r: String)
    ensures
        r@ == task_key(s@),
{
    let d = drop_dashes(s);
    to_lowercase(d.as_str())
}

fn find_agent(agents: &Vec<AgentTaskLink>, id: AgentId) -> (r: Option<usize>)
    ensures
        match r {
            Some(k) => is_agent_place(link_views(agents@), id, k as int),
            None => !exists|k: int| is_agent_place(link_views(agents@), id, k),
        },
{
    let ghost v = link_views(agents@);
    let mut k: usize = 0;
    while k < agents.len()
        invariant
            k <= agents@.len(),
            v == link_views(agents@),
            v.len() == agents@.len(),
            forall|m: int| 0 <= m < k ==> v[m].id != id,
        decreases agents.len() - k,
    {
        if agents[k].id == id {
            return Some(k);
        }
        k = k + 1;
    }
    None
}

fn find_task_holder(keys: &Vec<Option<String>>, key: &String) -> (r: Option<usize>)
    ensures
        match r {
            Some(k) => is_task_holder(opt_texts(keys@), key@, k as int),
            None => !exists|k: int| is_task_holder(opt_texts(keys@), key@, k),
        },
{
    let ghost v = opt_texts(keys@);
    let mut k: usize = 0;
    while k < keys.len()
        invariant
            k <= keys@.len(),
            v == opt_texts(keys@),
            v.len() == keys@.len(),
            forall|m: int| 0 <= m < k ==> v[m] != Some(key@),
        decreases keys.len() - k,
    {
        match &keys[k] {
            Some(t) => {
                if *t == *key {
                    return Some(k);
                }
            },
            None => {},
        }
        k = k + 1;
    }
    None
}

fn text_or_empty(o: &Option<String>) -> (r: String)
    ensures
        r@ == match opt_text(*o) {
            Some(t) => t,
            None => Seq::<char>::empty(),
        },
{
    match o {
        Some(t) => t.clone(),
        None => String::new(),
    }
}

/// The task the agent `id` has and the agent that has the task with key
/// `reference`, where there are such.
fn who_holds(
    agents: &Vec<AgentTaskLink>,
    id: AgentId,
    reference: &String,
    keys: &Vec<Option<String>>,
) -> (r: (Option<(String, String)>, Option<(AgentId, String)>))
    requires
        keys@.len() == agents@.len(),
    ensures
        match r.0 {
            Some(t) => agent_current_task(link_views(agents@), id) == Some((t.0@, t.1@)),
            None => agent_current_task(link_views(agents@), id) is None,
        },
        match r.1 {
            Some(a) => task_current_agent(link_views(agents@), opt_texts(keys@), reference@) == Some((a.0, a.1@)),
            None => task_current_agent(link_views(agents@), opt_texts(keys@), reference@) is None,
        },
{
    let ghost v = link_views(agents@);
    let current = match find_agent(agents, id) {
        Some(k) => {
            proof {
                let c = choose|j: int| is_agent_place(v, id, j);
                assert(is_agent_place(v, id, c));
                if c < k {
                    assert(v[c].id != id);
                } else if k < c {
                    assert(v[k as int].id != id);
                }
            }
            if agents[k].task_linked {
                Some((text_or_empty(&agents[k].task_id), text_or_empty(&agents[k].task_name)))
            } else {
                None
            }
        },
        None => None,
    };
    let ghost kv = opt_texts(keys@);
    let holder = match find_task_holder(keys, reference) {
        Some(k) => {
            proof {
                let c = choose|j: int| is_task_holder(kv, reference@, j);
                assert(is_task_holder(kv, reference@, c));
                if c < k {
                    assert(kv[c] != Some(reference@));
                } else if k < c {
                    assert(kv[k as int] != Some(reference@));
                }
            }
            Some((agents[k].id, agents[k].name.clone()))
        },
        None => None,
    };
    (current, holder)
}

/// What submitting the prompt leads to, given the key of the typed task
/// reference and the keys of the agents' tasks (one per agent); see
/// [`submit_decision`].
pub fn decide_submit(
    mode: InputMode,
    input: &String,
    selected: Option<AgentId>,
    branch: &String,
    agents: &Vec<AgentTaskLink>,
    reference: &String,
    keys: &Vec<Option<String>>,
) -> (r: SubmitOutcome)
    requires
        keys@.len() == agents@.len(),
    ensures
        r@ == submit_decision(mode, input@, selected, branch@, link_views(agents@), reference@, opt_texts(keys@)),
{
    let empty = input.unicode_len() == 0;
    match mode {
        InputMode::NewAgent => {
            if empty {
                SubmitOutcome::Nothing
            } else if branch.unicode_len() == 0 {
                SubmitOutcome::Send(Action::ShowError(String::from_str("Invalid name: name cannot be only spaces")))
            } else {
                SubmitOutcome::Send(Action::CreateAgent {
                    name: trim_text(input.as_str()),
                    branch: branch.clone(),
                    task: None,
                })
            }
        },
        InputMode::SetNote => match selected {
            Some(id) => SubmitOutcome::Send(Action::SetAgentNote {
                id,
                note: if empty { None } else { Some(input.clone()) },
            }),
            None => SubmitOutcome::Nothing,
        },
        InputMode::ConfirmDelete => match selected {
            Some(id) => SubmitOutcome::Send(Action::DeleteAgent { id }),
            None => SubmitOutcome::Nothing,
        },
        InputMode::ConfirmMerge => match selected {
            Some(id) => SubmitOutcome::Send(Action::MergeMain { id }),
            None => SubmitOutcome::Nothing,
        },
        InputMode::ConfirmPush => match selected {
            Some(id) => SubmitOutcome::Send(Action::PushBranch { id }),
            None => SubmitOutcome::Nothing,
        },
        InputMode::AssignAsana => match selected {
            Some(id) if !empty => SubmitOutcome::Send(Action::AssignAsanaTask { id, url_or_gid: input.clone() }),
            _ => SubmitOutcome::Nothing,
        },
        InputMode::AssignProjectTask => match selected {
            Some(id) if !empty => {
                let (current, holder) = who_holds(agents, id, reference, keys);
                if current.is_some() || holder.is_some() {
                    SubmitOutcome::Warn(TaskReassignmentWarning {
                        target_agent_id: id,
                        task_id: input.clone(),
                        task_name: input.clone(),
                        agent_current_task: current,
                        task_current_agent: holder,
                    })
                } else {
                    SubmitOutcome::Send(Action::AssignProjectTask { id, url_or_id: input.clone() })
                }
            },
            _ => SubmitOutcome::Nothing,
        },
        _ => SubmitOutcome::Nothing,
    }
}

/// The keys of the agents' tasks, in the agents' order.
fn task_keys_of(agents: &Vec<AgentTaskLink>) -> (keys: Vec<Option<String>>)
    ensures
        opt_texts(keys@) == agent_keys(link_views(agents@)),
        keys@.len() == agents@.len(),
{
    let mut keys: Vec<Option<String>> = Vec::new();
    let mut i: usize = 0;
    while i < agents.len()
        invariant
            i <= agents@.len(),
            opt_texts(keys@) == agent_keys(link_views(agents@)).take(i as int),
        decreases agents.len() - i,
    {
        let k = match &agents[i].task_id {
            Some(t) => Some(key_of(t.as_str())),
            None => None,
        };
        proof {
            assert(link_views(agents@)[i as int] == agents@[i as int]@);
            assert(opt_text(k) == agent_keys(link_views(agents@))[i as int]);
        }
        let ghost before = keys@;
        keys.push(k);
        proof {
            assert(keys@ == before.push(k));
            assert(opt_texts(before.push(k)) =~= opt_texts(before).push(opt_text(k)));
            let ks = agent_keys(link_views(agents@));
            assert(ks.len() == agents@.len());
            assert(ks.take(i as int + 1) =~= ks.take(i as int).push(ks[i as int]));
            assert(opt_texts(keys@) =~= agent_keys(link_views(agents@)).take(i as int + 1));
        }
        i = i + 1;
    }
    proof {
        assert(agent_keys(link_views(agents@)).take(agents@.len() as int) =~= agent_keys(link_views(agents@)));
    }
    keys
}

/// What submitting the prompt in `mode` with the text `input` leads to; see
/// [`submit_outcome`]. `branch` is the branch name made from the input.
/// The caller leaves the input mode first, and shows a warning over it.
pub fn submit_input(
    mode: InputMode,
    input: &String,
    selected: Option<AgentId>,
    branch: &String,
    agents: &Vec<AgentTaskLink>,
) -> (r: SubmitOutcome)
    ensures
        r@ == submit_outcome(mode, input@, selected, branch@, link_views(agents@)),
{
    let reference = after_last_slash(key_of(input.as_str()).as_str());
    let keys = task_keys_of(agents);
    decide_submit(mode, input, selected, branch, agents, &reference, &keys)
}

proof fn lemma_without_dashes_idempotent(s: Seq<char>)
    ensures
        without_dashes(without_dashes(s)) == without_dashes(s),
    decreases s.len(),
{
    reveal(Seq::filter);
    if s.len() > 0 {
        lemma_without_dashes_idempotent(s.drop_last());
        let f = without_dashes(s.drop_last());
        if s.last() != '-' {
            assert(f.push(s.last()).drop_last() =~= f);
        }
    }
}

/// Dashes in a task id or a typed reference never change which task it
/// names: the keys compare the texts without them.
pub proof fn lemma_dashes_do_not_matter(s: Seq<char>)
    ensures
        task_key(without_dashes(s)) == task_key(s),
        reference_key(without_dashes(s)) == reference_key(s),
{
    lemma_without_dashes_idempotent(s);
}

/// A task is assigned straight away only when the selected agent has no
/// linked task and no agent holds the task; otherwise the warning names
/// what is in the way, for the selected agent and the typed reference.
pub proof fn lemma_assignment_only_when_free(
    input: Seq<char>,
    selected: AgentId,
    branch: Seq<char>,
    agents: Seq<AgentTaskLinkView>,
)
    requires
        input.len() > 0,
    ensures
        submit_outcome(InputMode::AssignProjectTask, input, Some(selected), branch, agents)
            is Send <==> (agent_current_task(agents, selected) is None
                && task_current_agent(agents, agent_keys(agents), reference_key(input)) is None),
        submit_outcome(InputMode::AssignProjectTask, input, Some(selected), branch, agents) matches SubmitOutcomeView::Warn(w)
            ==> w.target_agent_id == selected && w.task_id == input,
{
}

/// What assigning the task at `index` of the task list to the selected
/// agent leads to, given the key of that task's id and the keys of the
/// agents' tasks: nothing without such a task, a notice without a selected
/// agent, a warning where the agent or the task is taken, and otherwise the
/// assignment.
pub open spec fn assign_selected_decision(
    tasks: Seq<TaskListItemView>,
    index: int,
    selected: Option<AgentId>,
    agents: Seq<AgentTaskLinkView>,
    reference: Seq<char>,
    keys: Seq<Option<Seq<char>>>,
) -> SubmitOutcomeView {
    if 0 <= index < tasks.len() {
        let t = tasks[index];
        match selected {
            None => SubmitOutcomeView::NoAgentSelected,
            Some(id) => {
                let current = agent_current_task(agents, id);
                let holder = task_current_agent(agents, keys, reference);
                if current is Some || holder is Some {
                    SubmitOutcomeView::Warn(TaskReassignmentWarningView {
                        target_agent_id: id,
                        task_id: t.id,
                        task_name: t.name,
                        agent_current_task: current,
                        task_current_agent: holder,
                    })
                } else {
                    SubmitOutcomeView::Send(ActionView::AssignProjectTask { id, url_or_id: t.id })
                }
            },
        }
    } else {
        SubmitOutcomeView::Nothing
    }
}

/// What assigning the task at `index` to the selected agent leads to, with
/// the keys computed from the task's id and the agents.
pub open spec fn assign_selected_outcome(
    tasks: Seq<TaskListItemView>,
    index: int,
    selected: Option<AgentId>,
    agents: Seq<AgentTaskLinkView>,
) -> SubmitOutcomeView {
    assign_selected_decision(
        tasks,
        index,
        selected,
        agents,
        if 0 <= index < tasks.len() { task_key(tasks[index].id) } else { Seq::empty() },
        agent_keys(agents),
    )
}

/// What assigning the task at `index` leads to, given the keys; see
/// [`assign_selected_decision`].
pub fn decide_assign_selected(
    tasks: &Vec<TaskListItem>,
    index: usize,
    selected: Option<AgentId>,
    agents: &Vec<AgentTaskLink>,
    reference: &String,
    keys: &Vec<Option<String>>,
) -> (r: SubmitOutcome)
    requires
        keys@.len() == agents@.len(),
    ensures
        r@ == assign_selected_decision(task_views(tasks@), index as int, selected, link_views(agents@), reference@, opt_texts(keys@)),
{
    if index >= tasks.len() {
        return SubmitOutcome::Nothing;
    }
    let t = &tasks[index];
    match selected {
        None => SubmitOutcome::NoAgentSelected,
        Some(id) => {
            let (current, holder) = who_holds(agents, id, reference, keys);
            if current.is_some() || holder.is_some() {
                SubmitOutcome::Warn(TaskReassignmentWarning {
                    target_agent_id: id,
                    task_id: t.id.clone(),
                    task_name: t.name.clone(),
                    agent_current_task: current,
                    task_current_agent: holder,
                })
            } else {
                SubmitOutcome::Send(Action::AssignProjectTask { id, url_or_id: t.id.clone() })
            }
        },
    }
}

/// What assigning the task at `index` of the task list to the selected
/// agent leads to; see [`assign_selected_outcome`]. The caller leaves the
/// input mode before an assignment and shows the notice or the warning.
pub fn assign_selected_task(
    tasks: &Vec<TaskListItem>,
    index: usize,
    selected: Option<AgentId>,
    agents: &Vec<AgentTaskLink>,
) -> (r: SubmitOutcome)
    ensures
        r@ == assign_selected_outcome(task_views(tasks@), index as int, selected, link_views(agents@)),
{
    let reference = if index < tasks.len() {
        key_of(tasks[index].id.as_str())
    } else {
        String::new()
    };
    let keys = task_keys_of(agents);
    decide_assign_selected(tasks, index, selected, agents, &reference, &keys)
}

/// Confirming a reassignment: the agent that held the task, if any, loses
/// it, and the task is assigned to the agent the warning was about.
pub fn confirm_reassignment(w: TaskReassignmentWarning) -> (r: (Option<AgentId>, Action))
    ensures
        r.0 == (match w.task_current_agent {
            Some(a) => Some(a.0),
            None => None::<AgentId>,
        }),
        r.1@ == (ActionView::AssignProjectTask { id: w.target_agent_id, url_or_id: w.task_id@ }),
{
    let unlink = match w.task_current_agent {
        Some(a) => Some(a.0),
        None => None,
    };
    (unlink, Action::AssignProjectTask { id: w.target_agent_id, url_or_id: w.task_id })
}

} // verus!
