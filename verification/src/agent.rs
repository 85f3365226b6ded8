//! The agent record that the pi layer reads, and the statuses it carries.
use vstd::prelude::*;
use crate::ids::AgentId;

verus! {

/// The view of an optional text.
pub open spec fn opt_text(o: Option<String>) -> Option<Seq<char>> {
    match o {
        Some(s) => Some(s@),
        None => None,
    }
}

/// The view of a list of texts.
pub open spec fn texts(v: Seq<String>) -> Seq<Seq<char>> {
    v.map_values(|s: String| s@)
}

/// An optional text, duplicated.
pub fn copy_opt_text(o: &Option<String>) -> (r: Option<String>)
    ensures
        opt_text(r) == opt_text(*o),
{
    match o {
        Some(s) => Some(s.clone()),
        None => None,
    }
}

/// A list of texts, duplicated.
pub fn copy_texts(v: &Vec<String>) -> (r: Vec<String>)
    ensures
        texts(r@) == texts(v@),
{
    let mut r: Vec<String> = Vec::new();
    let mut i: usize = 0;
    while i < v.len()
        invariant
            i <= v.len(),
            r@.len() == i,
            forall|j: int| 0 <= j < i ==> r@[j]@ == v@[j]@,
        decreases v.len() - i,
    {
        r.push(v[i].clone());
        i = i + 1;
    }
    assert(texts(r@) =~= texts(v@));
    r
}

/// What an agent is doing, as reported by status detection.
#[derive(Debug, PartialEq, Eq)]
pub enum AgentStatus {
    Idle,
    Paused,
    AwaitingInput,
    Error(String),
}

/// The view of an [`AgentStatus`].
pub enum AgentStatusView {
    Idle,
    Paused,
    AwaitingInput,
    Error(Seq<char>),
}

impl View for AgentStatus {
    type V = AgentStatusView;

    open spec fn view(&self) -> AgentStatusView {
        match self {
            AgentStatus::Idle => AgentStatusView::Idle,
            AgentStatus::Paused => AgentStatusView::Paused,
            AgentStatus::AwaitingInput => AgentStatusView::AwaitingInput,
            AgentStatus::Error(m) => AgentStatusView::Error(m@),
        }
    }
}

impl AgentStatus {
    /// This status, duplicated.
    pub fn copy(&self) -> (r: AgentStatus)
        ensures
            r@ == self@,
    {
        match self {
            AgentStatus::Idle => AgentStatus::Idle,
            AgentStatus::Paused => AgentStatus::Paused,
            AgentStatus::AwaitingInput => AgentStatus::AwaitingInput,
            AgentStatus::Error(m) => AgentStatus::Error(m.clone()),
        }
    }
}

/// How a worktree stands against its upstream branch.
#[derive(Debug, Clone, Copy, PartialEq, Eq)]
pub struct GitSyncStatus {
    pub ahead: u32,
    pub behind: u32,
}

/// An agent as the pi layer sees it.
#[derive(Debug)]
pub struct Agent {
    pub id: AgentId,
    pub name: String,
    pub branch: String,
    pub worktree_path: String,
    pub status: AgentStatus,
    pub output_buffer: Vec<String>,
    pub tmux_session: String,
}

/// The view of an [`Agent`].
pub struct AgentView {
    pub id: AgentId,
    pub name: Seq<char>,
    pub branch: Seq<char>,
    pub worktree_path: Seq<char>,
    pub status: AgentStatusView,
    pub output_buffer: Seq<Seq<char>>,
    pub tmux_session: Seq<char>,
}

impl View for Agent {
    type V = AgentView;

    open spec fn view(&self) -> AgentView {
        AgentView {
            id: self.id,
            name: self.name@,
            branch: self.branch@,
            worktree_path: self.worktree_path@,
            status: self.status@,
            output_buffer: texts(self.output_buffer@),
            tmux_session: self.tmux_session@,
        }
    }
}

} // verus!

verus! {

/// Whether two statuses are the same.
pub fn status_eq(a: &AgentStatus, b: &AgentStatus) -> (r: bool)
    ensures
        r == (a@ == b@),
{
    match (a, b) {
        (AgentStatus::Idle, AgentStatus::Idle) => true,
        (AgentStatus::Paused, AgentStatus::Paused) => true,
        (AgentStatus::AwaitingInput, AgentStatus::AwaitingInput) => true,
        (AgentStatus::Error(x), AgentStatus::Error(y)) => *x == *y,
        _ => false,
    }
}

/// How many consecutive reports of the same new status it takes before an
/// agent's status changes to it.
pub const STATUS_DEBOUNCE_THRESHOLD: u32 = 4;

/// Whether a reported status takes effect at once, without debouncing.
pub open spec fn bypasses_debounce(s: AgentStatusView) -> bool {
    s is Error || s is AwaitingInput
}

/// The debouncing of reported statuses for one agent: a status that differs
/// from the current one must be reported several times in a row.
#[derive(Debug)]
pub struct StatusDebounce {
    pub pending_status: Option<AgentStatus>,
    pub pending_status_count: u32,
}

/// The view of an optional status.
pub open spec fn opt_status(o: Option<AgentStatus>) -> Option<AgentStatusView> {
    match o {
        Some(s) => Some(s@),
        None => None,
    }
}

/// What a status report does to the debounce state: whether the status
/// changes, and the new pending status and count.
pub open spec fn debounce_step(
    current: AgentStatusView,
    pending: Option<AgentStatusView>,
    count: int,
    reported: AgentStatusView,
) -> (bool, Option<AgentStatusView>, int) {
    if bypasses_debounce(reported) {
        (true, None, 0)
    } else if reported == current {
        (false, None, 0)
    } else if pending == Some(reported) {
        if count + 1 >= STATUS_DEBOUNCE_THRESHOLD {
            (true, None, 0)
        } else {
            (false, pending, count + 1)
        }
    } else {
        (false, Some(reported), 1)
    }
}

impl StatusDebounce {
    /// No status pending.
    pub fn new() -> (r: Self)
        ensures
            r.pending_status is None,
            r.pending_status_count == 0,
    {
        StatusDebounce { pending_status: None, pending_status_count: 0 }
    }

    /// Records a status report for an agent whose status is `current`, and
    /// says whether the agent's status should now change to `reported`.
    pub fn observe(&mut self, current: &AgentStatus, reported: &AgentStatus) -> (update: bool)
        requires
            opt_status(old(self).pending_status) == Some(reported@) ==> old(self).pending_status_count < u32::MAX,
        ensures
            (update, opt_status(final(self).pending_status), final(self).pending_status_count as int)
                == debounce_step(current@, opt_status(old(self).pending_status), old(self).pending_status_count as int, reported@),
    {
        let bypass = match reported {
            AgentStatus::Error(_) | AgentStatus::AwaitingInput => true,
            _ => false,
        };
        if bypass {
            self.pending_status = None;
            self.pending_status_count = 0;
            true
        } else if status_eq(reported, current) {
            self.pending_status = None;
            self.pending_status_count = 0;
            false
        } else {
            let same_pending = match &self.pending_status {
                Some(p) => status_eq(reported, p),
                None => false,
            };
            if same_pending {
                self.pending_status_count = self.pending_status_count + 1;
                if self.pending_status_count >= STATUS_DEBOUNCE_THRESHOLD {
                    self.pending_status = None;
                    self.pending_status_count = 0;
                    true
                } else {
                    false
                }
            } else {
                self.pending_status = Some(reported.copy());
                self.pending_status_count = 1;
                false
            }
        }
    }
}

/// The status side of an agent: its status, the reason given with the
/// latest report, whether it is paused (holds a pause context), and the
/// debouncing of reports.
#[derive(Debug)]
pub struct AgentStatusState {
    pub status: AgentStatus,
    pub status_reason: Option<String>,
    pub paused: bool,
    pub debounce: StatusDebounce,
}

impl AgentStatusState {
    /// Takes a status report. A reason that comes with it is always kept. A
    /// paused agent keeps its status and its debounce state; otherwise the
    /// report goes through the debouncing, and the status becomes the
    /// reported one when that says so. Returns whether the status was set.
    pub fn report_status(&mut self, status: AgentStatus, status_reason: Option<String>) -> (changed: bool)
        requires
            !old(self).paused && opt_status(old(self).debounce.pending_status) == Some(status@)
                ==> old(self).debounce.pending_status_count < u32::MAX,
        ensures
            final(self).paused == old(self).paused,
            opt_text(final(self).status_reason) == (match status_reason {
                Some(r) => Some(r@),
                None => opt_text(old(self).status_reason),
            }),
            old(self).paused ==> {
                &&& !changed
                &&& final(self).status@ == old(self).status@
                &&& opt_status(final(self).debounce.pending_status) == opt_status(old(self).debounce.pending_status)
                &&& final(self).debounce.pending_status_count == old(self).debounce.pending_status_count
            },
            !old(self).paused ==> {
                let step = debounce_step(
                    old(self).status@,
                    opt_status(old(self).debounce.pending_status),
                    old(self).debounce.pending_status_count as int,
                    status@,
                );
                &&& changed == step.0
                &&& opt_status(final(self).debounce.pending_status) == step.1
                &&& final(self).debounce.pending_status_count == step.2
                &&& final(self).status@ == (if step.0 { status@ } else { old(self).status@ })
            },
    {
        let changed = if self.paused {
            false
        } else {
            let update = self.debounce.observe(&self.status, &status);
            if update {
                self.status = status;
            }
            update
        };
        if let Some(reason) = status_reason {
            self.status_reason = Some(reason);
        }
        changed
    }
}

} // verus!

verus! {

/// A status that bypasses debouncing changes the status at once and clears
/// what was pending; reporting the current status changes nothing and clears
/// what was pending.
pub proof fn lemma_debounce_immediate(
    current: AgentStatusView,
    pending: Option<AgentStatusView>,
    count: int,
    reported: AgentStatusView,
)
    ensures
        bypasses_debounce(reported) ==> debounce_step(current, pending, count, reported) == (true, None::<AgentStatusView>, 0int),
        !bypasses_debounce(reported) && reported == current
            ==> debounce_step(current, pending, count, reported) == (false, None::<AgentStatusView>, 0int),
{
}

/// From a state with nothing pending (whatever its count), a new status
/// (not the current one and not one that bypasses debouncing) reported again
/// and again stays pending with a count of 1, 2 and 3 while the status stays
/// as it is, and takes effect on its fourth report, which leaves nothing
/// pending.
pub proof fn lemma_debounce_threshold(current: AgentStatusView, count: int, reported: AgentStatusView)
    requires
        !bypasses_debounce(reported),
        reported != current,
    ensures
        ({
            let s1 = debounce_step(current, None, count, reported);
            let s2 = debounce_step(current, s1.1, s1.2, reported);
            let s3 = debounce_step(current, s2.1, s2.2, reported);
            let s4 = debounce_step(current, s3.1, s3.2, reported);
            &&& !s1.0 && s1.1 == Some(reported) && s1.2 == 1
            &&& !s2.0 && s2.1 == Some(reported) && s2.2 == 2
            &&& !s3.0 && s3.1 == Some(reported) && s3.2 == 3
            &&& s4.0
            &&& s4.1 is None && s4.2 == 0
        }),
{
}

/// The state after the same status has been reported `n` times in a row,
/// starting from `pending` and `count`, for an agent whose status is
/// `current` throughout; the flag says whether the last report changed the
/// status.
pub open spec fn repeat_report(
    current: AgentStatusView,
    pending: Option<AgentStatusView>,
    count: int,
    reported: AgentStatusView,
    n: nat,
) -> (bool, Option<AgentStatusView>, int)
    decreases n,
{
    if n == 0 {
        (false, pending, count)
    } else {
        let prev = repeat_report(current, pending, count, reported, (n - 1) as nat);
        debounce_step(current, prev.1, prev.2, reported)
    }
}

/// How many reports in a row of `reported` it takes, from `pending` and
/// `count`, before the status changes: the rest of the threshold where
/// `reported` is already pending, else the whole threshold.
pub open spec fn reports_to_change(pending: Option<AgentStatusView>, count: int, reported: AgentStatusView) -> nat {
    if pending == Some(reported) {
        if count + 1 >= STATUS_DEBOUNCE_THRESHOLD {
            1
        } else {
            (STATUS_DEBOUNCE_THRESHOLD - count) as nat
        }
    } else {
        STATUS_DEBOUNCE_THRESHOLD as nat
    }
}

/// From any debounce state, a status that is not the current one and does
/// not bypass debouncing, reported again and again, leaves the status as it
/// is on every report before the one that `reports_to_change` counts, while
/// it stays pending with a growing count; on that report the status changes
/// and nothing is left pending.
pub proof fn lemma_debounce_repeated(
    current: AgentStatusView,
    pending: Option<AgentStatusView>,
    count: int,
    reported: AgentStatusView,
    n: nat,
)
    requires
        !bypasses_debounce(reported),
        reported != current,
        0 <= count,
        1 <= n <= reports_to_change(pending, count, reported),
    ensures
        ({
            let r = repeat_report(current, pending, count, reported, n);
            let k = reports_to_change(pending, count, reported);
            &&& r.0 == (n == k)
            &&& n == k ==> r.1 is None && r.2 == 0
            &&& n < k ==> r.1 == Some(reported) && r.2 == (if pending == Some(reported) {
                count + n
            } else {
                n as int
            })
        }),
    decreases n,
{
    if n > 1 {
        lemma_debounce_repeated(current, pending, count, reported, (n - 1) as nat);
    } else {
        assert(repeat_report(current, pending, count, reported, 0) == (false, pending, count));
    }
}

} // verus!

verus! {

/// The AI session to resume, from a cached session id: the id without
/// surrounding whitespace, or none when that leaves nothing.
pub open spec fn cached_session(id: Option<Seq<char>>) -> Option<Seq<char>> {
    match id {
        Some(s) => if crate::text::trim_ws(s).len() == 0 {
            None
        } else {
            Some(crate::text::trim_ws(s))
        },
        None => None,
    }
}

/// The AI session to resume, from a cached session id.
pub fn cached_session_id(ai_session_id: Option<&str>) -> (r: Option<String>)
    ensures
        opt_text(r) == cached_session(match ai_session_id {
            Some(s) => Some(s@),
            None => None,
        }),
{
    match ai_session_id {
        Some(cached) => {
            let trimmed = crate::text::trim_text(cached);
            if trimmed.as_str().unicode_len() == 0 {
                None
            } else {
                Some(trimmed)
            }
        },
        None => None,
    }
}

} // verus!
