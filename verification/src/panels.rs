//! The smaller panels of the front end: the preview pane's tabs and scroll
//! offsets, the column selector, and the project-management status debug
//! overlay.
use vstd::prelude::*;
use vstd::string::*;
use crate::agent::opt_text;
use crate::ids::AgentId;
use crate::key_events::{PmStatusDebugStep, PreviewTab};
use crate::setup_keys::ProjectMgmtProvider;
use crate::text::{count_lines, line_count};

verus! {

/// The tab after `t`: preview, git diff, dev server, and round again.
pub open spec fn tab_after(t: PreviewTab) -> PreviewTab {
    match t {
        PreviewTab::Preview => PreviewTab::GitDiff,
        PreviewTab::GitDiff => PreviewTab::DevServer,
        PreviewTab::DevServer => PreviewTab::Preview,
    }
}

/// The tab before `t`.
pub open spec fn tab_before(t: PreviewTab) -> PreviewTab {
    match t {
        PreviewTab::Preview => PreviewTab::DevServer,
        PreviewTab::GitDiff => PreviewTab::Preview,
        PreviewTab::DevServer => PreviewTab::GitDiff,
    }
}

/// How far one scroll step moves.
pub const SCROLL_STEP: usize = 10;

/// `a + b`, or the largest `usize` where that does not fit.
pub open spec fn sat_add(a: int, b: int) -> int {
    if a + b <= usize::MAX { a + b } else { usize::MAX as int }
}

/// `a - b`, or 0 where that is negative.
pub open spec fn sat_sub(a: int, b: int) -> int {
    if a >= b { a - b } else { 0 }
}

/// The preview pane: its tab, the scroll offsets of its views, and the diff
/// it shows with the number of lines in it. The agent's output scrolls back
/// from its end, so scrolling up grows its offset.
pub struct PreviewPane {
    pub tab: PreviewTab,
    pub output_scroll: usize,
    pub gitdiff_scroll: usize,
    pub gitdiff_line_count: usize,
    pub gitdiff_content: Option<String>,
}

impl PreviewPane {
    /// Takes in a new diff, or none: the diff is kept and its lines are
    /// counted as `str::lines` counts them (none without a diff). The tab and
    /// the scroll offsets stay.
    pub fn diff_content_arrived(&mut self, content: Option<String>)
        ensures
            final(self).gitdiff_content == content,
            final(self).gitdiff_line_count == (match content {
                Some(d) => line_count(d@),
                None => 0,
            }),
            final(self).tab == old(self).tab,
            final(self).output_scroll == old(self).output_scroll,
            final(self).gitdiff_scroll == old(self).gitdiff_scroll,
    {
        let n: usize = match &content {
            Some(d) => count_lines(d.as_str()),
            None => 0,
        };
        self.gitdiff_content = content;
        self.gitdiff_line_count = n;
    }

    /// Shows the next tab.
    pub fn next_tab(&mut self)
        ensures
            final(self).tab == tab_after(old(self).tab),
            final(self).output_scroll == old(self).output_scroll,
            final(self).gitdiff_scroll == old(self).gitdiff_scroll,
            final(self).gitdiff_line_count == old(self).gitdiff_line_count,
            final(self).gitdiff_content == old(self).gitdiff_content,
    {
        self.tab = match self.tab {
            PreviewTab::Preview => PreviewTab::GitDiff,
            PreviewTab::GitDiff => PreviewTab::DevServer,
            PreviewTab::DevServer => PreviewTab::Preview,
        };
    }

    /// Shows the previous tab.
    pub fn prev_tab(&mut self)
        ensures
            final(self).tab == tab_before(old(self).tab),
            final(self).output_scroll == old(self).output_scroll,
            final(self).gitdiff_scroll == old(self).gitdiff_scroll,
            final(self).gitdiff_line_count == old(self).gitdiff_line_count,
            final(self).gitdiff_content == old(self).gitdiff_content,
    {
        self.tab = match self.tab {
            PreviewTab::Preview => PreviewTab::DevServer,
            PreviewTab::GitDiff => PreviewTab::Preview,
            PreviewTab::DevServer => PreviewTab::GitDiff,
        };
    }

    /// Scrolls the shown view up one step: further back in the output, or
    /// towards the top of the diff; the dev server view does not scroll.
    pub fn scroll_up(&mut self)
        ensures
            final(self).tab == old(self).tab,
            final(self).gitdiff_line_count == old(self).gitdiff_line_count,
            final(self).gitdiff_content == old(self).gitdiff_content,
            final(self).output_scroll == (if old(self).tab == PreviewTab::Preview {
                sat_add(old(self).output_scroll as int, SCROLL_STEP as int)
            } else {
                old(self).output_scroll as int
            }),
            final(self).gitdiff_scroll == (if old(self).tab == PreviewTab::GitDiff {
                sat_sub(old(self).gitdiff_scroll as int, SCROLL_STEP as int)
            } else {
                old(self).gitdiff_scroll as int
            }),
    {
        match self.tab {
            PreviewTab::Preview => {
                self.output_scroll = self.output_scroll.saturating_add(SCROLL_STEP);
            },
            PreviewTab::GitDiff => {
                self.gitdiff_scroll = self.gitdiff_scroll.saturating_sub(SCROLL_STEP);
            },
            PreviewTab::DevServer => {},
        }
    }

    /// Scrolls the shown view down one step: towards the end of the output,
    /// or down the diff but not past its last line.
    pub fn scroll_down(&mut self)
        ensures
            final(self).tab == old(self).tab,
            final(self).gitdiff_line_count == old(self).gitdiff_line_count,
            final(self).gitdiff_content == old(self).gitdiff_content,
            final(self).output_scroll == (if old(self).tab == PreviewTab::Preview {
                sat_sub(old(self).output_scroll as int, SCROLL_STEP as int)
            } else {
                old(self).output_scroll as int
            }),
            final(self).gitdiff_scroll == (if old(self).tab == PreviewTab::GitDiff {
                let moved = sat_add(old(self).gitdiff_scroll as int, SCROLL_STEP as int);
                let last = sat_sub(old(self).gitdiff_line_count as int, 1);
                if moved < last { moved } else { last }
            } else {
                old(self).gitdiff_scroll as int
            }),
    {
        match self.tab {
            PreviewTab::Preview => {
                self.output_scroll = self.output_scroll.saturating_sub(SCROLL_STEP);
            },
            PreviewTab::GitDiff => {
                let last = self.gitdiff_line_count.saturating_sub(1);
                let moved = self.gitdiff_scroll.saturating_add(SCROLL_STEP);
                self.gitdiff_scroll = if moved < last { moved } else { last };
            },
            PreviewTab::DevServer => {},
        }
    }
}

/// Going to the next tab and back, or back and on, returns to the same tab,
/// and three steps in one direction go all the way round.
pub proof fn lemma_tabs_cycle(t: PreviewTab)
    ensures
        tab_before(tab_after(t)) == t,
        tab_after(tab_before(t)) == t,
        tab_after(tab_after(tab_after(t))) == t,
        tab_before(tab_before(tab_before(t))) == t,
{
}

/// Scrolling the output up and then down returns to the same place, where
/// the offset did not hit the end of the range.
pub proof fn lemma_output_scroll_up_then_down(offset: int)
    requires
        0 <= offset,
        offset + SCROLL_STEP <= usize::MAX,
    ensures
        sat_sub(sat_add(offset, SCROLL_STEP as int), SCROLL_STEP as int) == offset,
{
}

/// The column selector: which columns of the agent list are shown, and the
/// highlighted column.
pub struct ColumnSelector {
    pub active: bool,
    pub visible: Vec<bool>,
    pub selected_index: usize,
}

impl ColumnSelector {
    /// Shows or hides the highlighted column, where there is one.
    pub fn toggle_selected(&mut self)
        ensures
            final(self).visible@ == (if old(self).selected_index < old(self).visible@.len() {
                old(self).visible@.update(
                    old(self).selected_index as int,
                    !old(self).visible@[old(self).selected_index as int],
                )
            } else {
                old(self).visible@
            }),
            final(self).selected_index == old(self).selected_index,
            final(self).active == old(self).active,
    {
        if self.selected_index < self.visible.len() {
            let v = self.visible[self.selected_index];
            self.visible.set(self.selected_index, !v);
        }
    }

    /// Highlights the next column; it stops at the last.
    pub fn select_next(&mut self)
        requires
            old(self).selected_index < usize::MAX,
        ensures
            final(self).selected_index == (if old(self).selected_index + 1 < sat_sub(old(self).visible@.len() as int, 1) {
                old(self).selected_index + 1
            } else {
                sat_sub(old(self).visible@.len() as int, 1)
            }),
            final(self).visible == old(self).visible,
            final(self).active == old(self).active,
    {
        let last = self.visible.len().saturating_sub(1);
        let moved = self.selected_index + 1;
        self.selected_index = if moved < last { moved } else { last };
    }

    /// Highlights the previous column; it stops at the first.
    pub fn select_prev(&mut self)
        ensures
            final(self).selected_index == sat_sub(old(self).selected_index as int, 1),
            final(self).visible == old(self).visible,
            final(self).active == old(self).active,
    {
        self.selected_index = self.selected_index.saturating_sub(1);
    }
}

/// Showing or hiding a column twice leaves every column as it was.
pub proof fn lemma_column_toggle_twice(visible: Seq<bool>, i: int)
    requires
        0 <= i < visible.len(),
    ensures
        visible.update(i, !visible[i]).update(i, !visible.update(i, !visible[i])[i]) == visible,
{
    assert(visible.update(i, !visible[i]).update(i, !visible.update(i, !visible[i])[i]) =~= visible);
}

/// Moving the highlight down keeps it on a column, whenever there is one.
pub proof fn lemma_column_selection_in_range(selected: int, n: int)
    requires
        0 <= selected,
        n > 0,
    ensures
        0 <= (if selected + 1 < sat_sub(n, 1) { selected + 1 } else { sat_sub(n, 1) }) < n,
{
}

/// The number of project-management providers the debug overlay lists.
pub const PM_PROVIDER_COUNT: usize = 6;

/// The project-management status debug overlay.
pub struct PmStatusDebugPanel {
    pub active: bool,
    pub step: PmStatusDebugStep,
    pub selected_index: usize,
    pub selected_provider: Option<ProjectMgmtProvider>,
    pub loading: bool,
    pub payload: Option<String>,
    pub error: Option<String>,
}

impl PmStatusDebugPanel {
    /// Opens the overlay on its provider list, with the first highlighted
    /// and nothing loaded.
    pub fn open(&mut self)
        ensures
            final(self).active,
            final(self).step == PmStatusDebugStep::SelectProvider,
            final(self).selected_index == 0,
            final(self).selected_provider is None,
            !final(self).loading,
            final(self).payload is None,
            final(self).error is None,
    {
        self.active = true;
        self.step = PmStatusDebugStep::SelectProvider;
        self.selected_index = 0;
        self.selected_provider = None;
        self.loading = false;
        self.payload = None;
        self.error = None;
    }

    /// Closes the overlay and drops what it showed.
    pub fn close(&mut self)
        ensures
            !final(self).active,
            final(self).step == PmStatusDebugStep::SelectProvider,
            final(self).payload is None,
            final(self).error is None,
            final(self).selected_index == old(self).selected_index,
            final(self).selected_provider == old(self).selected_provider,
            final(self).loading == old(self).loading,
    {
        self.active = false;
        self.step = PmStatusDebugStep::SelectProvider;
        self.payload = None;
        self.error = None;
    }

    /// Highlights the next provider; it stops at the last.
    pub fn select_next(&mut self)
        ensures
            final(self).selected_index == (if old(self).selected_index < PM_PROVIDER_COUNT - 1 {
                old(self).selected_index + 1
            } else {
                old(self).selected_index as int
            }),
            final(self).step == old(self).step,
            final(self).active == old(self).active,
    {
        if self.selected_index < PM_PROVIDER_COUNT - 1 {
            self.selected_index = self.selected_index + 1;
        }
    }

    /// Highlights the previous provider; it stops at the first.
    pub fn select_prev(&mut self)
        ensures
            final(self).selected_index == sat_sub(old(self).selected_index as int, 1),
            final(self).step == old(self).step,
            final(self).active == old(self).active,
    {
        if self.selected_index > 0 {
            self.selected_index = self.selected_index - 1;
        }
    }

    /// Starts fetching the statuses of `provider` (the highlighted one, named
    /// `display_name`): it becomes the selected provider; where it is not
    /// configured the overlay shows that at once instead. Returns whether the
    /// caller should fetch.
    pub fn fetch_selected(&mut self, provider: ProjectMgmtProvider, configured: bool, display_name: &str) -> (fetch: bool)
        ensures
            fetch == configured,
            final(self).selected_provider == Some(provider),
            final(self).loading == configured,
            configured ==> final(self).error is None && final(self).step == old(self).step,
            !configured ==> opt_text(final(self).error) == Some(display_name@ + " is not configured."@)
                && final(self).step == PmStatusDebugStep::ShowPayload,
            final(self).active == old(self).active,
            final(self).selected_index == old(self).selected_index,
            final(self).payload == old(self).payload,
    {
        self.selected_provider = Some(provider);
        self.loading = true;
        self.error = None;
        if !configured {
            self.loading = false;
            self.error = Some(String::from_str(display_name).concat(" is not configured."));
            self.step = PmStatusDebugStep::ShowPayload;
        }
        configured
    }

    /// Takes the payload fetched for `provider`; a reply for any provider
    /// but the one selected last is ignored.
    pub fn fetched(&mut self, provider: ProjectMgmtProvider, payload: String)
        ensures
            old(self).selected_provider == Some(provider) ==> {
                &&& !final(self).loading
                &&& opt_text(final(self).payload) == Some(payload@)
                &&& final(self).error is None
                &&& final(self).step == PmStatusDebugStep::ShowPayload
            },
            old(self).selected_provider != Some(provider) ==> *final(self) == *old(self),
            final(self).active == old(self).active,
            final(self).selected_index == old(self).selected_index,
            final(self).selected_provider == old(self).selected_provider,
    {
        if self.selected_provider == Some(provider) {
            self.loading = false;
            self.payload = Some(payload);
            self.error = None;
            self.step = PmStatusDebugStep::ShowPayload;
        }
    }

    /// Takes the error that fetching for `provider` met; a reply for any
    /// provider but the one selected last is ignored.
    pub fn fetch_failed(&mut self, provider: ProjectMgmtProvider, error: String)
        ensures
            old(self).selected_provider == Some(provider) ==> {
                &&& !final(self).loading
                &&& opt_text(final(self).error) == Some(error@)
                &&& final(self).step == PmStatusDebugStep::ShowPayload
                &&& final(self).payload == old(self).payload
            },
            old(self).selected_provider != Some(provider) ==> *final(self) == *old(self),
            final(self).active == old(self).active,
            final(self).selected_index == old(self).selected_index,
            final(self).selected_provider == old(self).selected_provider,
    {
        if self.selected_provider == Some(provider) {
            self.loading = false;
            self.error = Some(error);
            self.step = PmStatusDebugStep::ShowPayload;
        }
    }
}

/// A status that a task can be moved to: its id, its name, and whether it
/// belongs to subtasks.
pub struct StatusOption {
    pub id: String,
    pub name: String,
    pub is_child: bool,
}

/// The dropdown of statuses for a task: the agent it is for (the nil id for
/// a task picked from the task list), the task's id and name where picked
/// from the list, the options and the highlighted one.
pub struct TaskStatusDropdown {
    pub agent_id: AgentId,
    pub task_id: Option<String>,
    pub task_name: Option<String>,
    pub status_options: Vec<StatusOption>,
    pub selected_index: usize,
}

/// The dropdown for the statuses loaded for the task of agent `id`; none
/// where no status was loaded (the caller then warns).
pub fn status_dropdown_for_agent(id: AgentId, options: Vec<StatusOption>) -> (r: Option<TaskStatusDropdown>)
    ensures
        options@.len() == 0 <==> r is None,
        r matches Some(d) ==> d.agent_id == id && d.task_id is None && d.task_name is None
            && d.status_options@ == options@ && d.selected_index == 0,
{
    if options.len() == 0 {
        None
    } else {
        Some(TaskStatusDropdown { agent_id: id, task_id: None, task_name: None, status_options: options, selected_index: 0 })
    }
}

/// The dropdown for the statuses loaded for the task `task_id` named
/// `task_name` from the task list; none where no status was loaded.
pub fn status_dropdown_for_task(task_id: String, task_name: String, options: Vec<StatusOption>) -> (r: Option<TaskStatusDropdown>)
    ensures
        options@.len() == 0 <==> r is None,
        r matches Some(d) ==> d.agent_id == 0 && opt_text(d.task_id) == Some(task_id@)
            && opt_text(d.task_name) == Some(task_name@) && d.status_options@ == options@ && d.selected_index == 0,
{
    if options.len() == 0 {
        None
    } else {
        Some(TaskStatusDropdown {
            agent_id: 0,
            task_id: Some(task_id),
            task_name: Some(task_name),
            status_options: options,
            selected_index: 0,
        })
    }
}

impl TaskStatusDropdown {
    /// Highlights the next status; it stops at the last.
    pub fn select_next(&mut self)
        ensures
            final(self).selected_index == (if old(self).selected_index < sat_sub(old(self).status_options@.len() as int, 1) {
                old(self).selected_index + 1
            } else {
                old(self).selected_index as int
            }),
            final(self).status_options@ == old(self).status_options@,
            final(self).agent_id == old(self).agent_id,
    {
        let last = self.status_options.len().saturating_sub(1);
        if self.selected_index < last {
            self.selected_index = self.selected_index + 1;
        }
    }

    /// Highlights the previous status; it stops at the first.
    pub fn select_prev(&mut self)
        ensures
            final(self).selected_index == sat_sub(old(self).selected_index as int, 1),
            final(self).status_options@ == old(self).status_options@,
            final(self).agent_id == old(self).agent_id,
    {
        if self.selected_index > 0 {
            self.selected_index = self.selected_index - 1;
        }
    }
}

/// In a dropdown with statuses, the highlight never leaves the list.
pub proof fn lemma_status_highlight_in_range(selected: int, n: int)
    requires
        0 <= selected < n,
    ensures
        0 <= (if selected < sat_sub(n, 1) { selected + 1 } else { selected }) < n,
        0 <= sat_sub(selected, 1) < n,
{
}

} // verus!

verus! {

/// The field cursor of the settings screen: which field of the shown tab is
/// selected, and whether a text field is being edited.
#[derive(Debug, Clone, Copy, PartialEq, Eq, Structural)]
pub struct SettingsCursor {
    pub field_index: usize,
    pub editing_text: bool,
}

impl SettingsCursor {
    /// Selects the next of the tab's `total` fields, round to the first;
    /// nothing moves while a text field is edited.
    pub fn select_next(&mut self, total: usize)
        requires
            total > 0,
            old(self).field_index < usize::MAX,
        ensures
            final(self).editing_text == old(self).editing_text,
            final(self).field_index == (if old(self).editing_text {
                old(self).field_index as int
            } else {
                (old(self).field_index + 1) % (total as int)
            }),
    {
        if !self.editing_text {
            self.field_index = (self.field_index + 1) % total;
        }
    }

    /// Selects the previous of the tab's `total` fields, round to the last;
    /// nothing moves while a text field is edited.
    pub fn select_prev(&mut self, total: usize)
        ensures
            final(self).editing_text == old(self).editing_text,
            final(self).field_index == (if old(self).editing_text {
                old(self).field_index as int
            } else if old(self).field_index == 0 {
                sat_sub(total as int, 1)
            } else {
                old(self).field_index - 1
            }),
    {
        if !self.editing_text {
            self.field_index = if self.field_index == 0 {
                total.saturating_sub(1)
            } else {
                self.field_index - 1
            };
        }
    }
}

/// On a field of the tab, stepping to the next field and back, or back and
/// on, returns to it.
pub proof fn lemma_settings_fields_cycle(field_index: int, total: int)
    requires
        0 <= field_index < total,
    ensures
        ({
            let next = (field_index + 1) % total;
            (if next == 0 { sat_sub(total, 1) } else { next - 1 }) == field_index
        }),
        ({
            let prev = if field_index == 0 { sat_sub(total, 1) } else { field_index - 1 };
            (prev + 1) % total == field_index
        }),
{
    if field_index + 1 < total {
        vstd::arithmetic::div_mod::lemma_small_mod((field_index + 1) as nat, total as nat);
    } else {
        vstd::arithmetic::div_mod::lemma_mod_self_0(total);
    }
    if field_index > 0 {
        vstd::arithmetic::div_mod::lemma_small_mod(field_index as nat, total as nat);
    } else {
        vstd::arithmetic::div_mod::lemma_mod_self_0(total);
    }
}

} // verus!
