//! Building the task list from the tasks a provider returns: one item per
//! task, parents marked, and the list ordered with children under their
//! parents.
use vstd::prelude::*;
use crate::agent::opt_text;
use crate::task_agent::or_empty;
use crate::tasks::{sort_tasks_by_parent, sorted_by_parent, task_views, TaskListItem, TaskListItemView};

verus! {

/// A task as a provider returns it for the task list.
pub struct FetchedTask {
    pub id: String,
    pub identifier: Option<String>,
    pub name: String,
    pub status: Option<String>,
    pub url: String,
    pub parent_id: Option<String>,
}

/// The view of a [`FetchedTask`].
pub struct FetchedTaskView {
    pub id: Seq<char>,
    pub identifier: Option<Seq<char>>,
    pub name: Seq<char>,
    pub status: Option<Seq<char>>,
    pub url: Seq<char>,
    pub parent_id: Option<Seq<char>>,
}

impl View for FetchedTask {
    type V = FetchedTaskView;

    open spec fn view(&self) -> FetchedTaskView {
        FetchedTaskView {
            id: self.id@,
            identifier: opt_text(self.identifier),
            name: self.name@,
            status: opt_text(self.status),
            url: self.url@,
            parent_id: opt_text(self.parent_id),
        }
    }
}

/// The views of a list of fetched tasks.
pub open spec fn fetched_views(v: Seq<FetchedTask>) -> Seq<FetchedTaskView> {
    v.map_values(|t: FetchedTask| t@)
}

/// Whether some fetched task names `id` as its parent.
pub open spec fn is_parent(fs: Seq<FetchedTaskView>, id: Seq<char>) -> bool {
    exists|j: int| 0 <= j < fs.len() && fs[j].parent_id == Some(id)
}

/// The task-list item for the fetched task `t`: its status, or `default`
/// where it has none, and marked as a parent where some fetched task names
/// it as one.
pub open spec fn list_item(fs: Seq<FetchedTaskView>, t: FetchedTaskView, default: Seq<char>) -> TaskListItemView {
    TaskListItemView {
        id: t.id,
        identifier: t.identifier,
        name: t.name,
        status_name: match t.status {
            Some(s) => s,
            None => default,
        },
        url: t.url,
        parent_id: t.parent_id,
        has_children: is_parent(fs, t.id),
    }
}

/// The items for the fetched tasks, in the order fetched.
pub open spec fn list_items(fs: Seq<FetchedTaskView>, default: Seq<char>) -> Seq<TaskListItemView> {
    fs.map_values(|t: FetchedTaskView| list_item(fs, t, default))
}

fn names_parent(fetched: &Vec<FetchedTask>, id: &String) -> (r: bool)
    ensures
        r == is_parent(fetched_views(fetched@), id@),
{
    let ghost fs = fetched_views(fetched@);
    let mut j: usize = 0;
    while j < fetched.len()
        invariant
            j <= fetched@.len(),
            fs == fetched_views(fetched@),
            fs.len() == fetched@.len(),
            forall|m: int| 0 <= m < j ==> fs[m].parent_id != Some(id@),
        decreases fetched.len() - j,
    {
        match &fetched[j].parent_id {
            Some(p) => {
                if *p == *id {
                    assert(fs[j as int].parent_id == Some(id@));
                    return true;
                }
            },
            None => {},
        }
        j = j + 1;
    }
    false
}

/// The task list for the fetched tasks: one item each (status `default`
/// where a task has none, parents marked), ordered by
/// [`sort_tasks_by_parent`].
pub fn build_task_list(fetched: &Vec<FetchedTask>, default: &str) -> (r: Vec<TaskListItem>)
    ensures
        task_views(r@) == sorted_by_parent(list_items(fetched_views(fetched@), default@)),
{
    let ghost fs = fetched_views(fetched@);
    let mut items: Vec<TaskListItem> = Vec::new();
    let mut i: usize = 0;
    while i < fetched.len()
        invariant
            i <= fetched@.len(),
            fs == fetched_views(fetched@),
            task_views(items@) == list_items(fs, default@).take(i as int),
        decreases fetched.len() - i,
    {
        let t = &fetched[i];
        let status_name = match &t.status {
            Some(s) => s.clone(),
            None => String::from_str(default),
        };
        let item = TaskListItem {
            id: t.id.clone(),
            identifier: crate::agent::copy_opt_text(&t.identifier),
            name: t.name.clone(),
            status_name,
            url: t.url.clone(),
            parent_id: crate::agent::copy_opt_text(&t.parent_id),
            has_children: names_parent(fetched, &t.id),
        };
        proof {
            assert(fs[i as int] == fetched@[i as int]@);
            assert(item@ == list_item(fs, fs[i as int], default@));
        }
        let ghost before = items@;
        items.push(item);
        proof {
            assert(task_views(items@) =~= task_views(before).push(item@));
            assert(list_items(fs, default@).take(i as int + 1) =~= list_items(fs, default@).take(i as int).push(
                list_items(fs, default@)[i as int],
            ));
        }
        i = i + 1;
    }
    proof {
        assert(list_items(fs, default@).take(fetched@.len() as int) =~= list_items(fs, default@));
    }
    sort_tasks_by_parent(&mut items);
    items
}

/// An Asana task as the task list fetches it.
pub struct AsanaListTask {
    pub gid: String,
    pub name: String,
    pub permalink_url: Option<String>,
    pub parent_gid: Option<String>,
    pub completed: bool,
    pub section_name: Option<String>,
    pub num_subtasks: u64,
}

/// The status an Asana task shows in the task list: a subtask shows whether
/// it is complete, any other task its section (`No Section` where it has none).
pub open spec fn asana_list_status(t: AsanaListTask) -> Seq<char> {
    if t.parent_gid is Some {
        if t.completed { "Complete"@ } else { "Not Complete"@ }
    } else {
        match opt_text(t.section_name) {
            Some(s) => s,
            None => "No Section"@,
        }
    }
}

/// The task-list item for an Asana task; it is a parent where it has subtasks.
pub open spec fn asana_list_item(t: AsanaListTask) -> TaskListItemView {
    TaskListItemView {
        id: t.gid@,
        identifier: None,
        name: t.name@,
        status_name: asana_list_status(t),
        url: or_empty(opt_text(t.permalink_url)),
        parent_id: opt_text(t.parent_gid),
        has_children: t.num_subtasks > 0,
    }
}

/// The task list for fetched Asana tasks, ordered by [`sort_tasks_by_parent`].
pub fn build_asana_task_list(tasks: &Vec<AsanaListTask>) -> (r: Vec<TaskListItem>)
    ensures
        task_views(r@) == sorted_by_parent(tasks@.map_values(|t: AsanaListTask| asana_list_item(t))),
{
    let ghost all = tasks@.map_values(|t: AsanaListTask| asana_list_item(t));
    let mut items: Vec<TaskListItem> = Vec::new();
    let mut i: usize = 0;
    while i < tasks.len()
        invariant
            i <= tasks@.len(),
            all == tasks@.map_values(|t: AsanaListTask| asana_list_item(t)),
            task_views(items@) == all.take(i as int),
        decreases tasks.len() - i,
    {
        let t = &tasks[i];
        let status_name = match &t.parent_gid {
            Some(_) => if t.completed {
                String::from_str("Complete")
            } else {
                String::from_str("Not Complete")
            },
            None => match &t.section_name {
                Some(s) => s.clone(),
                None => String::from_str("No Section"),
            },
        };
        let url = match &t.permalink_url {
            Some(u) => u.clone(),
            None => String::new(),
        };
        let item = TaskListItem {
            id: t.gid.clone(),
            identifier: None,
            name: t.name.clone(),
            status_name,
            url,
            parent_id: crate::agent::copy_opt_text(&t.parent_gid),
            has_children: t.num_subtasks > 0,
        };
        proof {
            assert(item@ == asana_list_item(tasks@[i as int]));
        }
        let ghost before = items@;
        items.push(item);
        proof {
            assert(task_views(items@) =~= task_views(before).push(item@));
            assert(all.take(i as int + 1) =~= all.take(i as int).push(all[i as int]));
        }
        i = i + 1;
    }
    proof {
        assert(all.take(tasks@.len() as int) =~= all);
    }
    sort_tasks_by_parent(&mut items);
    items
}

} // verus!
