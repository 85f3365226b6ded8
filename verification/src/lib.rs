//! Grove's pi-session integration layer and the logic of the Grove front
//! end (key handling, the task list, the setup dialogs and panels, task
//! statuses), with their behaviour stated as Verus contracts.
use vstd::prelude::*;

pub mod ids;
pub mod text;
pub mod decimal;
pub mod agent;
pub mod action;
pub mod pi;
pub mod tasks;
pub mod task_order;
pub mod task_nav;
pub mod file_browser;
pub mod pm_setup;
pub mod git_setup;
pub mod setup_wizards;
pub mod panels;
pub mod submit;
pub mod task_status;
pub mod task_agent;
pub mod task_list;
pub mod keys;
pub mod git_diff;
pub mod setup_keys;
pub mod settings_keys;
pub mod key_events;
pub mod poll;

verus! {

} // verus!
