//! The first-run wizards: the global setup (where worktrees go, which AI
//! agent runs, how much is logged) and the project setup (git and project
//! management providers, symlinked files). Each choice is held as its
//! position in the list of options of its kind; the caller gives the length
//! of each list and does the loading and saving.
use vstd::prelude::*;
use crate::key_events::{GlobalSetupStep, GlobalSetupWizard, ProjectSetupWizard};

verus! {

/// The position of a chosen option, or the first where the choice is not in
/// a list of `count` options.
pub open spec fn position_or_first(choice: int, count: int) -> int {
    if 0 <= choice < count { choice } else { 0 }
}

/// The global setup wizard. `worktree_location`, `ai_agent` and `log_level`
/// are positions in the lists of worktree locations, AI agents and log
/// levels; `field_index` is 0 for the agent field and 1 for the log level.
#[derive(Debug, Clone, Copy, PartialEq, Eq, Structural)]
pub struct GlobalSetupState {
    pub step: GlobalSetupStep,
    pub worktree_location: usize,
    pub field_index: usize,
    pub dropdown_open: bool,
    pub dropdown_index: usize,
    pub ai_agent: usize,
    pub log_level: usize,
}

impl GlobalSetupState {
    /// What the key handler reads of the wizard.
    pub fn key_view(&self) -> (w: GlobalSetupWizard)
        ensures
            w.step == self.step,
            w.dropdown_open == self.dropdown_open,
    {
        GlobalSetupWizard { dropdown_open: self.dropdown_open, step: self.step }
    }

    /// Goes on to the agent settings.
    pub fn next_step(&mut self)
        ensures
            *final(self) == (GlobalSetupState { step: GlobalSetupStep::AgentSettings, ..*old(self) }),
    {
        self.step = GlobalSetupStep::AgentSettings;
    }

    /// Goes back to the worktree location.
    pub fn prev_step(&mut self)
        ensures
            *final(self) == (GlobalSetupState { step: GlobalSetupStep::WorktreeLocation, ..*old(self) }),
    {
        self.step = GlobalSetupStep::WorktreeLocation;
    }

    /// Chooses the next of the `count` worktree locations, round to the first.
    pub fn select_next_location(&mut self, count: usize)
        requires
            count > 0,
        ensures
            *final(self) == (GlobalSetupState {
                worktree_location: ((position_or_first(old(self).worktree_location as int, count as int) + 1) % (count as int)) as usize,
                ..*old(self)
            }),
    {
        let current = if self.worktree_location < count { self.worktree_location } else { 0 };
        self.worktree_location = (current + 1) % count;
    }

    /// Chooses the previous of the `count` worktree locations, round to the last.
    pub fn select_prev_location(&mut self, count: usize)
        requires
            count > 0,
        ensures
            *final(self) == (GlobalSetupState {
                worktree_location: (if position_or_first(old(self).worktree_location as int, count as int) == 0 {
                    count - 1
                } else {
                    position_or_first(old(self).worktree_location as int, count as int) - 1
                }) as usize,
                ..*old(self)
            }),
    {
        let current = if self.worktree_location < count { self.worktree_location } else { 0 };
        self.worktree_location = if current == 0 { count - 1 } else { current - 1 };
    }

    /// Moves up to the agent field.
    pub fn navigate_up(&mut self)
        ensures
            *final(self) == (GlobalSetupState {
                field_index: (if old(self).field_index > 0 { old(self).field_index - 1 } else { 0 }) as usize,
                ..*old(self)
            }),
    {
        if self.field_index > 0 {
            self.field_index = self.field_index - 1;
        }
    }

    /// Moves down to the log level field.
    pub fn navigate_down(&mut self)
        ensures
            *final(self) == (GlobalSetupState {
                field_index: (if old(self).field_index < 1 { old(self).field_index + 1 } else { old(self).field_index as int }) as usize,
                ..*old(self)
            }),
    {
        if self.field_index < 1 {
            self.field_index = self.field_index + 1;
        }
    }

    /// Opens or closes the dropdown of the selected field, with its cursor on
    /// the field's current choice (among `agent_count` agents or
    /// `level_count` log levels).
    pub fn toggle_dropdown(&mut self, agent_count: usize, level_count: usize)
        ensures
            *final(self) == (GlobalSetupState {
                dropdown_open: !old(self).dropdown_open,
                dropdown_index: (if old(self).field_index == 0 {
                    position_or_first(old(self).ai_agent as int, agent_count as int)
                } else {
                    position_or_first(old(self).log_level as int, level_count as int)
                }) as usize,
                ..*old(self)
            }),
    {
        self.dropdown_open = !self.dropdown_open;
        self.dropdown_index = if self.field_index == 0 {
            if self.ai_agent < agent_count { self.ai_agent } else { 0 }
        } else {
            if self.log_level < level_count { self.log_level } else { 0 }
        };
    }

    /// Moves the dropdown's cursor up, stopping at the first option.
    pub fn dropdown_prev(&mut self)
        ensures
            *final(self) == (GlobalSetupState {
                dropdown_index: (if old(self).dropdown_index > 0 { old(self).dropdown_index - 1 } else { 0 }) as usize,
                ..*old(self)
            }),
    {
        if self.dropdown_index > 0 {
            self.dropdown_index = self.dropdown_index - 1;
        }
    }

    /// Moves the dropdown's cursor down, stopping at the last of the field's
    /// options.
    pub fn dropdown_next(&mut self, agent_count: usize, level_count: usize)
        ensures
            *final(self) == (GlobalSetupState {
                dropdown_index: ({
                    let max = if old(self).field_index == 0 { agent_count as int } else { level_count as int };
                    if old(self).dropdown_index + 1 < max { old(self).dropdown_index + 1 } else { old(self).dropdown_index as int }
                }) as usize,
                ..*old(self)
            }),
    {
        let max = if self.field_index == 0 { agent_count } else { level_count };
        if self.dropdown_index < max.saturating_sub(1) {
            self.dropdown_index = self.dropdown_index + 1;
        }
    }

    /// Takes the option under the dropdown's cursor for the selected field,
    /// where it is one of the field's options, and closes the dropdown.
    pub fn confirm_dropdown(&mut self, agent_count: usize, level_count: usize)
        ensures
            final(self).dropdown_open == false,
            final(self).ai_agent == (if old(self).field_index == 0 && old(self).dropdown_index < agent_count {
                old(self).dropdown_index
            } else {
                old(self).ai_agent
            }),
            final(self).log_level == (if old(self).field_index != 0 && old(self).dropdown_index < level_count {
                old(self).dropdown_index
            } else {
                old(self).log_level
            }),
            final(self).step == old(self).step,
            final(self).worktree_location == old(self).worktree_location,
            final(self).field_index == old(self).field_index,
            final(self).dropdown_index == old(self).dropdown_index,
    {
        if self.field_index == 0 {
            if self.dropdown_index < agent_count {
                self.ai_agent = self.dropdown_index;
            }
        } else {
            if self.dropdown_index < level_count {
                self.log_level = self.dropdown_index;
            }
        }
        self.dropdown_open = false;
    }
}

/// What a confirmed row of the project setup wizard asks of its caller.
#[derive(Debug, Clone, Copy, PartialEq, Eq, Structural)]
pub enum ProjectSetupEffect {
    Nothing,
    StartGitSetup,
    StartPmSetup,
    OpenFileBrowser,
    SaveAndClose,
    Close,
}

/// The last row of the project setup wizard.
pub const PROJECT_SETUP_LAST_ROW: usize = 7;

/// The project setup wizard. `git_provider` and `pm_provider` are positions
/// in the lists of git and project management providers.
#[derive(Debug, Clone, Copy, PartialEq, Eq, Structural)]
pub struct ProjectSetupState {
    pub selected_index: usize,
    pub git_provider: usize,
    pub pm_provider: usize,
    pub git_provider_dropdown_open: bool,
    pub git_provider_dropdown_index: usize,
    pub pm_provider_dropdown_open: bool,
    pub pm_provider_dropdown_index: usize,
    pub file_browser_active: bool,
}

/// The effect of confirming row `row`: the provider rows open their
/// dropdowns in place, the setup rows start a setup dialog, then the file
/// browser for symlinks, saving, and closing.
pub open spec fn project_row_effect(row: int) -> ProjectSetupEffect {
    if row == 1 {
        ProjectSetupEffect::StartGitSetup
    } else if row == 3 {
        ProjectSetupEffect::StartPmSetup
    } else if row == 5 {
        ProjectSetupEffect::OpenFileBrowser
    } else if row == 6 {
        ProjectSetupEffect::SaveAndClose
    } else if row == 7 {
        ProjectSetupEffect::Close
    } else {
        ProjectSetupEffect::Nothing
    }
}

impl ProjectSetupState {
    /// What the key handler reads of the wizard.
    pub fn key_view(&self) -> (w: ProjectSetupWizard)
        ensures
            w.file_browser_active == self.file_browser_active,
            w.git_provider_dropdown_open == self.git_provider_dropdown_open,
            w.pm_provider_dropdown_open == self.pm_provider_dropdown_open,
    {
        ProjectSetupWizard {
            file_browser_active: self.file_browser_active,
            git_provider_dropdown_open: self.git_provider_dropdown_open,
            pm_provider_dropdown_open: self.pm_provider_dropdown_open,
        }
    }

    /// Moves down one row, stopping at the last.
    pub fn navigate_next(&mut self)
        ensures
            *final(self) == (ProjectSetupState {
                selected_index: (if old(self).selected_index < PROJECT_SETUP_LAST_ROW {
                    old(self).selected_index + 1
                } else {
                    old(self).selected_index as int
                }) as usize,
                ..*old(self)
            }),
    {
        if self.selected_index < PROJECT_SETUP_LAST_ROW {
            self.selected_index = self.selected_index + 1;
        }
    }

    /// Moves up one row, stopping at the first.
    pub fn navigate_prev(&mut self)
        ensures
            *final(self) == (ProjectSetupState {
                selected_index: (if old(self).selected_index > 0 { old(self).selected_index - 1 } else { 0 }) as usize,
                ..*old(self)
            }),
    {
        if self.selected_index > 0 {
            self.selected_index = self.selected_index - 1;
        }
    }

    /// Confirms the selected row. The git provider row (0) and the project
    /// management provider row (2) open their dropdowns with the cursor on
    /// the current provider (among `git_count` and `pm_count` providers);
    /// every other row asks its effect of the caller.
    pub fn select(&mut self, git_count: usize, pm_count: usize) -> (effect: ProjectSetupEffect)
        ensures
            effect == project_row_effect(old(self).selected_index as int),
            *final(self) == (if old(self).selected_index == 0 {
                ProjectSetupState {
                    git_provider_dropdown_open: true,
                    git_provider_dropdown_index: position_or_first(old(self).git_provider as int, git_count as int) as usize,
                    ..*old(self)
                }
            } else if old(self).selected_index == 2 {
                ProjectSetupState {
                    pm_provider_dropdown_open: true,
                    pm_provider_dropdown_index: position_or_first(old(self).pm_provider as int, pm_count as int) as usize,
                    ..*old(self)
                }
            } else {
                *old(self)
            }),
    {
        match self.selected_index {
            0 => {
                self.git_provider_dropdown_open = true;
                self.git_provider_dropdown_index = if self.git_provider < git_count { self.git_provider } else { 0 };
                ProjectSetupEffect::Nothing
            },
            1 => ProjectSetupEffect::StartGitSetup,
            2 => {
                self.pm_provider_dropdown_open = true;
                self.pm_provider_dropdown_index = if self.pm_provider < pm_count { self.pm_provider } else { 0 };
                ProjectSetupEffect::Nothing
            },
            3 => ProjectSetupEffect::StartPmSetup,
            5 => ProjectSetupEffect::OpenFileBrowser,
            6 => ProjectSetupEffect::SaveAndClose,
            7 => ProjectSetupEffect::Close,
            _ => ProjectSetupEffect::Nothing,
        }
    }

    /// Closes both provider dropdowns.
    pub fn close_dropdowns(&mut self)
        ensures
            *final(self) == (ProjectSetupState {
                git_provider_dropdown_open: false,
                pm_provider_dropdown_open: false,
                ..*old(self)
            }),
    {
        self.git_provider_dropdown_open = false;
        self.pm_provider_dropdown_open = false;
    }

    /// Moves the git provider dropdown's cursor up, stopping at the first.
    pub fn git_dropdown_prev(&mut self)
        ensures
            *final(self) == (ProjectSetupState {
                git_provider_dropdown_index: (if old(self).git_provider_dropdown_index > 0 {
                    old(self).git_provider_dropdown_index - 1
                } else {
                    0
                }) as usize,
                ..*old(self)
            }),
    {
        if self.git_provider_dropdown_index > 0 {
            self.git_provider_dropdown_index = self.git_provider_dropdown_index - 1;
        }
    }

    /// Moves the git provider dropdown's cursor down, stopping at the last
    /// of `git_count` providers.
    pub fn git_dropdown_next(&mut self, git_count: usize)
        ensures
            *final(self) == (ProjectSetupState {
                git_provider_dropdown_index: (if old(self).git_provider_dropdown_index + 1 < git_count {
                    old(self).git_provider_dropdown_index + 1
                } else {
                    old(self).git_provider_dropdown_index as int
                }) as usize,
                ..*old(self)
            }),
    {
        if self.git_provider_dropdown_index < git_count.saturating_sub(1) {
            self.git_provider_dropdown_index = self.git_provider_dropdown_index + 1;
        }
    }

    /// Takes the git provider under the cursor, where it is one of the
    /// `git_count` providers, and closes the dropdown. Returns the provider
    /// taken, which the caller also writes into the project's settings.
    pub fn confirm_git_dropdown(&mut self, git_count: usize) -> (chosen: Option<usize>)
        ensures
            chosen == (if old(self).git_provider_dropdown_index < git_count {
                Some(old(self).git_provider_dropdown_index)
            } else {
                None::<usize>
            }),
            *final(self) == (ProjectSetupState {
                git_provider: match chosen {
                    Some(p) => p,
                    None => old(self).git_provider,
                },
                git_provider_dropdown_open: false,
                ..*old(self)
            }),
    {
        let chosen = if self.git_provider_dropdown_index < git_count {
            self.git_provider = self.git_provider_dropdown_index;
            Some(self.git_provider_dropdown_index)
        } else {
            None
        };
        self.git_provider_dropdown_open = false;
        chosen
    }

    /// Moves the project management provider dropdown's cursor up, stopping
    /// at the first.
    pub fn pm_dropdown_prev(&mut self)
        ensures
            *final(self) == (ProjectSetupState {
                pm_provider_dropdown_index: (if old(self).pm_provider_dropdown_index > 0 {
                    old(self).pm_provider_dropdown_index - 1
                } else {
                    0
                }) as usize,
                ..*old(self)
            }),
    {
        if self.pm_provider_dropdown_index > 0 {
            self.pm_provider_dropdown_index = self.pm_provider_dropdown_index - 1;
        }
    }

    /// Moves the project management provider dropdown's cursor down,
    /// stopping at the last of `pm_count` providers.
    pub fn pm_dropdown_next(&mut self, pm_count: usize)
        ensures
            *final(self) == (ProjectSetupState {
                pm_provider_dropdown_index: (if old(self).pm_provider_dropdown_index + 1 < pm_count {
                    old(self).pm_provider_dropdown_index + 1
                } else {
                    old(self).pm_provider_dropdown_index as int
                }) as usize,
                ..*old(self)
            }),
    {
        if self.pm_provider_dropdown_index < pm_count.saturating_sub(1) {
            self.pm_provider_dropdown_index = self.pm_provider_dropdown_index + 1;
        }
    }

    /// Takes the project management provider under the cursor, where it is
    /// one of the `pm_count` providers, and closes the dropdown. Returns the
    /// provider taken, which the caller also writes into the project's
    /// settings.
    pub fn confirm_pm_dropdown(&mut self, pm_count: usize) -> (chosen: Option<usize>)
        ensures
            chosen == (if old(self).pm_provider_dropdown_index < pm_count {
                Some(old(self).pm_provider_dropdown_index)
            } else {
                None::<usize>
            }),
            *final(self) == (ProjectSetupState {
                pm_provider: match chosen {
                    Some(p) => p,
                    None => old(self).pm_provider,
                },
                pm_provider_dropdown_open: false,
                ..*old(self)
            }),
    {
        let chosen = if self.pm_provider_dropdown_index < pm_count {
            self.pm_provider = self.pm_provider_dropdown_index;
            Some(self.pm_provider_dropdown_index)
        } else {
            None
        };
        self.pm_provider_dropdown_open = false;
        chosen
    }
}

/// What follows the global setup wizard once it is complete.
#[derive(Debug, Clone, Copy, PartialEq, Eq, Structural)]
pub enum AfterGlobalSetup {
    ProjectSetup,
    Tutorial,
    MainScreen,
}

/// After the global setup: the project setup where the project has no
/// configuration yet, else the tutorial where it was not completed, else the
/// main screen.
pub fn after_global_setup(project_needs_setup: bool, tutorial_completed: bool) -> (next: AfterGlobalSetup)
    ensures
        next == (if project_needs_setup {
            AfterGlobalSetup::ProjectSetup
        } else if !tutorial_completed {
            AfterGlobalSetup::Tutorial
        } else {
            AfterGlobalSetup::MainScreen
        }),
{
    if project_needs_setup {
        AfterGlobalSetup::ProjectSetup
    } else if !tutorial_completed {
        AfterGlobalSetup::Tutorial
    } else {
        AfterGlobalSetup::MainScreen
    }
}

/// Among `count` options, choosing the next and then the previous one (or
/// the previous and then the next) returns to the option chosen.
pub proof fn lemma_location_cycle(choice: int, count: int)
    requires
        0 <= choice < count,
    ensures
        ({
            let next = (choice + 1) % count;
            (if next == 0 { count - 1 } else { next - 1 }) == choice
        }),
        ({
            let prev = if choice == 0 { count - 1 } else { choice - 1 };
            (prev + 1) % count == choice
        }),
{
    if choice + 1 < count {
        vstd::arithmetic::div_mod::lemma_small_mod((choice + 1) as nat, count as nat);
    } else {
        vstd::arithmetic::div_mod::lemma_mod_self_0(count);
    }
    if choice > 0 {
        vstd::arithmetic::div_mod::lemma_small_mod(choice as nat, count as nat);
    } else {
        vstd::arithmetic::div_mod::lemma_mod_self_0(count);
    }
}

} // verus!
