//! Key handling in the project-management and git-provider setup dialogs.
use vstd::prelude::*;
use crate::action::{Action, ActionView};
use crate::keys::{KeyCode, KeyInput};

verus! {

/// The project-management providers Grove can link tasks from.
#[derive(Debug, Clone, Copy, PartialEq, Eq, Structural)]
pub enum ProjectMgmtProvider {
    Asana,
    Notion,
    Clickup,
    Airtable,
    Linear,
    Beads,
}

/// The steps of the project-management setup dialog.
#[derive(Debug, Clone, Copy, PartialEq, Eq, Structural)]
pub enum PmSetupStep {
    Token,
    Workspace,
    Project,
    Advanced,
}

/// What the project-management setup key handler reads of the dialog.
#[derive(Debug, Clone, Copy, PartialEq, Eq, Structural)]
pub struct PmSetupState {
    pub dropdown_open: bool,
    pub step: PmSetupStep,
    pub field_index: usize,
    pub advanced_expanded: bool,
    pub has_teams: bool,
}

/// The git hosting providers Grove works with.
#[derive(Debug, Clone, Copy, PartialEq, Eq, Structural)]
pub enum GitProvider {
    GitLab,
    GitHub,
    Codeberg,
}

/// The steps of the git setup dialog.
#[derive(Debug, Clone, Copy, PartialEq, Eq, Structural)]
pub enum GitSetupStep {
    Token,
    Repository,
    Advanced,
}

/// What the git setup key handler reads of the dialog.
#[derive(Debug, Clone, Copy, PartialEq, Eq, Structural)]
pub struct GitSetupState {
    pub loading: bool,
    pub editing_text: bool,
    pub step: GitSetupStep,
    pub advanced_expanded: bool,
    pub dropdown_open: bool,
    pub field_index: usize,
    pub project_id_empty: bool,
    pub owner_empty: bool,
    pub repo_empty: bool,
}

/// What a key press in a dialog asks for: an action, pasting the clipboard
/// into the git setup dialog (the caller reads the clipboard), or nothing.
#[derive(Debug, PartialEq, Eq)]
pub enum KeyResult {
    Act(Action),
    PasteIntoGitSetup,
    Ignore,
}

/// The view of a [`KeyResult`].
pub enum KeyResultView {
    Act(ActionView),
    PasteIntoGitSetup,
    Ignore,
}

impl View for KeyResult {
    type V = KeyResultView;

    open spec fn view(&self) -> KeyResultView {
        match self {
            KeyResult::Act(a) => KeyResultView::Act(a@),
            KeyResult::PasteIntoGitSetup => KeyResultView::PasteIntoGitSetup,
            KeyResult::Ignore => KeyResultView::Ignore,
        }
    }
}

/// The view of an optional action.
pub open spec fn opt_action(o: Option<Action>) -> Option<ActionView> {
    match o {
        Some(a) => Some(a@),
        None => None,
    }
}

/// Whether the key is `Up` or `k`.
pub open spec fn is_up(c: KeyCode) -> bool {
    c == KeyCode::Up || c == KeyCode::Char('k')
}

/// Whether the key is `Down` or `j`.
pub open spec fn is_down(c: KeyCode) -> bool {
    c == KeyCode::Down || c == KeyCode::Char('j')
}

/// The action for a key while a field of the project-management setup is
/// edited in the expanded advanced section.
pub open spec fn pm_field_edit_action(c: KeyCode, on_c: ActionView) -> Option<ActionView> {
    if c == KeyCode::Esc {
        Some(ActionView::PmSetupPrevStep)
    } else if c == KeyCode::Char('c') {
        Some(on_c)
    } else if is_up(c) {
        Some(ActionView::PmSetupNavigatePrev)
    } else if is_down(c) {
        Some(ActionView::PmSetupNavigateNext)
    } else if c == KeyCode::Backspace {
        Some(ActionView::PmSetupBackspace)
    } else if c matches KeyCode::Char(ch) {
        Some(ActionView::PmSetupInputChar(c->Char_0))
    } else if c == KeyCode::Left {
        Some(ActionView::PmSetupToggleAdvanced)
    } else {
        None
    }
}

/// The action for a key in the project-management setup dialog.
pub open spec fn pm_setup_action(key: KeyInput, st: PmSetupState, provider: ProjectMgmtProvider) -> Option<ActionView> {
    let c = key.code;
    let is_linear = provider == ProjectMgmtProvider::Linear;
    if st.dropdown_open {
        if c == KeyCode::Esc {
            Some(ActionView::PmSetupToggleDropdown)
        } else if c == KeyCode::Enter {
            Some(ActionView::PmSetupConfirmDropdown)
        } else if is_up(c) {
            Some(ActionView::PmSetupDropdownPrev)
        } else if is_down(c) {
            Some(ActionView::PmSetupDropdownNext)
        } else {
            None
        }
    } else {
        match st.step {
            PmSetupStep::Token => if c == KeyCode::Esc {
                Some(ActionView::ClosePmSetup)
            } else if c == KeyCode::Enter {
                Some(ActionView::PmSetupNextStep)
            } else {
                None
            },
            PmSetupStep::Workspace => {
                let on_c = if is_linear { ActionView::PmSetupComplete } else { ActionView::PmSetupNextStep };
                if st.field_index > 0 && st.advanced_expanded {
                    pm_field_edit_action(c, on_c)
                } else if c == KeyCode::Esc {
                    Some(ActionView::PmSetupPrevStep)
                } else if c == KeyCode::Enter {
                    if st.field_index == 0 && st.has_teams {
                        Some(ActionView::PmSetupToggleDropdown)
                    } else if is_linear {
                        Some(ActionView::PmSetupComplete)
                    } else {
                        None
                    }
                } else if c == KeyCode::Char('c') {
                    Some(on_c)
                } else if is_up(c) {
                    Some(ActionView::PmSetupNavigatePrev)
                } else if is_down(c) {
                    Some(ActionView::PmSetupNavigateNext)
                } else if c == KeyCode::Right || c == KeyCode::Left {
                    Some(ActionView::PmSetupToggleAdvanced)
                } else {
                    None
                }
            },
            PmSetupStep::Project => {
                if is_linear {
                    if c == KeyCode::Esc {
                        Some(ActionView::PmSetupPrevStep)
                    } else if c == KeyCode::Char('c') {
                        Some(ActionView::PmSetupComplete)
                    } else {
                        None
                    }
                } else if st.field_index > 0 && st.advanced_expanded {
                    pm_field_edit_action(c, ActionView::PmSetupComplete)
                } else if c == KeyCode::Esc {
                    Some(ActionView::PmSetupPrevStep)
                } else if c == KeyCode::Enter {
                    if st.field_index == 0 && st.has_teams {
                        Some(ActionView::PmSetupToggleDropdown)
                    } else {
                        None
                    }
                } else if c == KeyCode::Char('c') {
                    Some(ActionView::PmSetupComplete)
                } else if is_up(c) {
                    Some(ActionView::PmSetupNavigatePrev)
                } else if is_down(c) {
                    Some(ActionView::PmSetupNavigateNext)
                } else if c == KeyCode::Right || c == KeyCode::Left {
                    Some(ActionView::PmSetupToggleAdvanced)
                } else {
                    None
                }
            },
            PmSetupStep::Advanced => if c == KeyCode::Esc {
                Some(ActionView::PmSetupPrevStep)
            } else if c == KeyCode::Char('c') {
                Some(ActionView::PmSetupComplete)
            } else {
                None
            },
        }
    }
}

fn pm_field_edit(c: KeyCode, complete_on_c: bool) -> (r: Option<Action>)
    ensures
        opt_action(r) == pm_field_edit_action(
            c,
            if complete_on_c { ActionView::PmSetupComplete } else { ActionView::PmSetupNextStep },
        ),
{
    match c {
        KeyCode::Esc => Some(Action::PmSetupPrevStep),
        KeyCode::Char('c') => if complete_on_c {
            Some(Action::PmSetupComplete)
        } else {
            Some(Action::PmSetupNextStep)
        },
        KeyCode::Up | KeyCode::Char('k') => Some(Action::PmSetupNavigatePrev),
        KeyCode::Down | KeyCode::Char('j') => Some(Action::PmSetupNavigateNext),
        KeyCode::Backspace => Some(Action::PmSetupBackspace),
        KeyCode::Char(ch) => Some(Action::PmSetupInputChar(ch)),
        KeyCode::Left => Some(Action::PmSetupToggleAdvanced),
        _ => None,
    }
}

/// The action for a key in the project-management setup dialog.
pub fn handle_pm_setup_key(key: KeyInput, pm_setup: &PmSetupState, provider: ProjectMgmtProvider) -> (r: Option<Action>)
    ensures
        opt_action(r) == pm_setup_action(key, *pm_setup, provider),
{
    let is_linear = provider == ProjectMgmtProvider::Linear;
    if pm_setup.dropdown_open {
        return match key.code {
            KeyCode::Esc => Some(Action::PmSetupToggleDropdown),
            KeyCode::Enter => Some(Action::PmSetupConfirmDropdown),
            KeyCode::Up | KeyCode::Char('k') => Some(Action::PmSetupDropdownPrev),
            KeyCode::Down | KeyCode::Char('j') => Some(Action::PmSetupDropdownNext),
            _ => None,
        };
    }
    match pm_setup.step {
        PmSetupStep::Token => match key.code {
            KeyCode::Esc => Some(Action::ClosePmSetup),
            KeyCode::Enter => Some(Action::PmSetupNextStep),
            _ => None,
        },
        PmSetupStep::Workspace => {
            if pm_setup.field_index > 0 && pm_setup.advanced_expanded {
                pm_field_edit(key.code, is_linear)
            } else {
                match key.code {
                    KeyCode::Esc => Some(Action::PmSetupPrevStep),
                    KeyCode::Enter => {
                        if pm_setup.field_index == 0 && pm_setup.has_teams {
                            Some(Action::PmSetupToggleDropdown)
                        } else if is_linear {
                            Some(Action::PmSetupComplete)
                        } else {
                            None
                        }
                    },
                    KeyCode::Char('c') => if is_linear {
                        Some(Action::PmSetupComplete)
                    } else {
                        Some(Action::PmSetupNextStep)
                    },
                    KeyCode::Up | KeyCode::Char('k') => Some(Action::PmSetupNavigatePrev),
                    KeyCode::Down | KeyCode::Char('j') => Some(Action::PmSetupNavigateNext),
                    KeyCode::Right => Some(Action::PmSetupToggleAdvanced),
                    KeyCode::Left => Some(Action::PmSetupToggleAdvanced),
                    _ => None,
                }
            }
        },
        PmSetupStep::Project => {
            if is_linear {
                match key.code {
                    KeyCode::Esc => Some(Action::PmSetupPrevStep),
                    KeyCode::Char('c') => Some(Action::PmSetupComplete),
                    _ => None,
                }
            } else if pm_setup.field_index > 0 && pm_setup.advanced_expanded {
                pm_field_edit(key.code, true)
            } else {
                match key.code {
                    KeyCode::Esc => Some(Action::PmSetupPrevStep),
                    KeyCode::Enter => {
                        if pm_setup.field_index == 0 && pm_setup.has_teams {
                            Some(Action::PmSetupToggleDropdown)
                        } else {
                            None
                        }
                    },
                    KeyCode::Char('c') => Some(Action::PmSetupComplete),
                    KeyCode::Up | KeyCode::Char('k') => Some(Action::PmSetupNavigatePrev),
                    KeyCode::Down | KeyCode::Char('j') => Some(Action::PmSetupNavigateNext),
                    KeyCode::Right => Some(Action::PmSetupToggleAdvanced),
                    KeyCode::Left => Some(Action::PmSetupToggleAdvanced),
                    _ => None,
                }
            }
        },
        PmSetupStep::Advanced => match key.code {
            KeyCode::Esc => Some(Action::PmSetupPrevStep),
            KeyCode::Char('c') => Some(Action::PmSetupComplete),
            _ => None,
        },
    }
}

} // verus!

verus! {

/// The last field of the repository step: GitLab has owner, repository,
/// project id and (when expanded) base URL; GitHub owner, repository and
/// (when expanded) base URL; Codeberg owner, repository, CI provider and base URL.
pub open spec fn git_max_field(provider: GitProvider, advanced_expanded: bool) -> int {
    match provider {
        GitProvider::GitLab => if advanced_expanded { 3 } else { 2 },
        GitProvider::GitHub => if advanced_expanded { 2 } else { 1 },
        GitProvider::Codeberg => 3,
    }
}

/// The result for a key in the git setup dialog.
pub open spec fn git_setup_result(key: KeyInput, st: GitSetupState, provider: GitProvider, gitlab_token_present: bool) -> KeyResultView {
    let c = key.code;
    if st.loading {
        KeyResultView::Ignore
    } else if st.editing_text {
        if c == KeyCode::Esc {
            KeyResultView::Act(ActionView::GitSetupCancelEdit)
        } else if c == KeyCode::Enter {
            KeyResultView::Act(ActionView::GitSetupConfirmEdit)
        } else if c == KeyCode::Backspace {
            KeyResultView::Act(ActionView::GitSetupBackspace)
        } else if c == KeyCode::Char('v') && key.ctrl {
            KeyResultView::PasteIntoGitSetup
        } else if c matches KeyCode::Char(ch) {
            KeyResultView::Act(ActionView::GitSetupInputChar(c->Char_0))
        } else {
            KeyResultView::Ignore
        }
    } else {
        match st.step {
            GitSetupStep::Token => if c == KeyCode::Esc {
                KeyResultView::Act(ActionView::CloseGitSetup)
            } else if c == KeyCode::Enter {
                KeyResultView::Act(ActionView::GitSetupNextStep)
            } else {
                KeyResultView::Ignore
            },
            GitSetupStep::Repository => {
                let is_dropdown_field = provider == GitProvider::Codeberg && st.field_index == 2;
                if c == KeyCode::Esc {
                    KeyResultView::Act(
                        if st.dropdown_open { ActionView::GitSetupCloseDropdown } else { ActionView::GitSetupPrevStep },
                    )
                } else if c == KeyCode::Enter {
                    KeyResultView::Act(
                        if st.dropdown_open {
                            ActionView::GitSetupConfirmDropdown
                        } else if is_dropdown_field {
                            ActionView::GitSetupToggleDropdown
                        } else if st.field_index < git_max_field(provider, st.advanced_expanded) {
                            ActionView::GitSetupStartEdit
                        } else {
                            ActionView::GitSetupComplete
                        },
                    )
                } else if c == KeyCode::Char('a') && !st.advanced_expanded && !st.dropdown_open {
                    KeyResultView::Act(ActionView::GitSetupToggleAdvanced)
                } else if c == KeyCode::Char('f') && provider == GitProvider::GitLab && st.project_id_empty
                    && !st.owner_empty && !st.repo_empty && gitlab_token_present {
                    KeyResultView::Act(ActionView::GitSetupFetchProjectId)
                } else if is_up(c) {
                    KeyResultView::Act(
                        if st.dropdown_open { ActionView::GitSetupDropdownPrev } else { ActionView::GitSetupNavigatePrev },
                    )
                } else if is_down(c) {
                    KeyResultView::Act(
                        if st.dropdown_open { ActionView::GitSetupDropdownNext } else { ActionView::GitSetupNavigateNext },
                    )
                } else if c == KeyCode::Right || c == KeyCode::Char('l') {
                    if st.dropdown_open { KeyResultView::Ignore } else { KeyResultView::Act(ActionView::GitSetupComplete) }
                } else if c == KeyCode::Left || c == KeyCode::Char('h') {
                    if !st.dropdown_open && st.advanced_expanded {
                        KeyResultView::Act(ActionView::GitSetupToggleAdvanced)
                    } else {
                        KeyResultView::Ignore
                    }
                } else {
                    KeyResultView::Ignore
                }
            },
            GitSetupStep::Advanced => if c == KeyCode::Esc || c == KeyCode::Left || c == KeyCode::Char('h') {
                KeyResultView::Act(ActionView::GitSetupPrevStep)
            } else if c == KeyCode::Enter {
                KeyResultView::Act(ActionView::GitSetupComplete)
            } else {
                KeyResultView::Ignore
            },
        }
    }
}

/// The result for a key in the git setup dialog; `gitlab_token_present`
/// says whether a GitLab token is configured.
pub fn handle_git_setup_key(
    key: KeyInput,
    git_setup: &GitSetupState,
    provider: GitProvider,
    gitlab_token_present: bool,
) -> (r: KeyResult)
    ensures
        r@ == git_setup_result(key, *git_setup, provider, gitlab_token_present),
{
    if git_setup.loading {
        return KeyResult::Ignore;
    }
    if git_setup.editing_text {
        return match key.code {
            KeyCode::Esc => KeyResult::Act(Action::GitSetupCancelEdit),
            KeyCode::Enter => KeyResult::Act(Action::GitSetupConfirmEdit),
            KeyCode::Backspace => KeyResult::Act(Action::GitSetupBackspace),
            KeyCode::Char('v') if key.ctrl => KeyResult::PasteIntoGitSetup,
            KeyCode::Char(c) => KeyResult::Act(Action::GitSetupInputChar(c)),
            _ => KeyResult::Ignore,
        };
    }
    match git_setup.step {
        GitSetupStep::Token => match key.code {
            KeyCode::Esc => KeyResult::Act(Action::CloseGitSetup),
            KeyCode::Enter => KeyResult::Act(Action::GitSetupNextStep),
            _ => KeyResult::Ignore,
        },
        GitSetupStep::Repository => {
            let max_field: usize = if git_setup.advanced_expanded {
                match provider {
                    GitProvider::GitLab => 3,
                    GitProvider::GitHub => 2,
                    GitProvider::Codeberg => 3,
                }
            } else {
                match provider {
                    GitProvider::GitLab => 2,
                    GitProvider::GitHub => 1,
                    GitProvider::Codeberg => 3,
                }
            };
            let is_dropdown_field = provider == GitProvider::Codeberg && git_setup.field_index == 2
                && !git_setup.editing_text;
            match key.code {
                KeyCode::Esc => {
                    if git_setup.dropdown_open {
                        KeyResult::Act(Action::GitSetupCloseDropdown)
                    } else {
                        KeyResult::Act(Action::GitSetupPrevStep)
                    }
                },
                KeyCode::Enter => {
                    if git_setup.dropdown_open {
                        KeyResult::Act(Action::GitSetupConfirmDropdown)
                    } else if is_dropdown_field {
                        KeyResult::Act(Action::GitSetupToggleDropdown)
                    } else if git_setup.field_index < max_field {
                        KeyResult::Act(Action::GitSetupStartEdit)
                    } else {
                        KeyResult::Act(Action::GitSetupComplete)
                    }
                },
                KeyCode::Char('a') if !git_setup.advanced_expanded && !git_setup.dropdown_open => {
                    KeyResult::Act(Action::GitSetupToggleAdvanced)
                },
                KeyCode::Char('f') if provider == GitProvider::GitLab && git_setup.project_id_empty
                    && !git_setup.owner_empty && !git_setup.repo_empty && gitlab_token_present => {
                    KeyResult::Act(Action::GitSetupFetchProjectId)
                },
                KeyCode::Up | KeyCode::Char('k') => {
                    if git_setup.dropdown_open {
                        KeyResult::Act(Action::GitSetupDropdownPrev)
                    } else {
                        KeyResult::Act(Action::GitSetupNavigatePrev)
                    }
                },
                KeyCode::Down | KeyCode::Char('j') => {
                    if git_setup.dropdown_open {
                        KeyResult::Act(Action::GitSetupDropdownNext)
                    } else {
                        KeyResult::Act(Action::GitSetupNavigateNext)
                    }
                },
                KeyCode::Right | KeyCode::Char('l') => {
                    if git_setup.dropdown_open {
                        KeyResult::Ignore
                    } else {
                        KeyResult::Act(Action::GitSetupComplete)
                    }
                },
                KeyCode::Left | KeyCode::Char('h') => {
                    if git_setup.dropdown_open {
                        KeyResult::Ignore
                    } else if git_setup.advanced_expanded {
                        KeyResult::Act(Action::GitSetupToggleAdvanced)
                    } else {
                        KeyResult::Ignore
                    }
                },
                _ => KeyResult::Ignore,
            }
        },
        GitSetupStep::Advanced => match key.code {
            KeyCode::Esc => KeyResult::Act(Action::GitSetupPrevStep),
            KeyCode::Enter => KeyResult::Act(Action::GitSetupComplete),
            KeyCode::Left | KeyCode::Char('h') => KeyResult::Act(Action::GitSetupPrevStep),
            _ => KeyResult::Ignore,
        },
    }
}

} // verus!
