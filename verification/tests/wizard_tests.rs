use grove::key_events::GlobalSetupStep;
use grove::setup_wizards::{
    after_global_setup, AfterGlobalSetup, GlobalSetupState, ProjectSetupEffect, ProjectSetupState,
};

fn global() -> GlobalSetupState {
    GlobalSetupState {
        step: GlobalSetupStep::WorktreeLocation,
        worktree_location: 0,
        field_index: 0,
        dropdown_open: false,
        dropdown_index: 0,
        ai_agent: 1,
        log_level: 2,
    }
}

#[test]
fn global_wizard_chooses_locations_and_options() {
    let mut w = global();
    w.select_prev_location(3);
    assert_eq!(w.worktree_location, 2);
    w.select_next_location(3);
    assert_eq!(w.worktree_location, 0);
    w.worktree_location = 9;
    w.select_next_location(3);
    assert_eq!(w.worktree_location, 1);
    w.next_step();
    assert_eq!(w.step, GlobalSetupStep::AgentSettings);
    assert_eq!(w.key_view().step, GlobalSetupStep::AgentSettings);
    w.toggle_dropdown(4, 5);
    assert!(w.dropdown_open);
    assert_eq!(w.dropdown_index, 1);
    w.dropdown_next(4, 5);
    w.dropdown_next(4, 5);
    w.dropdown_next(4, 5);
    assert_eq!(w.dropdown_index, 3);
    w.confirm_dropdown(4, 5);
    assert_eq!(w.ai_agent, 3);
    assert!(!w.dropdown_open);
    w.navigate_down();
    w.navigate_down();
    assert_eq!(w.field_index, 1);
    w.toggle_dropdown(4, 5);
    assert_eq!(w.dropdown_index, 2);
    w.dropdown_prev();
    w.dropdown_prev();
    w.dropdown_prev();
    assert_eq!(w.dropdown_index, 0);
    w.confirm_dropdown(4, 5);
    assert_eq!((w.ai_agent, w.log_level), (3, 0));
    w.navigate_up();
    w.navigate_up();
    assert_eq!(w.field_index, 0);
    w.prev_step();
    assert_eq!(w.step, GlobalSetupStep::WorktreeLocation);
}

#[test]
fn after_global_setup_goes_where_needed() {
    assert_eq!(after_global_setup(true, false), AfterGlobalSetup::ProjectSetup);
    assert_eq!(after_global_setup(true, true), AfterGlobalSetup::ProjectSetup);
    assert_eq!(after_global_setup(false, false), AfterGlobalSetup::Tutorial);
    assert_eq!(after_global_setup(false, true), AfterGlobalSetup::MainScreen);
}

#[test]
fn project_wizard_rows_and_dropdowns() {
    let mut w = ProjectSetupState {
        selected_index: 0,
        git_provider: 2,
        pm_provider: 7,
        git_provider_dropdown_open: false,
        git_provider_dropdown_index: 0,
        pm_provider_dropdown_open: false,
        pm_provider_dropdown_index: 0,
        file_browser_active: false,
    };
    assert_eq!(w.select(3, 4), ProjectSetupEffect::Nothing);
    assert!(w.git_provider_dropdown_open);
    assert_eq!(w.git_provider_dropdown_index, 2);
    w.git_dropdown_next(3);
    assert_eq!(w.git_provider_dropdown_index, 2);
    w.git_dropdown_prev();
    assert_eq!(w.confirm_git_dropdown(3), Some(1));
    assert_eq!(w.git_provider, 1);
    assert!(!w.git_provider_dropdown_open);
    w.navigate_next();
    assert_eq!(w.select(3, 4), ProjectSetupEffect::StartGitSetup);
    w.navigate_next();
    assert_eq!(w.select(3, 4), ProjectSetupEffect::Nothing);
    assert!(w.pm_provider_dropdown_open);
    assert_eq!(w.pm_provider_dropdown_index, 0);
    w.pm_dropdown_next(4);
    assert_eq!(w.confirm_pm_dropdown(4), Some(1));
    w.pm_provider_dropdown_index = 9;
    assert_eq!(w.confirm_pm_dropdown(4), None);
    assert_eq!(w.pm_provider, 1);
    let effects: Vec<ProjectSetupEffect> = (3..=7)
        .map(|row| {
            w.selected_index = row;
            w.select(3, 4)
        })
        .collect();
    assert_eq!(
        effects,
        vec![
            ProjectSetupEffect::StartPmSetup,
            ProjectSetupEffect::Nothing,
            ProjectSetupEffect::OpenFileBrowser,
            ProjectSetupEffect::SaveAndClose,
            ProjectSetupEffect::Close,
        ]
    );
    for _ in 0..10 {
        w.navigate_next();
    }
    assert_eq!(w.selected_index, 7);
    w.git_provider_dropdown_open = true;
    w.close_dropdowns();
    assert!(!w.key_view().git_provider_dropdown_open && !w.key_view().pm_provider_dropdown_open);
}
