//! The actions that the front end processes, as far as the pi layer and the
//! key handlers produce or read them.
use vstd::prelude::*;
use crate::ids::AgentId;
use crate::agent::{opt_text, texts, AgentStatus, AgentStatusView, GitSyncStatus};

verus! {

/// The modes in which key presses go to an input prompt or a picker.
#[derive(Debug, Clone, Copy, PartialEq, Eq, Structural)]
pub enum InputMode {
    NewAgent,
    SetNote,
    AssignAsana,
    AssignProjectTask,
    BrowseTasks,
    SelectTaskStatus,
    ConfirmDelete,
    ConfirmDeleteAsana,
    ConfirmDeleteTask,
    ConfirmMerge,
    ConfirmPush,
}

/// What a settings reset covers.
#[derive(Debug, Clone, Copy, PartialEq, Eq, Structural)]
pub enum ResetType {
    CurrentTab,
    AllSettings,
}

/// An action for the front end's action loop.
#[derive(Debug, PartialEq, Eq)]
pub enum Action {
    CreateAgent { name: String, branch: String, task: Option<String> },
    AttachToAgent { id: AgentId },
    DetachFromAgent,
    UpdateAgentStatus { id: AgentId, status: AgentStatus, status_reason: Option<String> },
    UpdateAgentOutput { id: AgentId, output: String },
    FetchRemote { id: AgentId },
    MergeMain { id: AgentId },
    PushBranch { id: AgentId },
    UpdateGitStatus { id: AgentId, status: GitSyncStatus },
    OpenInEditor { id: AgentId },
    CopyWorktreePath { id: AgentId },
    AttachToDevServer { agent_id: AgentId },
    PiStartSession { id: AgentId, branch: String },
    PiStopSession { id: AgentId },
    PiSendMessage { id: AgentId, message: String },
    PiReceiveOutput { id: AgentId, output: String },
    DeleteAgentAndCompleteTask { id: AgentId },
    DeleteAgentAndCompleteAsana { id: AgentId },
    DeleteAgent { id: AgentId },
    ToggleTaskStatusFilter { status_name: String },
    UpdateInput(String),
    EnterInputMode(InputMode),
    ResumeAgent { id: AgentId },
    CopyAgentName { id: AgentId },
    RequestSummary { id: AgentId },
    OpenMrInBrowser { id: AgentId },
    OpenPrInBrowser { id: AgentId },
    OpenCodebergPrInBrowser { id: AgentId },
    OpenProjectTaskInBrowser { id: AgentId },
    OpenTaskStatusDropdown { id: AgentId },
    SetAgentNote { id: AgentId, note: Option<String> },
    AssignAsanaTask { id: AgentId, url_or_gid: String },
    AssignProjectTask { id: AgentId, url_or_id: String },
    ShowError(String),
    PmSetupInputChar(char),
    PmSetupPaste(String),
    GitSetupInputChar(char),
    GitSetupPaste(String),
    SettingsInputChar(char),
    SettingsCaptureKeybind { key: String, modifiers: Vec<String> },
    SettingsRequestReset { reset_type: ResetType },
    RefreshSelected,
    ToggleDiffView,
    ToggleStatusDebug,
    ExitInputMode,
    TaskListFilterNext,
    TaskListFilterPrev,
    ToggleTaskListFilter,
    SelectTaskNext,
    SelectTaskPrev,
    AssignSelectedTaskToAgent,
    ToggleSubtaskStatus,
    RefreshTaskList,
    CreateAgentFromSelectedTask,
    ToggleTaskExpand,
    TaskStatusDropdownNext,
    TaskStatusDropdownPrev,
    TaskStatusDropdownSelect,
    SubmitInput,
    AppearanceNextColumn,
    AppearancePrevColumn,
    ClearDevServerLogs,
    ClearError,
    CloseGitSetup,
    ClosePmSetup,
    ClosePmStatusDebug,
    ColumnSelectorClose,
    ColumnSelectorSelectNext,
    ColumnSelectorSelectPrev,
    ColumnSelectorToggle,
    ConfirmStartDevServer,
    ConfirmTaskReassignment,
    DismissDevServerWarning,
    DismissTaskReassignmentWarning,
    FileBrowserEnterDir,
    FileBrowserGoParent,
    FileBrowserSelectNext,
    FileBrowserSelectPrev,
    FileBrowserToggle,
    GitSetupBackspace,
    GitSetupCancelEdit,
    GitSetupCloseDropdown,
    GitSetupComplete,
    GitSetupConfirmDropdown,
    GitSetupConfirmEdit,
    GitSetupDropdownNext,
    GitSetupDropdownPrev,
    GitSetupFetchProjectId,
    GitSetupNavigateNext,
    GitSetupNavigatePrev,
    GitSetupNextStep,
    GitSetupPrevStep,
    GitSetupStartEdit,
    GitSetupToggleAdvanced,
    GitSetupToggleDropdown,
    GlobalSetupComplete,
    GlobalSetupConfirmDropdown,
    GlobalSetupDropdownNext,
    GlobalSetupDropdownPrev,
    GlobalSetupNavigateDown,
    GlobalSetupNavigateUp,
    GlobalSetupNextStep,
    GlobalSetupPrevStep,
    GlobalSetupSelectNext,
    GlobalSetupSelectPrev,
    GlobalSetupToggleDropdown,
    NextPreviewTab,
    OpenDevServerInBrowser,
    OpenGitSetup,
    OpenPmStatusDebug,
    PmSetupBackspace,
    PmSetupComplete,
    PmSetupConfirmDropdown,
    PmSetupDropdownNext,
    PmSetupDropdownPrev,
    PmSetupNavigateNext,
    PmSetupNavigatePrev,
    PmSetupNextStep,
    PmSetupPrevStep,
    PmSetupToggleAdvanced,
    PmSetupToggleDropdown,
    PmStatusDebugCopyPayload,
    PmStatusDebugFetchSelected,
    PmStatusDebugSelectNext,
    PmStatusDebugSelectPrev,
    PrevPreviewTab,
    ProjectSetupCloseFileBrowser,
    ProjectSetupComplete,
    ProjectSetupConfirmDropdown,
    ProjectSetupConfirmPmDropdown,
    ProjectSetupDropdownNext,
    ProjectSetupDropdownPrev,
    ProjectSetupNavigateNext,
    ProjectSetupNavigatePrev,
    ProjectSetupPmDropdownNext,
    ProjectSetupPmDropdownPrev,
    ProjectSetupSelect,
    ProjectSetupSkip,
    ProjectSetupToggleDropdown,
    Quit,
    RefreshAll,
    RequestStartDevServer,
    ResetTutorial,
    RestartDevServer,
    ScrollPreviewDown,
    ScrollPreviewUp,
    SelectFirst,
    SelectLast,
    SelectNext,
    SelectPrevious,
    SettingsBackspace,
    SettingsCancelKeybindCapture,
    SettingsCancelReset,
    SettingsCancelSelection,
    SettingsClose,
    SettingsCloseFileBrowser,
    SettingsConfirmReset,
    SettingsConfirmSelection,
    SettingsDropdownNext,
    SettingsDropdownPrev,
    SettingsPromptSave,
    SettingsSave,
    SettingsSelectField,
    SettingsSelectNext,
    SettingsSelectPrev,
    SettingsStartKeybindCapture,
    SettingsSwitchSection,
    SettingsSwitchSectionBack,
    ToggleColumnSelector,
    ToggleHelp,
    ToggleLogs,
    ToggleSettings,
    TutorialComplete,
    TutorialNextStep,
    TutorialPrevStep,
    TutorialSkip,
}

/// The view of an [`Action`]: texts become character sequences.
pub enum ActionView {
    CreateAgent { name: Seq<char>, branch: Seq<char>, task: Option<Seq<char>> },
    AttachToAgent { id: AgentId },
    DetachFromAgent,
    UpdateAgentStatus { id: AgentId, status: AgentStatusView, status_reason: Option<Seq<char>> },
    UpdateAgentOutput { id: AgentId, output: Seq<char> },
    FetchRemote { id: AgentId },
    MergeMain { id: AgentId },
    PushBranch { id: AgentId },
    UpdateGitStatus { id: AgentId, status: GitSyncStatus },
    OpenInEditor { id: AgentId },
    CopyWorktreePath { id: AgentId },
    AttachToDevServer { agent_id: AgentId },
    PiStartSession { id: AgentId, branch: Seq<char> },
    PiStopSession { id: AgentId },
    PiSendMessage { id: AgentId, message: Seq<char> },
    PiReceiveOutput { id: AgentId, output: Seq<char> },
    DeleteAgentAndCompleteTask { id: AgentId },
    DeleteAgentAndCompleteAsana { id: AgentId },
    DeleteAgent { id: AgentId },
    ToggleTaskStatusFilter { status_name: Seq<char> },
    UpdateInput(Seq<char>),
    EnterInputMode(InputMode),
    ResumeAgent { id: AgentId },
    CopyAgentName { id: AgentId },
    RequestSummary { id: AgentId },
    OpenMrInBrowser { id: AgentId },
    OpenPrInBrowser { id: AgentId },
    OpenCodebergPrInBrowser { id: AgentId },
    OpenProjectTaskInBrowser { id: AgentId },
    OpenTaskStatusDropdown { id: AgentId },
    SetAgentNote { id: AgentId, note: Option<Seq<char>> },
    AssignAsanaTask { id: AgentId, url_or_gid: Seq<char> },
    AssignProjectTask { id: AgentId, url_or_id: Seq<char> },
    ShowError(Seq<char>),
    PmSetupInputChar(char),
    PmSetupPaste(Seq<char>),
    GitSetupInputChar(char),
    GitSetupPaste(Seq<char>),
    SettingsInputChar(char),
    SettingsCaptureKeybind { key: Seq<char>, modifiers: Seq<Seq<char>> },
    SettingsRequestReset { reset_type: ResetType },
    RefreshSelected,
    ToggleDiffView,
    ToggleStatusDebug,
    ExitInputMode,
    TaskListFilterNext,
    TaskListFilterPrev,
    ToggleTaskListFilter,
    SelectTaskNext,
    SelectTaskPrev,
    AssignSelectedTaskToAgent,
    ToggleSubtaskStatus,
    RefreshTaskList,
    CreateAgentFromSelectedTask,
    ToggleTaskExpand,
    TaskStatusDropdownNext,
    TaskStatusDropdownPrev,
    TaskStatusDropdownSelect,
    SubmitInput,
    AppearanceNextColumn,
    AppearancePrevColumn,
    ClearDevServerLogs,
    ClearError,
    CloseGitSetup,
    ClosePmSetup,
    ClosePmStatusDebug,
    ColumnSelectorClose,
    ColumnSelectorSelectNext,
    ColumnSelectorSelectPrev,
    ColumnSelectorToggle,
    ConfirmStartDevServer,
    ConfirmTaskReassignment,
    DismissDevServerWarning,
    DismissTaskReassignmentWarning,
    FileBrowserEnterDir,
    FileBrowserGoParent,
    FileBrowserSelectNext,
    FileBrowserSelectPrev,
    FileBrowserToggle,
    GitSetupBackspace,
    GitSetupCancelEdit,
    GitSetupCloseDropdown,
    GitSetupComplete,
    GitSetupConfirmDropdown,
    GitSetupConfirmEdit,
    GitSetupDropdownNext,
    GitSetupDropdownPrev,
    GitSetupFetchProjectId,
    GitSetupNavigateNext,
    GitSetupNavigatePrev,
    GitSetupNextStep,
    GitSetupPrevStep,
    GitSetupStartEdit,
    GitSetupToggleAdvanced,
    GitSetupToggleDropdown,
    GlobalSetupComplete,
    GlobalSetupConfirmDropdown,
    GlobalSetupDropdownNext,
    GlobalSetupDropdownPrev,
    GlobalSetupNavigateDown,
    GlobalSetupNavigateUp,
    GlobalSetupNextStep,
    GlobalSetupPrevStep,
    GlobalSetupSelectNext,
    GlobalSetupSelectPrev,
    GlobalSetupToggleDropdown,
    NextPreviewTab,
    OpenDevServerInBrowser,
    OpenGitSetup,
    OpenPmStatusDebug,
    PmSetupBackspace,
    PmSetupComplete,
    PmSetupConfirmDropdown,
    PmSetupDropdownNext,
    PmSetupDropdownPrev,
    PmSetupNavigateNext,
    PmSetupNavigatePrev,
    PmSetupNextStep,
    PmSetupPrevStep,
    PmSetupToggleAdvanced,
    PmSetupToggleDropdown,
    PmStatusDebugCopyPayload,
    PmStatusDebugFetchSelected,
    PmStatusDebugSelectNext,
    PmStatusDebugSelectPrev,
    PrevPreviewTab,
    ProjectSetupCloseFileBrowser,
    ProjectSetupComplete,
    ProjectSetupConfirmDropdown,
    ProjectSetupConfirmPmDropdown,
    ProjectSetupDropdownNext,
    ProjectSetupDropdownPrev,
    ProjectSetupNavigateNext,
    ProjectSetupNavigatePrev,
    ProjectSetupPmDropdownNext,
    ProjectSetupPmDropdownPrev,
    ProjectSetupSelect,
    ProjectSetupSkip,
    ProjectSetupToggleDropdown,
    Quit,
    RefreshAll,
    RequestStartDevServer,
    ResetTutorial,
    RestartDevServer,
    ScrollPreviewDown,
    ScrollPreviewUp,
    SelectFirst,
    SelectLast,
    SelectNext,
    SelectPrevious,
    SettingsBackspace,
    SettingsCancelKeybindCapture,
    SettingsCancelReset,
    SettingsCancelSelection,
    SettingsClose,
    SettingsCloseFileBrowser,
    SettingsConfirmReset,
    SettingsConfirmSelection,
    SettingsDropdownNext,
    SettingsDropdownPrev,
    SettingsPromptSave,
    SettingsSave,
    SettingsSelectField,
    SettingsSelectNext,
    SettingsSelectPrev,
    SettingsStartKeybindCapture,
    SettingsSwitchSection,
    SettingsSwitchSectionBack,
    ToggleColumnSelector,
    ToggleHelp,
    ToggleLogs,
    ToggleSettings,
    TutorialComplete,
    TutorialNextStep,
    TutorialPrevStep,
    TutorialSkip,
}

impl View for Action {
    type V = ActionView;

    open spec fn view(&self) -> ActionView {
        match self {
            Action::CreateAgent { name, branch, task } => ActionView::CreateAgent { name: name@, branch: branch@, task: opt_text(*task) },
            Action::AttachToAgent { id } => ActionView::AttachToAgent { id: *id },
            Action::DetachFromAgent => ActionView::DetachFromAgent,
            Action::UpdateAgentStatus { id, status, status_reason } => ActionView::UpdateAgentStatus { id: *id, status: status@, status_reason: opt_text(*status_reason) },
            Action::UpdateAgentOutput { id, output } => ActionView::UpdateAgentOutput { id: *id, output: output@ },
            Action::FetchRemote { id } => ActionView::FetchRemote { id: *id },
            Action::MergeMain { id } => ActionView::MergeMain { id: *id },
            Action::PushBranch { id } => ActionView::PushBranch { id: *id },
            Action::UpdateGitStatus { id, status } => ActionView::UpdateGitStatus { id: *id, status: *status },
            Action::OpenInEditor { id } => ActionView::OpenInEditor { id: *id },
            Action::CopyWorktreePath { id } => ActionView::CopyWorktreePath { id: *id },
            Action::AttachToDevServer { agent_id } => ActionView::AttachToDevServer { agent_id: *agent_id },
            Action::PiStartSession { id, branch } => ActionView::PiStartSession { id: *id, branch: branch@ },
            Action::PiStopSession { id } => ActionView::PiStopSession { id: *id },
            Action::PiSendMessage { id, message } => ActionView::PiSendMessage { id: *id, message: message@ },
            Action::PiReceiveOutput { id, output } => ActionView::PiReceiveOutput { id: *id, output: output@ },
            Action::DeleteAgentAndCompleteTask { id } => ActionView::DeleteAgentAndCompleteTask { id: *id },
            Action::DeleteAgentAndCompleteAsana { id } => ActionView::DeleteAgentAndCompleteAsana { id: *id },
            Action::DeleteAgent { id } => ActionView::DeleteAgent { id: *id },
            Action::ToggleTaskStatusFilter { status_name } => ActionView::ToggleTaskStatusFilter { status_name: status_name@ },
            Action::UpdateInput(a0) => ActionView::UpdateInput(a0@),
            Action::EnterInputMode(a0) => ActionView::EnterInputMode(*a0),
            Action::ResumeAgent { id } => ActionView::ResumeAgent { id: *id },
            Action::CopyAgentName { id } => ActionView::CopyAgentName { id: *id },
            Action::RequestSummary { id } => ActionView::RequestSummary { id: *id },
            Action::OpenMrInBrowser { id } => ActionView::OpenMrInBrowser { id: *id },
            Action::OpenPrInBrowser { id } => ActionView::OpenPrInBrowser { id: *id },
            Action::OpenCodebergPrInBrowser { id } => ActionView::OpenCodebergPrInBrowser { id: *id },
            Action::OpenProjectTaskInBrowser { id } => ActionView::OpenProjectTaskInBrowser { id: *id },
            Action::OpenTaskStatusDropdown { id } => ActionView::OpenTaskStatusDropdown { id: *id },
            Action::SetAgentNote { id, note } => ActionView::SetAgentNote { id: *id, note: opt_text(*note) },
            Action::AssignAsanaTask { id, url_or_gid } => ActionView::AssignAsanaTask { id: *id, url_or_gid: url_or_gid@ },
            Action::AssignProjectTask { id, url_or_id } => ActionView::AssignProjectTask { id: *id, url_or_id: url_or_id@ },
            Action::ShowError(a0) => ActionView::ShowError(a0@),
            Action::PmSetupInputChar(a0) => ActionView::PmSetupInputChar(*a0),
            Action::PmSetupPaste(a0) => ActionView::PmSetupPaste(a0@),
            Action::GitSetupInputChar(a0) => ActionView::GitSetupInputChar(*a0),
            Action::GitSetupPaste(a0) => ActionView::GitSetupPaste(a0@),
            Action::SettingsInputChar(a0) => ActionView::SettingsInputChar(*a0),
            Action::SettingsCaptureKeybind { key, modifiers } => ActionView::SettingsCaptureKeybind { key: key@, modifiers: texts(modifiers@) },
            Action::SettingsRequestReset { reset_type } => ActionView::SettingsRequestReset { reset_type: *reset_type },
            Action::RefreshSelected => ActionView::RefreshSelected,
            Action::ToggleDiffView => ActionView::ToggleDiffView,
            Action::ToggleStatusDebug => ActionView::ToggleStatusDebug,
            Action::ExitInputMode => ActionView::ExitInputMode,
            Action::TaskListFilterNext => ActionView::TaskListFilterNext,
            Action::TaskListFilterPrev => ActionView::TaskListFilterPrev,
            Action::ToggleTaskListFilter => ActionView::ToggleTaskListFilter,
            Action::SelectTaskNext => ActionView::SelectTaskNext,
            Action::SelectTaskPrev => ActionView::SelectTaskPrev,
            Action::AssignSelectedTaskToAgent => ActionView::AssignSelectedTaskToAgent,
            Action::ToggleSubtaskStatus => ActionView::ToggleSubtaskStatus,
            Action::RefreshTaskList => ActionView::RefreshTaskList,
            Action::CreateAgentFromSelectedTask => ActionView::CreateAgentFromSelectedTask,
            Action::ToggleTaskExpand => ActionView::ToggleTaskExpand,
            Action::TaskStatusDropdownNext => ActionView::TaskStatusDropdownNext,
            Action::TaskStatusDropdownPrev => ActionView::TaskStatusDropdownPrev,
            Action::TaskStatusDropdownSelect => ActionView::TaskStatusDropdownSelect,
            Action::SubmitInput => ActionView::SubmitInput,
            Action::AppearanceNextColumn => ActionView::AppearanceNextColumn,
            Action::AppearancePrevColumn => ActionView::AppearancePrevColumn,
            Action::ClearDevServerLogs => ActionView::ClearDevServerLogs,
            Action::ClearError => ActionView::ClearError,
            Action::CloseGitSetup => ActionView::CloseGitSetup,
            Action::ClosePmSetup => ActionView::ClosePmSetup,
            Action::ClosePmStatusDebug => ActionView::ClosePmStatusDebug,
            Action::ColumnSelectorClose => ActionView::ColumnSelectorClose,
            Action::ColumnSelectorSelectNext => ActionView::ColumnSelectorSelectNext,
            Action::ColumnSelectorSelectPrev => ActionView::ColumnSelectorSelectPrev,
            Action::ColumnSelectorToggle => ActionView::ColumnSelectorToggle,
            Action::ConfirmStartDevServer => ActionView::ConfirmStartDevServer,
            Action::ConfirmTaskReassignment => ActionView::ConfirmTaskReassignment,
            Action::DismissDevServerWarning => ActionView::DismissDevServerWarning,
            Action::DismissTaskReassignmentWarning => ActionView::DismissTaskReassignmentWarning,
            Action::FileBrowserEnterDir => ActionView::FileBrowserEnterDir,
            Action::FileBrowserGoParent => ActionView::FileBrowserGoParent,
            Action::FileBrowserSelectNext => ActionView::FileBrowserSelectNext,
            Action::FileBrowserSelectPrev => ActionView::FileBrowserSelectPrev,
            Action::FileBrowserToggle => ActionView::FileBrowserToggle,
            Action::GitSetupBackspace => ActionView::GitSetupBackspace,
            Action::GitSetupCancelEdit => ActionView::GitSetupCancelEdit,
            Action::GitSetupCloseDropdown => ActionView::GitSetupCloseDropdown,
            Action::GitSetupComplete => ActionView::GitSetupComplete,
            Action::GitSetupConfirmDropdown => ActionView::GitSetupConfirmDropdown,
            Action::GitSetupConfirmEdit => ActionView::GitSetupConfirmEdit,
            Action::GitSetupDropdownNext => ActionView::GitSetupDropdownNext,
            Action::GitSetupDropdownPrev => ActionView::GitSetupDropdownPrev,
            Action::GitSetupFetchProjectId => ActionView::GitSetupFetchProjectId,
            Action::GitSetupNavigateNext => ActionView::GitSetupNavigateNext,
            Action::GitSetupNavigatePrev => ActionView::GitSetupNavigatePrev,
            Action::GitSetupNextStep => ActionView::GitSetupNextStep,
            Action::GitSetupPrevStep => ActionView::GitSetupPrevStep,
            Action::GitSetupStartEdit => ActionView::GitSetupStartEdit,
            Action::GitSetupToggleAdvanced => ActionView::GitSetupToggleAdvanced,
            Action::GitSetupToggleDropdown => ActionView::GitSetupToggleDropdown,
            Action::GlobalSetupComplete => ActionView::GlobalSetupComplete,
            Action::GlobalSetupConfirmDropdown => ActionView::GlobalSetupConfirmDropdown,
            Action::GlobalSetupDropdownNext => ActionView::GlobalSetupDropdownNext,
            Action::GlobalSetupDropdownPrev => ActionView::GlobalSetupDropdownPrev,
            Action::GlobalSetupNavigateDown => ActionView::GlobalSetupNavigateDown,
            Action::GlobalSetupNavigateUp => ActionView::GlobalSetupNavigateUp,
            Action::GlobalSetupNextStep => ActionView::GlobalSetupNextStep,
            Action::GlobalSetupPrevStep => ActionView::GlobalSetupPrevStep,
            Action::GlobalSetupSelectNext => ActionView::GlobalSetupSelectNext,
            Action::GlobalSetupSelectPrev => ActionView::GlobalSetupSelectPrev,
            Action::GlobalSetupToggleDropdown => ActionView::GlobalSetupToggleDropdown,
            Action::NextPreviewTab => ActionView::NextPreviewTab,
            Action::OpenDevServerInBrowser => ActionView::OpenDevServerInBrowser,
            Action::OpenGitSetup => ActionView::OpenGitSetup,
            Action::OpenPmStatusDebug => ActionView::OpenPmStatusDebug,
            Action::PmSetupBackspace => ActionView::PmSetupBackspace,
            Action::PmSetupComplete => ActionView::PmSetupComplete,
            Action::PmSetupConfirmDropdown => ActionView::PmSetupConfirmDropdown,
            Action::PmSetupDropdownNext => ActionView::PmSetupDropdownNext,
            Action::PmSetupDropdownPrev => ActionView::PmSetupDropdownPrev,
            Action::PmSetupNavigateNext => ActionView::PmSetupNavigateNext,
            Action::PmSetupNavigatePrev => ActionView::PmSetupNavigatePrev,
            Action::PmSetupNextStep => ActionView::PmSetupNextStep,
            Action::PmSetupPrevStep => ActionView::PmSetupPrevStep,
            Action::PmSetupToggleAdvanced => ActionView::PmSetupToggleAdvanced,
            Action::PmSetupToggleDropdown => ActionView::PmSetupToggleDropdown,
            Action::PmStatusDebugCopyPayload => ActionView::PmStatusDebugCopyPayload,
            Action::PmStatusDebugFetchSelected => ActionView::PmStatusDebugFetchSelected,
            Action::PmStatusDebugSelectNext => ActionView::PmStatusDebugSelectNext,
            Action::PmStatusDebugSelectPrev => ActionView::PmStatusDebugSelectPrev,
            Action::PrevPreviewTab => ActionView::PrevPreviewTab,
            Action::ProjectSetupCloseFileBrowser => ActionView::ProjectSetupCloseFileBrowser,
            Action::ProjectSetupComplete => ActionView::ProjectSetupComplete,
            Action::ProjectSetupConfirmDropdown => ActionView::ProjectSetupConfirmDropdown,
            Action::ProjectSetupConfirmPmDropdown => ActionView::ProjectSetupConfirmPmDropdown,
            Action::ProjectSetupDropdownNext => ActionView::ProjectSetupDropdownNext,
            Action::ProjectSetupDropdownPrev => ActionView::ProjectSetupDropdownPrev,
            Action::ProjectSetupNavigateNext => ActionView::ProjectSetupNavigateNext,
            Action::ProjectSetupNavigatePrev => ActionView::ProjectSetupNavigatePrev,
            Action::ProjectSetupPmDropdownNext => ActionView::ProjectSetupPmDropdownNext,
            Action::ProjectSetupPmDropdownPrev => ActionView::ProjectSetupPmDropdownPrev,
            Action::ProjectSetupSelect => ActionView::ProjectSetupSelect,
            Action::ProjectSetupSkip => ActionView::ProjectSetupSkip,
            Action::ProjectSetupToggleDropdown => ActionView::ProjectSetupToggleDropdown,
            Action::Quit => ActionView::Quit,
            Action::RefreshAll => ActionView::RefreshAll,
            Action::RequestStartDevServer => ActionView::RequestStartDevServer,
            Action::ResetTutorial => ActionView::ResetTutorial,
            Action::RestartDevServer => ActionView::RestartDevServer,
            Action::ScrollPreviewDown => ActionView::ScrollPreviewDown,
            Action::ScrollPreviewUp => ActionView::ScrollPreviewUp,
            Action::SelectFirst => ActionView::SelectFirst,
            Action::SelectLast => ActionView::SelectLast,
            Action::SelectNext => ActionView::SelectNext,
            Action::SelectPrevious => ActionView::SelectPrevious,
            Action::SettingsBackspace => ActionView::SettingsBackspace,
            Action::SettingsCancelKeybindCapture => ActionView::SettingsCancelKeybindCapture,
            Action::SettingsCancelReset => ActionView::SettingsCancelReset,
            Action::SettingsCancelSelection => ActionView::SettingsCancelSelection,
            Action::SettingsClose => ActionView::SettingsClose,
            Action::SettingsCloseFileBrowser => ActionView::SettingsCloseFileBrowser,
            Action::SettingsConfirmReset => ActionView::SettingsConfirmReset,
            Action::SettingsConfirmSelection => ActionView::SettingsConfirmSelection,
            Action::SettingsDropdownNext => ActionView::SettingsDropdownNext,
            Action::SettingsDropdownPrev => ActionView::SettingsDropdownPrev,
            Action::SettingsPromptSave => ActionView::SettingsPromptSave,
            Action::SettingsSave => ActionView::SettingsSave,
            Action::SettingsSelectField => ActionView::SettingsSelectField,
            Action::SettingsSelectNext => ActionView::SettingsSelectNext,
            Action::SettingsSelectPrev => ActionView::SettingsSelectPrev,
            Action::SettingsStartKeybindCapture => ActionView::SettingsStartKeybindCapture,
            Action::SettingsSwitchSection => ActionView::SettingsSwitchSection,
            Action::SettingsSwitchSectionBack => ActionView::SettingsSwitchSectionBack,
            Action::ToggleColumnSelector => ActionView::ToggleColumnSelector,
            Action::ToggleHelp => ActionView::ToggleHelp,
            Action::ToggleLogs => ActionView::ToggleLogs,
            Action::ToggleSettings => ActionView::ToggleSettings,
            Action::TutorialComplete => ActionView::TutorialComplete,
            Action::TutorialNextStep => ActionView::TutorialNextStep,
            Action::TutorialPrevStep => ActionView::TutorialPrevStep,
            Action::TutorialSkip => ActionView::TutorialSkip,
        }
    }
}

} // verus!
