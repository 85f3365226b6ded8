//! Conversion between Grove actions and pi-session RPC messages.
use vstd::prelude::*;
use vstd::string::*;
use crate::ids::{uuid_hyphenated, uuid_to_text};
use crate::action::{Action, ActionView};
use crate::agent::texts;
use crate::text::str_eq;
use super::{GitOperation, RpcMessage, RpcMessageView};
use super::tool_registry::{first_arg_as_id, id_tool_action};

verus! {

/// The tool request that stands for an identifier-taking action.
pub open spec fn tool_request(tool: Seq<char>, arg: Seq<char>) -> RpcMessageView {
    RpcMessageView::ExecuteTool { tool, args: seq![arg] }
}

/// The RPC message that a Grove action is sent to pi as, if it is forwarded at all.
pub open spec fn action_message(a: ActionView) -> Option<RpcMessageView> {
    match a {
        ActionView::CreateAgent { name, branch, .. } => Some(RpcMessageView::CreateAgent { name, branch }),
        ActionView::AttachToAgent { id } => Some(RpcMessageView::AttachToAgent { id }),
        ActionView::DetachFromAgent => Some(RpcMessageView::Detach),
        ActionView::UpdateAgentStatus { id, status, .. } => Some(RpcMessageView::StatusUpdate { id, status }),
        ActionView::UpdateAgentOutput { id, output } => Some(RpcMessageView::Output { id, output }),
        ActionView::FetchRemote { id } => Some(
            RpcMessageView::GitOperation { id, operation: GitOperation::FetchRemote { id } },
        ),
        ActionView::MergeMain { id } => Some(
            RpcMessageView::GitOperation { id, operation: GitOperation::MergeMain { id } },
        ),
        ActionView::PushBranch { id } => Some(
            RpcMessageView::GitOperation { id, operation: GitOperation::PushBranch { id } },
        ),
        ActionView::UpdateGitStatus { id, status } => Some(
            RpcMessageView::GitOperation { id, operation: GitOperation::UpdateGitStatus { id, status } },
        ),
        ActionView::OpenInEditor { id } => Some(tool_request("editor"@, uuid_hyphenated(id))),
        ActionView::CopyWorktreePath { id } => Some(tool_request("file_ops"@, uuid_hyphenated(id))),
        ActionView::AttachToDevServer { agent_id } => Some(tool_request("terminal"@, uuid_hyphenated(agent_id))),
        ActionView::PiStartSession { id, branch } => Some(
            RpcMessageView::CreateAgent { name: uuid_hyphenated(id), branch },
        ),
        ActionView::PiStopSession { .. } => Some(RpcMessageView::Detach),
        ActionView::PiSendMessage { message, .. } => Some(tool_request("send"@, message)),
        ActionView::PiReceiveOutput { id, output } => Some(RpcMessageView::Output { id, output }),
        _ => None,
    }
}

/// The action that a tool request received from pi is turned into.
pub open spec fn executed_tool_action(tool: Seq<char>, args: Seq<Seq<char>>) -> ActionView {
    if tool == "editor"@ {
        id_tool_action(args, |id: u128| ActionView::OpenInEditor { id })
    } else if tool == "file_ops"@ {
        id_tool_action(args, |id: u128| ActionView::CopyWorktreePath { id })
    } else if tool == "terminal"@ {
        id_tool_action(args, |id: u128| ActionView::AttachToDevServer { agent_id: id })
    } else if tool == "debug"@ {
        ActionView::ToggleStatusDebug
    } else {
        ActionView::RefreshSelected
    }
}

/// The Grove action that an RPC message from pi is turned into.
pub open spec fn message_action(m: RpcMessageView) -> ActionView {
    match m {
        RpcMessageView::CreateAgent { name, branch } => ActionView::CreateAgent { name, branch, task: None },
        RpcMessageView::AttachToAgent { id } => ActionView::AttachToAgent { id },
        RpcMessageView::Detach => ActionView::DetachFromAgent,
        RpcMessageView::StatusUpdate { id, status } => ActionView::UpdateAgentStatus {
            id,
            status,
            status_reason: None,
        },
        RpcMessageView::Output { id, output } => ActionView::UpdateAgentOutput { id, output },
        RpcMessageView::GitOperation { id, operation } => git_operation_action(id, operation),
        RpcMessageView::ExecuteTool { tool, args } => executed_tool_action(tool, args),
        RpcMessageView::RequestSnapshot { .. } => ActionView::RefreshSelected,
        RpcMessageView::SnapshotResponse(_) => ActionView::RefreshSelected,
    }
}

/// The action for a git operation carried by a message about agent `id`: the
/// message's agent for fetch, merge and push; the operation's own agent for
/// a status update.
pub open spec fn git_operation_action(id: u128, operation: GitOperation) -> ActionView {
    match operation {
        GitOperation::FetchRemote { .. } => ActionView::FetchRemote { id },
        GitOperation::MergeMain { .. } => ActionView::MergeMain { id },
        GitOperation::PushBranch { .. } => ActionView::PushBranch { id },
        GitOperation::UpdateGitStatus { id, status } => ActionView::UpdateGitStatus { id, status },
    }
}

/// The action for a git operation carried by a message about agent `id`.
pub fn git_operation_to_action(id: u128, operation: GitOperation) -> (r: Action)
    ensures
        r@ == git_operation_action(id, operation),
{
    match operation {
        GitOperation::FetchRemote { .. } => Action::FetchRemote { id },
        GitOperation::MergeMain { .. } => Action::MergeMain { id },
        GitOperation::PushBranch { .. } => Action::PushBranch { id },
        GitOperation::UpdateGitStatus { id, status } => Action::UpdateGitStatus { id, status },
    }
}

/// A tool request with one argument.
fn tool_message(tool: &str, arg: String) -> (r: RpcMessage)
    ensures
        r@ == tool_request(tool@, arg@),
{
    let args = vec![arg];
    let r = RpcMessage::ExecuteTool { tool: String::from_str(tool), args };
    assert(texts(args@) =~= seq![arg@]);
    r
}

/// Convert Grove actions to pi-session RPC messages.
pub fn action_to_rpc(action: &Action) -> (r: Option<RpcMessage>)
    ensures
        match r {
            Some(m) => action_message(action@) == Some(m@),
            None => action_message(action@) is None,
        },
        action@ matches ActionView::PiStartSession { id, branch } ==> r matches Some(m)
            && (m@ == RpcMessageView::CreateAgent { name: uuid_hyphenated(id), branch }),
        action@ is PiStopSession ==> (r matches Some(m) && m@ == RpcMessageView::Detach),
        action@ matches ActionView::PiSendMessage { message, .. } ==> r matches Some(m)
            && (m@ == RpcMessageView::ExecuteTool { tool: "send"@, args: seq![message] }),
        action@ matches ActionView::PiReceiveOutput { id, output } ==> r matches Some(m)
            && (m@ == RpcMessageView::Output { id, output }),
{
    match action {
        Action::CreateAgent { name, branch, task: _ } => Some(
            RpcMessage::CreateAgent { name: name.clone(), branch: branch.clone() },
        ),
        Action::AttachToAgent { id } => Some(RpcMessage::AttachToAgent { id: *id }),
        Action::DetachFromAgent => Some(RpcMessage::Detach),
        Action::UpdateAgentStatus { id, status, .. } => Some(
            RpcMessage::StatusUpdate { id: *id, status: status.copy() },
        ),
        Action::UpdateAgentOutput { id, output } => Some(
            RpcMessage::Output { id: *id, output: output.clone() },
        ),
        Action::FetchRemote { id } => Some(
            RpcMessage::GitOperation { id: *id, operation: GitOperation::FetchRemote { id: *id } },
        ),
        Action::MergeMain { id } => Some(
            RpcMessage::GitOperation { id: *id, operation: GitOperation::MergeMain { id: *id } },
        ),
        Action::PushBranch { id } => Some(
            RpcMessage::GitOperation { id: *id, operation: GitOperation::PushBranch { id: *id } },
        ),
        Action::UpdateGitStatus { id, status } => Some(
            RpcMessage::GitOperation {
                id: *id,
                operation: GitOperation::UpdateGitStatus { id: *id, status: *status },
            },
        ),
        Action::OpenInEditor { id } => Some(tool_message("editor", uuid_to_text(*id))),
        Action::CopyWorktreePath { id } => Some(tool_message("file_ops", uuid_to_text(*id))),
        Action::AttachToDevServer { agent_id } => Some(tool_message("terminal", uuid_to_text(*agent_id))),
        Action::PiStartSession { id, branch } => Some(
            RpcMessage::CreateAgent { name: uuid_to_text(*id), branch: branch.clone() },
        ),
        Action::PiStopSession { .. } => Some(RpcMessage::Detach),
        Action::PiSendMessage { id: _, message } => Some(tool_message("send", message.clone())),
        Action::PiReceiveOutput { id, output } => Some(
            RpcMessage::Output { id: *id, output: output.clone() },
        ),
        _ => None,
    }
}

/// The action for a tool request received from pi.
fn executed_tool_to_action(tool: &str, args: &Vec<String>) -> (r: Action)
    ensures
        r@ == executed_tool_action(tool@, texts(args@)),
{
    if str_eq(tool, "editor") {
        match first_arg_as_id(args.as_slice()) {
            Some(id) => Action::OpenInEditor { id },
            None => Action::RefreshSelected,
        }
    } else if str_eq(tool, "file_ops") {
        match first_arg_as_id(args.as_slice()) {
            Some(id) => Action::CopyWorktreePath { id },
            None => Action::RefreshSelected,
        }
    } else if str_eq(tool, "terminal") {
        match first_arg_as_id(args.as_slice()) {
            Some(id) => Action::AttachToDevServer { agent_id: id },
            None => Action::RefreshSelected,
        }
    } else if str_eq(tool, "debug") {
        Action::ToggleStatusDebug
    } else {
        Action::RefreshSelected
    }
}

/// Convert pi-session RPC messages to Grove actions.
pub fn rpc_to_action(message: RpcMessage) -> (r: Action)
    ensures
        r@ == message_action(message@),
{
    match message {
        RpcMessage::CreateAgent { name, branch } => Action::CreateAgent { name, branch, task: None },
        RpcMessage::AttachToAgent { id } => Action::AttachToAgent { id },
        RpcMessage::Detach => Action::DetachFromAgent,
        RpcMessage::StatusUpdate { id, status } => Action::UpdateAgentStatus {
            id,
            status,
            status_reason: None,
        },
        RpcMessage::Output { id, output } => Action::UpdateAgentOutput { id, output },
        RpcMessage::GitOperation { id, operation } => git_operation_to_action(id, operation),
        RpcMessage::ExecuteTool { tool, args } => executed_tool_to_action(tool.as_str(), &args),
        RpcMessage::RequestSnapshot { .. } => Action::RefreshSelected,
        RpcMessage::SnapshotResponse(_) => Action::RefreshSelected,
    }
}

} // verus!
