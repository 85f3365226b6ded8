//! Laws that relate the conversions between Grove actions and pi messages.
use vstd::prelude::*;
use crate::ids::{lemma_uuid_reads_back, uuid_hyphenated};
use crate::action::ActionView;
use crate::agent::AgentView;
use super::{agent_tool_action, rpc_effects, GitOperation, RpcMessageView};
use super::conversion::{action_message, executed_tool_action, message_action, tool_request};
use super::session::forwarded_message;

verus! {

/// The tool names that the conversions tell apart are distinct texts.
proof fn lemma_tool_names_distinct()
    ensures
        "git"@ != "editor"@,
        "git"@ != "file_ops"@,
        "git"@ != "terminal"@,
        "git"@ != "debug"@,
        "git"@ != "test"@,
        "editor"@ != "file_ops"@,
        "editor"@ != "terminal"@,
        "editor"@ != "debug"@,
        "editor"@ != "test"@,
        "file_ops"@ != "terminal"@,
        "file_ops"@ != "debug"@,
        "file_ops"@ != "test"@,
        "terminal"@ != "debug"@,
        "terminal"@ != "test"@,
        "debug"@ != "test"@,
{
    reveal_strlit("git");
    reveal_strlit("editor");
    reveal_strlit("file_ops");
    reveal_strlit("terminal");
    reveal_strlit("debug");
    reveal_strlit("test");
    assert("git"@[0] != "editor"@[0]);
    assert("git"@[0] != "file_ops"@[0]);
    assert("git"@[0] != "terminal"@[0]);
    assert("git"@[0] != "debug"@[0]);
    assert("git"@[0] != "test"@[0]);
    assert("editor"@[0] != "file_ops"@[0]);
    assert("editor"@[0] != "terminal"@[0]);
    assert("editor"@[0] != "debug"@[0]);
    assert("editor"@[0] != "test"@[0]);
    assert("file_ops"@[0] != "terminal"@[0]);
    assert("file_ops"@[0] != "debug"@[0]);
    assert("file_ops"@[0] != "test"@[0]);
    assert("terminal"@[2] != "test"@[2]);
    assert("terminal"@[0] != "debug"@[0]);
    assert("debug"@[0] != "test"@[0]);
}

/// The actions that survive being sent to pi and turned back into an action:
/// those that map one to one onto a message.
pub open spec fn is_round_trip_action(a: ActionView) -> bool {
    match a {
        ActionView::CreateAgent { task, .. } => task is None,
        ActionView::AttachToAgent { .. } => true,
        ActionView::DetachFromAgent => true,
        ActionView::UpdateAgentStatus { status_reason, .. } => status_reason is None,
        ActionView::UpdateAgentOutput { .. } => true,
        ActionView::FetchRemote { .. } => true,
        ActionView::MergeMain { .. } => true,
        ActionView::PushBranch { .. } => true,
        ActionView::UpdateGitStatus { .. } => true,
        ActionView::OpenInEditor { .. } => true,
        ActionView::CopyWorktreePath { .. } => true,
        ActionView::AttachToDevServer { .. } => true,
        _ => false,
    }
}

/// Sending an action to pi and turning the message back into an action gives
/// the action again, for every action that maps one to one onto a message.
pub proof fn lemma_action_round_trip(a: ActionView)
    requires
        is_round_trip_action(a),
    ensures
        action_message(a) matches Some(m) && message_action(m) == a,
{
    lemma_tool_names_distinct();
    match a {
        ActionView::OpenInEditor { id } => {
            lemma_uuid_reads_back(id);
        },
        ActionView::CopyWorktreePath { id } => {
            lemma_uuid_reads_back(id);
        },
        ActionView::AttachToDevServer { agent_id } => {
            lemma_uuid_reads_back(agent_id);
        },
        _ => {},
    }
}

/// The messages that survive being turned into an action and sent back to
/// pi: those whose git operation concerns the message's own agent, and tool
/// requests that name an agent by its canonical text.
pub open spec fn is_round_trip_message(m: RpcMessageView) -> bool {
    match m {
        RpcMessageView::CreateAgent { .. } => true,
        RpcMessageView::AttachToAgent { .. } => true,
        RpcMessageView::Detach => true,
        RpcMessageView::StatusUpdate { .. } => true,
        RpcMessageView::Output { .. } => true,
        RpcMessageView::GitOperation { id, operation } => match operation {
            GitOperation::FetchRemote { id: op_id } => op_id == id,
            GitOperation::MergeMain { id: op_id } => op_id == id,
            GitOperation::PushBranch { id: op_id } => op_id == id,
            GitOperation::UpdateGitStatus { id: op_id, .. } => op_id == id,
        },
        RpcMessageView::ExecuteTool { tool, args } => {
            &&& tool == "editor"@ || tool == "file_ops"@ || tool == "terminal"@
            &&& exists|v: u128| args == seq![#[trigger] uuid_hyphenated(v)]
        },
        _ => false,
    }
}

/// Turning a message from pi into an action and sending the action back
/// gives the message again, for every message that maps one to one onto an
/// action.
pub proof fn lemma_message_round_trip(m: RpcMessageView)
    requires
        is_round_trip_message(m),
    ensures
        action_message(message_action(m)) == Some(m),
{
    lemma_tool_names_distinct();
    if let RpcMessageView::ExecuteTool { tool, args } = m {
        let v = choose|v: u128| args == seq![#[trigger] uuid_hyphenated(v)];
        lemma_uuid_reads_back(v);
        assert(args[0] == uuid_hyphenated(v));
        if tool == "editor"@ {
            assert(tool_request(tool, uuid_hyphenated(v)) == m);
        } else if tool == "file_ops"@ {
            assert(tool_request(tool, uuid_hyphenated(v)) == m);
        } else {
            assert(tool_request(tool, uuid_hyphenated(v)) == m);
        }
    }
}

/// The manager forwards to pi exactly the message that an action converts
/// to, except for the creation of an agent, which it does not forward.
pub proof fn lemma_forward_matches_conversion(a: ActionView)
    ensures
        !(a is CreateAgent) ==> forwarded_message(a) == action_message(a),
        a is CreateAgent ==> forwarded_message(a) is None && action_message(a) is Some,
{
}

/// Every action of a pi session is sent to pi, and forwarded by the
/// manager: starting a session creates the agent named by the session's
/// identifier text on its branch, stopping one detaches, a message goes out
/// as a `send` tool request with the message as its one argument, and
/// received output goes out as output of the same agent.
pub proof fn lemma_pi_session_actions_forwarded(a: ActionView)
    ensures
        a matches ActionView::PiStartSession { id, branch } ==> action_message(a)
            == Some(RpcMessageView::CreateAgent { name: uuid_hyphenated(id), branch }),
        a is PiStopSession ==> action_message(a) == Some(RpcMessageView::Detach),
        a matches ActionView::PiSendMessage { message, .. } ==> action_message(a)
            == Some(RpcMessageView::ExecuteTool { tool: "send"@, args: seq![message] }),
        a matches ActionView::PiReceiveOutput { id, output } ==> action_message(a)
            == Some(RpcMessageView::Output { id, output }),
        (a is PiStartSession || a is PiStopSession || a is PiSendMessage || a is PiReceiveOutput)
            ==> forwarded_message(a) == action_message(a) && action_message(a) is Some,
{
}

/// Whether a tool request is a `git diff` request.
pub open spec fn is_git_diff_request(tool: Seq<char>, args: Seq<Seq<char>>) -> bool {
    tool == "git"@ && args.len() > 0 && args[0] == "diff"@
}

/// A tool request converted as a message gives the same action as the
/// agent adapter's tool mapping, except `git diff`, which the conversion
/// turns into a refresh and the adapter into the diff view.
pub proof fn lemma_tool_conversions_agree(tool: Seq<char>, args: Seq<Seq<char>>)
    ensures
        !is_git_diff_request(tool, args) ==> executed_tool_action(tool, args) == agent_tool_action(tool, args),
        is_git_diff_request(tool, args) ==> executed_tool_action(tool, args) == ActionView::RefreshSelected
            && agent_tool_action(tool, args) == ActionView::ToggleDiffView,
{
    lemma_tool_names_distinct();
}

/// The agent adapter turns each message, other than a snapshot request or
/// response and a `git diff` tool request, into exactly the action that the
/// conversion gives, and queues nothing else.
pub proof fn lemma_adapter_agrees_with_conversion(agent: AgentView, m: RpcMessageView)
    requires
        !(m is RequestSnapshot),
        !(m is SnapshotResponse),
        !(m matches RpcMessageView::ExecuteTool { tool, args } && is_git_diff_request(tool, args)),
    ensures
        rpc_effects(agent, m).actions == seq![message_action(m)],
{
    if let RpcMessageView::ExecuteTool { tool, args } = m {
        lemma_tool_conversions_agree(tool, args);
    }
}

} // verus!
