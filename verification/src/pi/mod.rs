//! Pi-session integration: the RPC messages exchanged with a pi session and
//! the agent adapter that turns them into Grove actions.
use vstd::prelude::*;
use crate::ids::AgentId;
use crate::agent::{copy_texts, opt_text, texts, Agent, AgentStatus, AgentStatusView, AgentView, GitSyncStatus};
use crate::action::{Action, ActionView};
use tool_registry::{tool_action, ToolMapping, ToolRegistry};
use conversion::{message_action, rpc_to_action};

pub mod types;
pub mod conversion;
pub mod tool_registry;
pub mod session;
pub mod rpc_bridge;
pub mod laws;





verus! {

/// Git operations that can be forwarded from pi to Grove.
#[derive(Debug, Clone, Copy, PartialEq, Eq)]
pub enum GitOperation {
    FetchRemote { id: AgentId },
    MergeMain { id: AgentId },
    PushBranch { id: AgentId },
    UpdateGitStatus { id: AgentId, status: GitSyncStatus },
}

/// Tool types that pi can request to execute.
#[derive(Debug, Clone, Copy, PartialEq, Eq)]
pub enum ToolType {
    Git,
    Editor,
    FileOps,
    Terminal,
    Debug,
    Test,
}

/// Response to a snapshot request: the state of one agent.
#[derive(Debug)]
pub struct SnapshotResponse {
    pub id: AgentId,
    pub name: String,
    pub branch: String,
    pub worktree_path: String,
    pub status: AgentStatus,
    pub output: Vec<String>,
    pub tmux_session: String,
}

/// The view of a [`SnapshotResponse`].
pub struct SnapshotResponseView {
    pub id: AgentId,
    pub name: Seq<char>,
    pub branch: Seq<char>,
    pub worktree_path: Seq<char>,
    pub status: AgentStatusView,
    pub output: Seq<Seq<char>>,
    pub tmux_session: Seq<char>,
}

impl View for SnapshotResponse {
    type V = SnapshotResponseView;

    open spec fn view(&self) -> SnapshotResponseView {
        SnapshotResponseView {
            id: self.id,
            name: self.name@,
            branch: self.branch@,
            worktree_path: self.worktree_path@,
            status: self.status@,
            output: texts(self.output@),
            tmux_session: self.tmux_session@,
        }
    }
}

/// RPC message types from pi-session.
#[derive(Debug)]
pub enum RpcMessage {
    /// Request to create a new agent
    CreateAgent { name: String, branch: String },
    /// Request to attach to an existing agent
    AttachToAgent { id: AgentId },
    /// Request to detach from current agent
    Detach,
    /// Agent status update from pi
    StatusUpdate { id: AgentId, status: AgentStatus },
    /// Agent output from pi
    Output { id: AgentId, output: String },
    /// Git operations from pi
    GitOperation { id: AgentId, operation: GitOperation },
    /// Tool execution from pi
    ExecuteTool { tool: String, args: Vec<String> },
    /// Request agent state snapshot
    RequestSnapshot { id: AgentId },
    /// Response to snapshot request
    SnapshotResponse(SnapshotResponse),
}

/// The view of an [`RpcMessage`].
pub enum RpcMessageView {
    CreateAgent { name: Seq<char>, branch: Seq<char> },
    AttachToAgent { id: AgentId },
    Detach,
    StatusUpdate { id: AgentId, status: AgentStatusView },
    Output { id: AgentId, output: Seq<char> },
    GitOperation { id: AgentId, operation: GitOperation },
    ExecuteTool { tool: Seq<char>, args: Seq<Seq<char>> },
    RequestSnapshot { id: AgentId },
    SnapshotResponse(SnapshotResponseView),
}

impl View for RpcMessage {
    type V = RpcMessageView;

    open spec fn view(&self) -> RpcMessageView {
        match self {
            RpcMessage::CreateAgent { name, branch } => RpcMessageView::CreateAgent {
                name: name@,
                branch: branch@,
            },
            RpcMessage::AttachToAgent { id } => RpcMessageView::AttachToAgent { id: *id },
            RpcMessage::Detach => RpcMessageView::Detach,
            RpcMessage::StatusUpdate { id, status } => RpcMessageView::StatusUpdate {
                id: *id,
                status: status@,
            },
            RpcMessage::Output { id, output } => RpcMessageView::Output { id: *id, output: output@ },
            RpcMessage::GitOperation { id, operation } => RpcMessageView::GitOperation {
                id: *id,
                operation: *operation,
            },
            RpcMessage::ExecuteTool { tool, args } => RpcMessageView::ExecuteTool {
                tool: tool@,
                args: texts(args@),
            },
            RpcMessage::RequestSnapshot { id } => RpcMessageView::RequestSnapshot { id: *id },
            RpcMessage::SnapshotResponse(s) => RpcMessageView::SnapshotResponse(s@),
        }
    }
}

} // verus!

verus! {

/// PiAgent wraps an agent whose RPC traffic it turns into Grove actions.
pub struct PiAgent {
    pub agent: Agent,
}

/// What handling one RPC message asks for: the actions to queue, the output
/// to forward back to pi, and the reply to send on the RPC channel.
#[derive(Debug)]
pub struct RpcEffects {
    pub actions: Vec<Action>,
    pub forward_output: Option<String>,
    pub reply: Option<RpcMessage>,
}

/// The view of [`RpcEffects`].
pub struct RpcEffectsView {
    pub actions: Seq<ActionView>,
    pub forward_output: Option<Seq<char>>,
    pub reply: Option<RpcMessageView>,
}

impl View for RpcEffects {
    type V = RpcEffectsView;

    open spec fn view(&self) -> RpcEffectsView {
        RpcEffectsView {
            actions: self.actions@.map_values(|a: Action| a@),
            forward_output: opt_text(self.forward_output),
            reply: match self.reply {
                Some(m) => Some(m@),
                None => None,
            },
        }
    }
}

/// The snapshot of an agent's state.
pub open spec fn agent_snapshot(agent: AgentView) -> SnapshotResponseView {
    SnapshotResponseView {
        id: agent.id,
        name: agent.name,
        branch: agent.branch,
        worktree_path: agent.worktree_path,
        status: agent.status,
        output: agent.output_buffer,
        tmux_session: agent.tmux_session,
    }
}

/// The action that the agent adapter runs for a tool request: the
/// registry's action, or `RefreshSelected` for a tool it does not know.
pub open spec fn agent_tool_action(tool: Seq<char>, args: Seq<Seq<char>>) -> ActionView {
    match tool_action(tool, args) {
        Some(a) => a,
        None => ActionView::RefreshSelected,
    }
}

/// What the agent adapter does with one RPC message.
pub open spec fn rpc_effects(agent: AgentView, m: RpcMessageView) -> RpcEffectsView {
    match m {
        RpcMessageView::Output { id, output } => RpcEffectsView {
            actions: seq![ActionView::UpdateAgentOutput { id, output }],
            forward_output: Some(output),
            reply: None,
        },
        RpcMessageView::ExecuteTool { tool, args } => RpcEffectsView {
            actions: seq![agent_tool_action(tool, args)],
            forward_output: None,
            reply: None,
        },
        RpcMessageView::RequestSnapshot { .. } => RpcEffectsView {
            actions: Seq::empty(),
            forward_output: None,
            reply: Some(RpcMessageView::SnapshotResponse(agent_snapshot(agent))),
        },
        RpcMessageView::SnapshotResponse(_) => RpcEffectsView {
            actions: Seq::empty(),
            forward_output: None,
            reply: None,
        },
        _ => RpcEffectsView { actions: seq![message_action(m)], forward_output: None, reply: None },
    }
}

/// Whether `reply` is a snapshot response that carries each field of
/// `agent` as it is.
pub open spec fn snapshot_of(reply: Option<RpcMessageView>, agent: AgentView) -> bool {
    reply matches Some(RpcMessageView::SnapshotResponse(s)) && {
        &&& s.id == agent.id
        &&& s.name == agent.name
        &&& s.branch == agent.branch
        &&& s.worktree_path == agent.worktree_path
        &&& s.status == agent.status
        &&& s.output == agent.output_buffer
        &&& s.tmux_session == agent.tmux_session
    }
}

/// The agent adapter answers a snapshot request, whatever agent it names,
/// with the wrapped agent's fields as they are, and queues no action for
/// it; no other message gets a reply.
pub proof fn lemma_snapshot_reply(agent: AgentView, m: RpcMessageView)
    ensures
        m is RequestSnapshot ==> snapshot_of(rpc_effects(agent, m).reply, agent)
            && rpc_effects(agent, m).actions.len() == 0,
        !(m is RequestSnapshot) ==> rpc_effects(agent, m).reply is None,
{
}

impl PiAgent {
    /// Wraps an agent.
    pub fn new(agent: Agent) -> (r: PiAgent)
        ensures
            r.agent@ == agent@,
    {
        PiAgent { agent }
    }

    /// The action for a tool request from pi.
    pub fn tool_to_action(&self, tool: String, args: Vec<String>) -> (r: Action)
        ensures
            r@ == agent_tool_action(tool@, texts(args@)),
    {
        match ToolRegistry::map_tool(tool.as_str(), args.as_slice()) {
            ToolMapping::Action(a) => a,
            ToolMapping::Unknown => Action::RefreshSelected,
        }
    }

    /// The snapshot of the wrapped agent's state (whatever identifier was asked for).
    pub fn create_snapshot(&self, _id: AgentId) -> (r: SnapshotResponse)
        ensures
            r@ == agent_snapshot(self.agent@),
    {
        let agent = &self.agent;
        SnapshotResponse {
            id: agent.id,
            name: agent.name.clone(),
            branch: agent.branch.clone(),
            worktree_path: agent.worktree_path.clone(),
            status: agent.status.copy(),
            output: copy_texts(&agent.output_buffer),
            tmux_session: agent.tmux_session.clone(),
        }
    }

    /// Handles one incoming RPC message: the actions it becomes, the output
    /// to forward to pi, and the snapshot reply for a snapshot request.
    pub fn handle_rpc_message(&self, msg: RpcMessage) -> (r: RpcEffects)
        ensures
            r@ == rpc_effects(self.agent@, msg@),
    {
        let ghost m = msg@;
        let r = match msg {
            RpcMessage::Output { id, output } => {
                let forwarded = output.clone();
                RpcEffects {
                    actions: vec![Action::UpdateAgentOutput { id, output }],
                    forward_output: Some(forwarded),
                    reply: None,
                }
            },
            RpcMessage::ExecuteTool { tool, args } => RpcEffects {
                actions: vec![self.tool_to_action(tool, args)],
                forward_output: None,
                reply: None,
            },
            RpcMessage::RequestSnapshot { id } => RpcEffects {
                actions: Vec::new(),
                forward_output: None,
                reply: Some(RpcMessage::SnapshotResponse(self.create_snapshot(id))),
            },
            RpcMessage::SnapshotResponse(_) => RpcEffects {
                actions: Vec::new(),
                forward_output: None,
                reply: None,
            },
            other => RpcEffects { actions: vec![rpc_to_action(other)], forward_output: None, reply: None },
        };
        assert(r@.actions =~= rpc_effects(self.agent@, m).actions);
        r
    }
}

} // verus!
