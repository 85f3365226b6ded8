//! The manager of the pi agents of a Grove session.
use vstd::prelude::*;
use vstd::string::*;
use crate::ids::{uuid_hyphenated, uuid_to_text, AgentId};
use crate::agent::{Agent, AgentView};
use crate::action::{Action, ActionView};
use super::{GitOperation, PiAgent, RpcMessage, RpcMessageView};
use super::conversion::{action_message, tool_request};

verus! {

/// The pi agents of a Grove session.
pub struct PiSessionManager {
    agents: Vec<PiAgent>,
}

/// The message that a Grove action is forwarded to pi as: every action that
/// converts to a message does, except the creation of an agent.
pub open spec fn forwarded_message(a: ActionView) -> Option<RpcMessageView> {
    match a {
        ActionView::CreateAgent { .. } => None,
        _ => action_message(a),
    }
}

impl PiSessionManager {
    /// A manager with no agents.
    pub fn new() -> (r: Self)
        ensures
            r.agents() == Seq::<AgentView>::empty(),
    {
        PiSessionManager { agents: Vec::new() }
    }

    /// The agents, in the order they were added.
    pub closed spec fn agents(&self) -> Seq<AgentView> {
        self.agents@.map_values(|a: PiAgent| a.agent@)
    }

    /// Adds an agent and returns its identifier.
    pub fn add_agent(&mut self, agent: Agent) -> (id: AgentId)
        ensures
            id == agent.id,
            final(self).agents() == old(self).agents().push(agent@),
    {
        let id = agent.id;
        self.agents.push(PiAgent::new(agent));
        assert(self.agents() =~= old(self).agents().push(agent@));
        id
    }

    /// The number of agents.
    pub fn agent_count(&self) -> (n: usize)
        ensures
            n == self.agents().len(),
    {
        self.agents.len()
    }

    /// The pi agent at a position.
    pub fn agent_at(&self, i: usize) -> (r: &PiAgent)
        requires
            i < self.agents().len(),
        ensures
            r.agent@ == self.agents()[i as int],
    {
        &self.agents[i]
    }

    /// The RPC message that forwards a Grove action to pi, if it is forwarded.
    pub fn forward_to_pi(&self, action: &Action) -> (r: Option<RpcMessage>)
        ensures
            match r {
                Some(m) => forwarded_message(action@) == Some(m@),
                None => forwarded_message(action@) is None,
            },
            action@ matches ActionView::PiStartSession { id, branch } ==> r matches Some(m)
                && (m@ == RpcMessageView::CreateAgent { name: uuid_hyphenated(id), branch }),
            action@ is PiStopSession ==> (r matches Some(m) && m@ == RpcMessageView::Detach),
            action@ matches ActionView::PiSendMessage { message, .. } ==> r matches Some(m)
                && (m@ == RpcMessageView::ExecuteTool { tool: "send"@, args: seq![message] }),
            action@ matches ActionView::PiReceiveOutput { id, output } ==> r matches Some(m)
                && (m@ == RpcMessageView::Output { id, output }),
    {
        match action {
            Action::AttachToAgent { id } => Some(RpcMessage::AttachToAgent { id: *id }),
            Action::DetachFromAgent => Some(RpcMessage::Detach),
            Action::UpdateAgentStatus { id, status, .. } => Some(
                RpcMessage::StatusUpdate { id: *id, status: status.copy() },
            ),
            Action::UpdateAgentOutput { id, output } => Some(
                RpcMessage::Output { id: *id, output: output.clone() },
            ),
            Action::FetchRemote { id } => Some(
                RpcMessage::GitOperation { id: *id, operation: GitOperation::FetchRemote { id: *id } },
            ),
            Action::MergeMain { id } => Some(
                RpcMessage::GitOperation { id: *id, operation: GitOperation::MergeMain { id: *id } },
            ),
            Action::PushBranch { id } => Some(
                RpcMessage::GitOperation { id: *id, operation: GitOperation::PushBranch { id: *id } },
            ),
            Action::UpdateGitStatus { id, status } => Some(
                RpcMessage::GitOperation {
                    id: *id,
                    operation: GitOperation::UpdateGitStatus { id: *id, status: *status },
                },
            ),
            Action::OpenInEditor { id } => Some(execute_tool("editor", uuid_to_text(*id))),
            Action::CopyWorktreePath { id } => Some(execute_tool("file_ops", uuid_to_text(*id))),
            Action::AttachToDevServer { agent_id } => Some(execute_tool("terminal", uuid_to_text(*agent_id))),
            Action::PiStartSession { id, branch } => Some(
                RpcMessage::CreateAgent { name: uuid_to_text(*id), branch: branch.clone() },
            ),
            Action::PiStopSession { id: _ } => Some(RpcMessage::Detach),
            Action::PiSendMessage { id: _, message } => Some(execute_tool("send", message.clone())),
            Action::PiReceiveOutput { id, output } => Some(
                RpcMessage::Output { id: *id, output: output.clone() },
            ),
            _ => None,
        }
    }
}

fn execute_tool(tool: &str, arg: String) -> (r: RpcMessage)
    ensures
        r@ == tool_request(tool@, arg@),
{
    let args = vec![arg];
    let r = RpcMessage::ExecuteTool { tool: String::from_str(tool), args };
    assert(crate::agent::texts(args@) =~= seq![arg@]);
    r
}

impl Default for PiSessionManager {
    fn default() -> (r: Self)
        ensures
            r.agents() == Seq::<AgentView>::empty(),
    {
        Self::new()
    }
}

} // verus!
