//! The bridge to pi processes: the registry of running sessions and where
//! each session's message file lives.
use vstd::prelude::*;
use vstd::string::*;
use std::collections::HashMap;
use crate::ids::{uuid_hyphenated, uuid_to_text, AgentId};
use super::types::PiConfig;

verus! {

/// A running pi session.
#[derive(Debug)]
pub struct PiSessionHandle {
    pub id: AgentId,
    pub session_path: String,
    pub is_alive: bool,
}

/// The registry of pi sessions, one per agent, and the configuration they
/// are started with.
pub struct RpcBridge {
    sessions: HashMap<AgentId, PiSessionHandle>,
    config: PiConfig,
}

/// The directory that session files go to when nothing else names one.
pub open spec fn default_session_dir() -> Seq<char> {
    "~/.pi/agent/sessions"@
}

/// Whether `expanded` is what tilde expansion can make of `path`: a path that
/// does not start with `~`, or starts with `~` followed by anything but `/`,
/// stays as it is; in `~` or `~/...` the `~` is replaced by the home
/// directory, if there is one.
pub open spec fn is_tilde_expansion(path: Seq<char>, expanded: Seq<char>) -> bool {
    if path.len() > 0 && path[0] == '~' && (path.len() == 1 || path[1] == '/') {
        exists|home: Seq<char>| expanded == home + path.drop_first()
    } else {
        expanded == path
    }
}

/// Expands a leading `~` with `shellexpand::tilde`. Claims what the crate's
/// source shows on Unix: text that does not start with `~`, or starts with
/// `~` and another character than `/`, is returned unchanged; otherwise the
/// `~` is replaced by the home directory when one is known, and the text is
/// returned unchanged when not. Which home directory that is depends on the
/// environment and is not stated.
#[verifier::external_body]
fn expand_tilde(path: &str) -> (r: String)
    ensures
        is_tilde_expansion(path@, r@),
{
    shellexpand::tilde(path).into_owned()
}

/// The directory named for session files: the configured one, else the one
/// from the environment, else the default.
pub open spec fn chosen_session_dir(configured: Option<Seq<char>>, from_env: Option<Seq<char>>) -> Seq<char> {
    match configured {
        Some(d) => d,
        None => match from_env {
            Some(d) => d,
            None => default_session_dir(),
        },
    }
}

/// The file name of an agent's session file.
pub open spec fn session_file_name_of(id: AgentId) -> Seq<char> {
    uuid_hyphenated(id) + ".jsonl"@
}

impl RpcBridge {
    /// A bridge with no sessions.
    pub fn new(config: PiConfig) -> (r: Self)
        ensures
            r.session_ids() == Set::<AgentId>::empty(),
            r.config() == config,
    {
        RpcBridge { sessions: HashMap::new(), config }
    }

    /// The agents that have a session.
    pub closed spec fn session_ids(&self) -> Set<AgentId> {
        self.sessions@.dom()
    }

    /// The session of an agent.
    pub closed spec fn session(&self, id: AgentId) -> PiSessionHandle {
        self.sessions@[id]
    }

    /// The configuration sessions are started with.
    pub closed spec fn config(&self) -> PiConfig {
        self.config
    }

    /// The configuration sessions are started with.
    pub fn get_config(&self) -> (r: &PiConfig)
        ensures
            *r == self.config(),
    {
        &self.config
    }

    /// Records a session that was just started for an agent, in the given file.
    pub fn register_session(&mut self, agent_id: AgentId, session_path: String)
        ensures
            final(self).session_ids() == old(self).session_ids().insert(agent_id),
            final(self).session(agent_id).id == agent_id,
            final(self).session(agent_id).session_path@ == session_path@,
            final(self).session(agent_id).is_alive,
            forall|other: AgentId| other != agent_id ==> #[trigger] final(self).session(other) == old(self).session(other),
            final(self).config() == old(self).config(),
    {
        let handle = PiSessionHandle { id: agent_id, session_path, is_alive: true };
        self.sessions.insert(agent_id, handle);
    }

    /// Whether an agent has a session.
    pub fn has_session(&self, agent_id: &AgentId) -> (r: bool)
        ensures
            r == self.session_ids().contains(*agent_id),
    {
        self.sessions.contains_key(agent_id)
    }

    /// The file of an agent's session, if it has one.
    pub fn session_path(&self, agent_id: &AgentId) -> (r: Option<String>)
        ensures
            match r {
                Some(p) => self.session_ids().contains(*agent_id) && p@ == self.session(*agent_id).session_path@,
                None => !self.session_ids().contains(*agent_id),
            },
    {
        match self.sessions.get(agent_id) {
            Some(h) => Some(h.session_path.clone()),
            None => None,
        }
    }

    /// Forgets an agent's session.
    pub fn close_session(&mut self, agent_id: &AgentId)
        ensures
            final(self).session_ids() == old(self).session_ids().remove(*agent_id),
            forall|other: AgentId| other != *agent_id ==> #[trigger] final(self).session(other) == old(self).session(other),
            final(self).config() == old(self).config(),
    {
        let _ = self.sessions.remove(agent_id);
    }

    /// The directory that session files go to, given the value of
    /// `PI_SESSION_DIR` in the environment, with a leading `~` expanded.
    pub fn session_dir(&self, env_session_dir: Option<String>) -> (r: String)
        ensures
            is_tilde_expansion(
                chosen_session_dir(crate::agent::opt_text(self.config().session_file), crate::agent::opt_text(env_session_dir)),
                r@,
            ),
    {
        let dir = match &self.config.session_file {
            Some(d) => d.clone(),
            None => match env_session_dir {
                Some(d) => d,
                None => String::from_str("~/.pi/agent/sessions"),
            },
        };
        expand_tilde(dir.as_str())
    }

    /// The file name of an agent's session file: its identifier and `.jsonl`.
    pub fn session_file_name(agent_id: AgentId) -> (r: String)
        ensures
            r@ == session_file_name_of(agent_id),
    {
        let name = uuid_to_text(agent_id);
        name.concat(".jsonl")
    }
}

} // verus!
