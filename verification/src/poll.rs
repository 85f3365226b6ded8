//! The bookkeeping of the agent poller: which agents showed activity since
//! the last capture of their terminal, which have a merge request found, and
//! when a deeper scan for one is due.
use vstd::prelude::*;
use vstd::string::*;
use std::collections::{HashMap, HashSet};
use crate::ids::{hex_digits, AgentId};

verus! {

/// How many poll ticks lie between two deep scans for merge-request URLs.
pub const DEEP_SCAN_INTERVAL: u32 = 20;

/// The state that the agent poller keeps between ticks.
pub struct AgentPollState {
    previous_content: HashMap<AgentId, u64>,
    agents_with_mr: HashSet<AgentId>,
    deep_scan_counter: u32,
}

/// The text of an identifier as 32 lowercase hex digits, by
/// `uuid::Uuid::from_u128(id).as_simple().to_string()`, which writes the
/// UUID's bytes as lowercase hex without hyphens.
#[verifier::external_body]
fn uuid_simple_text(id: AgentId) -> (r: String)
    ensures
        r@ == hex_digits(id as nat, 32),
{
    uuid::Uuid::from_u128(id).as_simple().to_string()
}

/// The name of the tmux session that runs an agent: `grove-` and the
/// agent's identifier as 32 hex digits.
pub fn tmux_session_name(id: AgentId) -> (r: String)
    ensures
        r@ == "grove-"@ + hex_digits(id as nat, 32),
{
    String::from_str("grove-").concat(uuid_simple_text(id).as_str())
}

impl AgentPollState {
    /// No captures seen, no merge requests found, no ticks counted.
    pub fn new() -> (r: Self)
        ensures
            r.captured() == Map::<AgentId, u64>::empty(),
            r.with_mr() == Set::<AgentId>::empty(),
            r.ticks() == 0,
    {
        AgentPollState { previous_content: HashMap::new(), agents_with_mr: HashSet::new(), deep_scan_counter: 0 }
    }

    /// The hash of the last terminal capture of each agent.
    pub closed spec fn captured(&self) -> Map<AgentId, u64> {
        self.previous_content@
    }

    /// The agents whose merge request URL was found.
    pub closed spec fn with_mr(&self) -> Set<AgentId> {
        self.agents_with_mr@
    }

    /// The number of ticks counted.
    pub closed spec fn ticks(&self) -> u32 {
        self.deep_scan_counter
    }

    /// Counts a new tick.
    pub fn start_tick(&mut self)
        requires
            old(self).ticks() < u32::MAX,
        ensures
            final(self).ticks() == old(self).ticks() + 1,
            final(self).captured() == old(self).captured(),
            final(self).with_mr() == old(self).with_mr(),
    {
        self.deep_scan_counter = self.deep_scan_counter + 1;
    }

    /// Records the hash of an agent's latest terminal capture and says
    /// whether it differs from the previous one (no previous capture counts
    /// as no activity).
    pub fn record_capture(&mut self, id: AgentId, content_hash: u64) -> (had_activity: bool)
        ensures
            had_activity == (old(self).captured().contains_key(id) && old(self).captured()[id] != content_hash),
            final(self).captured() == old(self).captured().insert(id, content_hash),
            final(self).with_mr() == old(self).with_mr(),
            final(self).ticks() == old(self).ticks(),
    {
        let had_activity = match self.previous_content.get(&id) {
            Some(prev) => *prev != content_hash,
            None => false,
        };
        self.previous_content.insert(id, content_hash);
        had_activity
    }

    /// Whether the agent's merge request URL is still to be found.
    pub fn needs_mr_scan(&self, id: &AgentId) -> (r: bool)
        ensures
            r == !self.with_mr().contains(*id),
    {
        !self.agents_with_mr.contains(id)
    }

    /// Whether a deep scan for the agent's merge request URL is due on this tick.
    pub fn deep_scan_due(&self, id: &AgentId) -> (r: bool)
        ensures
            r == (self.ticks() % DEEP_SCAN_INTERVAL == 0 && !self.with_mr().contains(*id)),
    {
        self.deep_scan_counter % DEEP_SCAN_INTERVAL == 0 && !self.agents_with_mr.contains(id)
    }

    /// Records that the agent's merge request URL was found.
    pub fn mark_mr_found(&mut self, id: AgentId)
        ensures
            final(self).with_mr() == old(self).with_mr().insert(id),
            final(self).captured() == old(self).captured(),
            final(self).ticks() == old(self).ticks(),
    {
        self.agents_with_mr.insert(id);
    }
}

/// Once an agent's merge request URL is found, no scan for it is due again.
pub proof fn lemma_found_mr_stops_scans(s: AgentPollState, id: AgentId)
    requires
        s.with_mr().contains(id),
    ensures
        !(s.ticks() % DEEP_SCAN_INTERVAL == 0 && !s.with_mr().contains(id)),
{
}

} // verus!
