//! The agent record: identity, genealogy, configuration, treasury, lifetime
//! counters, and liveness, together with the invariants every operation
//! preserves and the error taxonomy the operations report.

use crate::params::AgentParams;
use crate::params::params_wf;
use vstd::prelude::*;

verus! {

/// Longest display name an agent may carry, in characters.
pub const MAX_NAME_LEN: usize = 32;

/// Smallest treasury a parent must retain after funding a spawn, so that a
/// spawn can never kill the parent outright.
pub const MIN_OPERATING_RESERVE: u64 = 50_000_000;

/// Smallest seed a spawn may commit: the minimum viable starting treasury
/// for any new agent.
pub const MIN_SPAWN_SEED: u64 = 100_000_000;

/// Why an operation was refused. Every failure is reported before any state
/// is touched: a refused operation leaves every record exactly as it was.
#[derive(Clone, Copy, Debug, PartialEq, Eq, Structural)]
pub enum BroodError {
    /// A bounded input field exceeds its limit.
    Validation,
    /// The caller is not the registered owner of the target agent.
    Unauthorized,
    /// The operation requires a living agent but the target is dead.
    AgentDead,
    /// A debit would take more value than the treasury holds, after any
    /// required reserve.
    InsufficientTreasury,
    /// A spawn's requested seed is below the minimum viable amount.
    InsufficientSpawnSeed,
    /// The external value-transfer collaborator could not move the funds.
    TransferFailed,
}

/// The sole entity of the ledger. Identity, ownership, genealogy, name and
/// creation time are fixed at birth; treasury, counters, configuration,
/// activity time and liveness move only through the ledger operations.
#[derive(Clone, Debug)]
pub struct Agent {
    /// Opaque unique identity, assigned at creation.
    pub id: u64,
    /// Identity of the controlling principal; gates owner-restricted
    /// operations.
    pub owner: u64,
    /// The progenitor's `id`, or `None` for a founding agent.
    pub parent: Option<u64>,
    /// Distance in spawn steps from a founding agent; founding agents are
    /// generation 1.
    pub generation: u32,
    /// Short display label, at most `MAX_NAME_LEN` characters.
    pub name: String,
    /// The behavioural parameter vector, mutated only by explicit update or
    /// at spawn-time derivation.
    pub params: AgentParams,
    /// Current spendable balance of value units.
    pub treasury: u64,
    /// Lifetime earnings; never decreases.
    pub total_earnings: u64,
    /// Lifetime costs; never decreases.
    pub total_costs: u64,
    /// Children spawned; never decreases.
    pub spawn_count: u32,
    /// Services rendered; never decreases.
    pub service_count: u64,
    /// Signed accumulator of reported profit and loss; never gates
    /// liveness.
    pub performance_score: i64,
    /// Timestamp of creation.
    pub created_at: i64,
    /// Timestamp of the last treasury- or activity-affecting operation.
    pub last_active: i64,
    /// Liveness flag: true at creation, permanently false after death.
    pub is_alive: bool,
}

/// Well-formedness of a single record: what creation establishes and every
/// operation preserves.
pub open spec fn agent_wf(a: Agent) -> bool {
    &&& a.generation >= 1
    &&& a.name@.len() <= MAX_NAME_LEN
    &&& params_wf(a.params)
    &&& a.created_at <= a.last_active
}

/// How any single ledger or engine operation may move a record: identity,
/// ownership, genealogy, name and creation time are immutable; the lifetime
/// counters and the activity timestamp never decrease; and death is
/// terminal. Chained over a sequence of operations (`laws` proves the
/// predicate transitive), this is the history invariant of an agent.
pub open spec fn evolves(pre: Agent, post: Agent) -> bool {
    &&& post.id == pre.id
    &&& post.owner == pre.owner
    &&& post.parent == pre.parent
    &&& post.generation == pre.generation
    &&& post.name == pre.name
    &&& post.created_at == pre.created_at
    &&& post.total_earnings >= pre.total_earnings
    &&& post.total_costs >= pre.total_costs
    &&& post.spawn_count >= pre.spawn_count
    &&& post.service_count >= pre.service_count
    &&& post.last_active >= pre.last_active
    &&& !pre.is_alive ==> !post.is_alive
}

} // verus!
