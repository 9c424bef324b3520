//! The ledger operations: the atomic state transitions an agent record can
//! take, from creation through funding, earning, spending, configuration
//! updates, performance reporting, and death.
//!
//! Every operation is check-then-act: all preconditions are tested before
//! anything is written, so a refused operation leaves the record exactly as
//! it was. The external collaborators enter as plain arguments: the caller's
//! verified identity, the value-transfer outcome, and the clock's timestamp
//! (which the clock collaborator guarantees never runs backwards, hence the
//! `now` preconditions).

use crate::agent::Agent;
use crate::agent::BroodError;
use crate::agent::MAX_NAME_LEN;
use crate::agent::agent_wf;
use crate::agent::evolves;
use crate::params::AgentParams;
use crate::params::STRATEGY_TYPE_COUNT;
use crate::params::TRAIT_MAX;
use crate::params::TRAIT_MIN;
use crate::params::params_wf;
use vstd::prelude::*;

verus! {

/// What a successful cost deduction did to the agent: death by depletion is
/// a successful deduction, distinguishable from an ordinary one.
#[derive(Clone, Copy, Debug, PartialEq, Eq, Structural)]
pub enum DeductOutcome {
    /// The treasury still holds value; the agent lives on.
    Survived,
    /// The deduction emptied the treasury exactly; the agent is now dead.
    Died,
}

/// Whether a configuration lies within its bounds.
pub fn params_valid(p: &AgentParams) -> (b: bool)
    ensures
        b == params_wf(*p),
{
    TRAIT_MIN <= p.risk_tolerance && p.risk_tolerance <= TRAIT_MAX && TRAIT_MIN
        <= p.trade_frequency && p.trade_frequency <= TRAIT_MAX && TRAIT_MIN <= p.profit_target
        && p.profit_target <= TRAIT_MAX && TRAIT_MIN <= p.stop_loss && p.stop_loss <= TRAIT_MAX
        && p.strategy_type < STRATEGY_TYPE_COUNT
}

/// Whether a display name fits within `MAX_NAME_LEN` characters.
pub fn name_valid(name: &String) -> (b: bool)
    ensures
        b == (name@.len() <= MAX_NAME_LEN),
{
    name.as_str().unicode_len() <= MAX_NAME_LEN
}

/// Create a founding agent: generation 1, no parent, empty treasury, all
/// counters zero, alive, both timestamps at `now`. Refused, touching
/// nothing, when the name exceeds its bound or a configuration trait lies
/// outside its range.
pub fn create_agent(id: u64, owner: u64, name: String, initial_params: AgentParams, now: i64) -> (r:
    Result<Agent, BroodError>)
    ensures
        r is Err <==> !(name@.len() <= MAX_NAME_LEN && params_wf(initial_params)),
        r is Err ==> r == Err::<Agent, BroodError>(BroodError::Validation),
        r is Ok ==> ({
            let a = r->Ok_0;
            &&& a.id == id
            &&& a.owner == owner
            &&& a.parent is None
            &&& a.generation == 1
            &&& a.name == name
            &&& a.params == initial_params
            &&& a.treasury == 0
            &&& a.total_earnings == 0
            &&& a.total_costs == 0
            &&& a.spawn_count == 0
            &&& a.service_count == 0
            &&& a.performance_score == 0
            &&& a.created_at == now
            &&& a.last_active == now
            &&& a.is_alive
            &&& agent_wf(a)
        }),
{
    if !name_valid(&name) || !params_valid(&initial_params) {
        return Err(BroodError::Validation);
    }
    Ok(
        Agent {
            id,
            owner,
            parent: None,
            generation: 1,
            name,
            params: initial_params,
            treasury: 0,
            total_earnings: 0,
            total_costs: 0,
            spawn_count: 0,
            service_count: 0,
            performance_score: 0,
            created_at: now,
            last_active: now,
            is_alive: true,
        },
    )
}

/// Credit the treasury with `amount` units that the value-transfer
/// collaborator moved from a funder; `transfer_ok` is that collaborator's
/// verdict. Funding does not require a living agent: reviving a dead
/// agent's balance does not revive its liveness. A failed transfer is
/// surfaced verbatim and nothing changes.
pub fn fund_treasury(agent: &mut Agent, amount: u64, transfer_ok: bool, now: i64) -> (r: Result<
    (),
    BroodError,
>)
    requires
        agent_wf(*old(agent)),
        now >= old(agent).last_active,
        transfer_ok ==> old(agent).treasury + amount <= u64::MAX,
    ensures
        agent_wf(*final(agent)),
        evolves(*old(agent), *final(agent)),
        r is Err ==> *final(agent) == *old(agent),
        !transfer_ok <==> r == Err::<(), BroodError>(BroodError::TransferFailed),
        transfer_ok ==> ({
            &&& r is Ok
            &&& final(agent).treasury == old(agent).treasury + amount
            &&& final(agent).last_active == now
            &&& final(agent).is_alive == old(agent).is_alive
            &&& final(agent).total_earnings == old(agent).total_earnings
            &&& final(agent).total_costs == old(agent).total_costs
            &&& final(agent).spawn_count == old(agent).spawn_count
            &&& final(agent).service_count == old(agent).service_count
            &&& final(agent).performance_score == old(agent).performance_score
            &&& final(agent).params == old(agent).params
        }),
{
    if !transfer_ok {
        return Err(BroodError::TransferFailed);
    }
    agent.treasury = agent.treasury + amount;
    agent.last_active = now;
    Ok(())
}

/// Record a paid service: the user's payment, already moved to the treasury
/// by the value-transfer collaborator when `transfer_ok` holds, is credited
/// to the treasury and to lifetime earnings, the service counter advances,
/// and the agent is marked active at `now`. Dead agents cannot earn.
pub fn pay_for_service(agent: &mut Agent, amount: u64, transfer_ok: bool, now: i64) -> (r: Result<
    (),
    BroodError,
>)
    requires
        agent_wf(*old(agent)),
        now >= old(agent).last_active,
        old(agent).is_alive && transfer_ok ==> ({
            &&& old(agent).treasury + amount <= u64::MAX
            &&& old(agent).total_earnings + amount <= u64::MAX
            &&& old(agent).service_count < u64::MAX
        }),
    ensures
        agent_wf(*final(agent)),
        evolves(*old(agent), *final(agent)),
        r is Err ==> *final(agent) == *old(agent),
        !old(agent).is_alive <==> r == Err::<(), BroodError>(BroodError::AgentDead),
        old(agent).is_alive && !transfer_ok <==> r == Err::<(), BroodError>(
            BroodError::TransferFailed,
        ),
        old(agent).is_alive && transfer_ok ==> ({
            &&& r is Ok
            &&& final(agent).treasury == old(agent).treasury + amount
            &&& final(agent).total_earnings == old(agent).total_earnings + amount
            &&& final(agent).service_count == old(agent).service_count + 1
            &&& final(agent).last_active == now
            &&& final(agent).is_alive
            &&& final(agent).total_costs == old(agent).total_costs
            &&& final(agent).spawn_count == old(agent).spawn_count
            &&& final(agent).performance_score == old(agent).performance_score
            &&& final(agent).params == old(agent).params
        }),
{
    if !agent.is_alive {
        return Err(BroodError::AgentDead);
    }
    if !transfer_ok {
        return Err(BroodError::TransferFailed);
    }
    agent.treasury = agent.treasury + amount;
    agent.total_earnings = agent.total_earnings + amount;
    agent.service_count = agent.service_count + 1;
    agent.last_active = now;
    Ok(())
}

/// Deduct operating costs from the treasury: the owner spends `amount`,
/// lifetime costs grow by the same, and if the treasury lands on exactly
/// zero the agent dies in the same atomic step. Spending more than the
/// treasury holds, spending through a dead agent, and spending by anyone
/// but the owner are refused, touching nothing.
pub fn deduct_costs(agent: &mut Agent, caller: u64, amount: u64, now: i64) -> (r: Result<
    DeductOutcome,
    BroodError,
>)
    requires
        agent_wf(*old(agent)),
        now >= old(agent).last_active,
        caller == old(agent).owner && old(agent).is_alive && amount <= old(agent).treasury
            ==> old(agent).total_costs + amount <= u64::MAX,
    ensures
        agent_wf(*final(agent)),
        evolves(*old(agent), *final(agent)),
        r is Err ==> *final(agent) == *old(agent),
        caller != old(agent).owner <==> r == Err::<DeductOutcome, BroodError>(
            BroodError::Unauthorized,
        ),
        caller == old(agent).owner && !old(agent).is_alive <==> r == Err::<
            DeductOutcome,
            BroodError,
        >(BroodError::AgentDead),
        caller == old(agent).owner && old(agent).is_alive && amount > old(agent).treasury <==> r
            == Err::<DeductOutcome, BroodError>(BroodError::InsufficientTreasury),
        caller == old(agent).owner && old(agent).is_alive && amount <= old(agent).treasury ==> ({
            &&& r is Ok
            &&& final(agent).treasury == old(agent).treasury - amount
            &&& final(agent).total_costs == old(agent).total_costs + amount
            &&& final(agent).last_active == now
            &&& final(agent).is_alive == (old(agent).treasury - amount > 0)
            &&& (r->Ok_0 is Died <==> amount == old(agent).treasury)
            &&& final(agent).total_earnings == old(agent).total_earnings
            &&& final(agent).spawn_count == old(agent).spawn_count
            &&& final(agent).service_count == old(agent).service_count
            &&& final(agent).performance_score == old(agent).performance_score
            &&& final(agent).params == old(agent).params
        }),
        caller == old(agent).owner && old(agent).is_alive && amount == old(agent).treasury ==> (
        final(agent).treasury == 0 && !final(agent).is_alive),
        caller == old(agent).owner && old(agent).is_alive && amount < old(agent).treasury
            ==> final(agent).is_alive,
{
    if caller != agent.owner {
        return Err(BroodError::Unauthorized);
    }
    if !agent.is_alive {
        return Err(BroodError::AgentDead);
    }
    if amount > agent.treasury {
        return Err(BroodError::InsufficientTreasury);
    }
    agent.treasury = agent.treasury - amount;
    agent.total_costs = agent.total_costs + amount;
    agent.last_active = now;
    if agent.treasury == 0 {
        agent.is_alive = false;
        Ok(DeductOutcome::Died)
    } else {
        Ok(DeductOutcome::Survived)
    }
}

/// Replace the configuration wholesale. Only the living agent's owner may
/// update it, and the replacement must itself lie within the trait bounds.
pub fn update_configuration(
    agent: &mut Agent,
    caller: u64,
    new_params: AgentParams,
    now: i64,
) -> (r: Result<(), BroodError>)
    requires
        agent_wf(*old(agent)),
        now >= old(agent).last_active,
    ensures
        agent_wf(*final(agent)),
        evolves(*old(agent), *final(agent)),
        r is Err ==> *final(agent) == *old(agent),
        caller != old(agent).owner <==> r == Err::<(), BroodError>(BroodError::Unauthorized),
        caller == old(agent).owner && !old(agent).is_alive <==> r == Err::<(), BroodError>(
            BroodError::AgentDead,
        ),
        caller == old(agent).owner && old(agent).is_alive && !params_wf(new_params) <==> r == Err::<
            (),
            BroodError,
        >(BroodError::Validation),
        caller == old(agent).owner && old(agent).is_alive && params_wf(new_params) ==> ({
            &&& r is Ok
            &&& final(agent).params == new_params
            &&& final(agent).last_active == now
            &&& final(agent).is_alive
            &&& final(agent).treasury == old(agent).treasury
            &&& final(agent).total_earnings == old(agent).total_earnings
            &&& final(agent).total_costs == old(agent).total_costs
            &&& final(agent).spawn_count == old(agent).spawn_count
            &&& final(agent).service_count == old(agent).service_count
            &&& final(agent).performance_score == old(agent).performance_score
        }),
{
    if caller != agent.owner {
        return Err(BroodError::Unauthorized);
    }
    if !agent.is_alive {
        return Err(BroodError::AgentDead);
    }
    if !params_valid(&new_params) {
        return Err(BroodError::Validation);
    }
    agent.params = new_params;
    agent.last_active = now;
    Ok(())
}

/// Kill the agent by owner action, whatever its treasury holds. Killing an
/// already-dead agent is an idempotent no-op, not an error; only the owner
/// check can refuse the operation.
pub fn kill_agent(agent: &mut Agent, caller: u64) -> (r: Result<(), BroodError>)
    requires
        agent_wf(*old(agent)),
    ensures
        agent_wf(*final(agent)),
        evolves(*old(agent), *final(agent)),
        r is Err ==> *final(agent) == *old(agent),
        caller != old(agent).owner <==> r == Err::<(), BroodError>(BroodError::Unauthorized),
        caller == old(agent).owner ==> ({
            &&& r is Ok
            &&& !final(agent).is_alive
            &&& final(agent).treasury == old(agent).treasury
            &&& final(agent).total_earnings == old(agent).total_earnings
            &&& final(agent).total_costs == old(agent).total_costs
            &&& final(agent).spawn_count == old(agent).spawn_count
            &&& final(agent).service_count == old(agent).service_count
            &&& final(agent).performance_score == old(agent).performance_score
            &&& final(agent).params == old(agent).params
            &&& final(agent).last_active == old(agent).last_active
        }),
{
    if caller != agent.owner {
        return Err(BroodError::Unauthorized);
    }
    agent.is_alive = false;
    Ok(())
}

/// Record a profit-or-loss outcome into the performance accumulator, which
/// never gates liveness and never touches the treasury. Owner-gated;
/// refused on a dead agent.
pub fn record_outcome(agent: &mut Agent, caller: u64, profit: i64, now: i64) -> (r: Result<
    (),
    BroodError,
>)
    requires
        agent_wf(*old(agent)),
        now >= old(agent).last_active,
        caller == old(agent).owner && old(agent).is_alive
            ==> i64::MIN <= old(agent).performance_score + profit <= i64::MAX,
    ensures
        agent_wf(*final(agent)),
        evolves(*old(agent), *final(agent)),
        r is Err ==> *final(agent) == *old(agent),
        caller != old(agent).owner <==> r == Err::<(), BroodError>(BroodError::Unauthorized),
        caller == old(agent).owner && !old(agent).is_alive <==> r == Err::<(), BroodError>(
            BroodError::AgentDead,
        ),
        caller == old(agent).owner && old(agent).is_alive ==> ({
            &&& r is Ok
            &&& final(agent).performance_score == old(agent).performance_score + profit
            &&& final(agent).last_active == now
            &&& final(agent).is_alive
            &&& final(agent).treasury == old(agent).treasury
            &&& final(agent).total_earnings == old(agent).total_earnings
            &&& final(agent).total_costs == old(agent).total_costs
            &&& final(agent).spawn_count == old(agent).spawn_count
            &&& final(agent).service_count == old(agent).service_count
            &&& final(agent).params == old(agent).params
        }),
{
    if caller != agent.owner {
        return Err(BroodError::Unauthorized);
    }
    if !agent.is_alive {
        return Err(BroodError::AgentDead);
    }
    agent.performance_score = agent.performance_score + profit;
    agent.last_active = now;
    Ok(())
}

} // verus!
