//! The reproduction engine: derives a child configuration from a parent's
//! and commits the paired parent-debit / child-creation as one atomic
//! operation.

use crate::agent::Agent;
use crate::agent::BroodError;
use crate::agent::MAX_NAME_LEN;
use crate::agent::MIN_OPERATING_RESERVE;
use crate::agent::MIN_SPAWN_SEED;
use crate::agent::agent_wf;
use crate::agent::evolves;
use crate::laws::lemma_mutation_within_intensity;
use crate::ledger::name_valid;
use crate::params::mutate_params;
use crate::params::spec_mutate_value;
use crate::params::within_mutation_range;
use crate::params::MAX_MUTATION_RATE;
use vstd::prelude::*;

verus! {

/// The spawn preconditions, in the order they are checked: the caller owns
/// the parent, the parent is alive, its treasury covers the seed while
/// keeping the operating reserve, the seed meets the minimum viable
/// amount, and the child's name fits its bound.
pub open spec fn spawn_allowed(
    parent: Agent,
    caller: u64,
    child_name: Seq<char>,
    seed_amount: u64,
) -> bool {
    &&& caller == parent.owner
    &&& parent.is_alive
    &&& parent.treasury >= seed_amount + MIN_OPERATING_RESERVE
    &&& seed_amount >= MIN_SPAWN_SEED
    &&& child_name.len() <= MAX_NAME_LEN
}

/// Spawn a child agent: one atomic transaction that debits the parent's
/// treasury by `seed_amount`, advances its spawn counter, and creates the
/// child with the seed as its whole starting treasury, the next
/// generation number, and a configuration mutated from the parent's with
/// intensity `mutation_rate` from the environment-supplied `seed`. The
/// preconditions are checked in order before anything is written — first
/// failure wins and the parent is left untouched, so no state ever shows a
/// debited parent without its child or the reverse.
pub fn spawn(
    parent: &mut Agent,
    caller: u64,
    child_id: u64,
    child_name: String,
    seed_amount: u64,
    mutation_rate: u8,
    seed: u64,
    now: i64,
) -> (r: Result<Agent, BroodError>)
    requires
        agent_wf(*old(parent)),
        now >= old(parent).last_active,
        mutation_rate <= MAX_MUTATION_RATE,
        spawn_allowed(*old(parent), caller, child_name@, seed_amount) ==> ({
            &&& old(parent).generation < u32::MAX
            &&& old(parent).spawn_count < u32::MAX
        }),
    ensures
        agent_wf(*final(parent)),
        evolves(*old(parent), *final(parent)),
        r is Err ==> *final(parent) == *old(parent),
        r is Ok <==> spawn_allowed(*old(parent), caller, child_name@, seed_amount),
        caller != old(parent).owner <==> r == Err::<Agent, BroodError>(BroodError::Unauthorized),
        caller == old(parent).owner && !old(parent).is_alive <==> r == Err::<Agent, BroodError>(
            BroodError::AgentDead,
        ),
        caller == old(parent).owner && old(parent).is_alive && old(parent).treasury < seed_amount
            + MIN_OPERATING_RESERVE <==> r == Err::<Agent, BroodError>(
            BroodError::InsufficientTreasury,
        ),
        caller == old(parent).owner && old(parent).is_alive && old(parent).treasury >= seed_amount
            + MIN_OPERATING_RESERVE && seed_amount < MIN_SPAWN_SEED <==> r == Err::<
            Agent,
            BroodError,
        >(BroodError::InsufficientSpawnSeed),
        caller == old(parent).owner && old(parent).is_alive && old(parent).treasury >= seed_amount
            + MIN_OPERATING_RESERVE && seed_amount >= MIN_SPAWN_SEED && child_name@.len()
            > MAX_NAME_LEN <==> r == Err::<Agent, BroodError>(BroodError::Validation),
        r is Ok ==> ({
            let child = r->Ok_0;
            &&& final(parent).treasury == old(parent).treasury - seed_amount
            &&& final(parent).treasury >= MIN_OPERATING_RESERVE
            &&& final(parent).spawn_count == old(parent).spawn_count + 1
            &&& final(parent).last_active == now
            &&& final(parent).is_alive
            &&& final(parent).total_earnings == old(parent).total_earnings
            &&& final(parent).total_costs == old(parent).total_costs
            &&& final(parent).service_count == old(parent).service_count
            &&& final(parent).performance_score == old(parent).performance_score
            &&& final(parent).params == old(parent).params
            &&& child.id == child_id
            &&& child.owner == old(parent).owner
            &&& child.parent == Some(old(parent).id)
            &&& child.generation == old(parent).generation + 1
            &&& child.name == child_name
            &&& child.treasury == seed_amount
            &&& final(parent).treasury + child.treasury == old(parent).treasury
            &&& child.total_earnings == 0
            &&& child.total_costs == 0
            &&& child.spawn_count == 0
            &&& child.service_count == 0
            &&& child.performance_score == 0
            &&& child.created_at == now
            &&& child.last_active == now
            &&& old(parent).created_at <= child.created_at
            &&& child.is_alive
            &&& agent_wf(child)
            &&& child.params.strategy_type == old(parent).params.strategy_type
            &&& child.params.risk_tolerance == spec_mutate_value(
                old(parent).params.risk_tolerance,
                mutation_rate,
                seed,
            )
            &&& child.params.trade_frequency == spec_mutate_value(
                old(parent).params.trade_frequency,
                mutation_rate,
                seed.wrapping_add(1),
            )
            &&& child.params.profit_target == spec_mutate_value(
                old(parent).params.profit_target,
                mutation_rate,
                seed.wrapping_add(2),
            )
            &&& child.params.stop_loss == spec_mutate_value(
                old(parent).params.stop_loss,
                mutation_rate,
                seed.wrapping_add(3),
            )
            &&& within_mutation_range(
                old(parent).params.risk_tolerance,
                child.params.risk_tolerance,
                mutation_rate,
            )
            &&& within_mutation_range(
                old(parent).params.trade_frequency,
                child.params.trade_frequency,
                mutation_rate,
            )
            &&& within_mutation_range(
                old(parent).params.profit_target,
                child.params.profit_target,
                mutation_rate,
            )
            &&& within_mutation_range(
                old(parent).params.stop_loss,
                child.params.stop_loss,
                mutation_rate,
            )
        }),
{
    if caller != parent.owner {
        return Err(BroodError::Unauthorized);
    }
    if !parent.is_alive {
        return Err(BroodError::AgentDead);
    }
    if seed_amount > u64::MAX - MIN_OPERATING_RESERVE || parent.treasury < seed_amount
        + MIN_OPERATING_RESERVE {
        return Err(BroodError::InsufficientTreasury);
    }
    if seed_amount < MIN_SPAWN_SEED {
        return Err(BroodError::InsufficientSpawnSeed);
    }
    if !name_valid(&child_name) {
        return Err(BroodError::Validation);
    }
    proof {
        lemma_mutation_within_intensity(parent.params.risk_tolerance, mutation_rate, seed);
        lemma_mutation_within_intensity(
            parent.params.trade_frequency,
            mutation_rate,
            seed.wrapping_add(1),
        );
        lemma_mutation_within_intensity(
            parent.params.profit_target,
            mutation_rate,
            seed.wrapping_add(2),
        );
        lemma_mutation_within_intensity(
            parent.params.stop_loss,
            mutation_rate,
            seed.wrapping_add(3),
        );
    }
    let mutated_params = mutate_params(&parent.params, mutation_rate, seed);
    let child = Agent {
        id: child_id,
        owner: parent.owner,
        parent: Some(parent.id),
        generation: parent.generation + 1,
        name: child_name,
        params: mutated_params,
        treasury: seed_amount,
        total_earnings: 0,
        total_costs: 0,
        spawn_count: 0,
        service_count: 0,
        performance_score: 0,
        created_at: now,
        last_active: now,
        is_alive: true,
    };
    parent.treasury = parent.treasury - seed_amount;
    parent.spawn_count = parent.spawn_count + 1;
    parent.last_active = now;
    Ok(child)
}

} // verus!
