//! The library's general laws, stated and proved once so that callers can
//! chain them over whole histories of operations.

use crate::agent::Agent;
use crate::agent::evolves;
use crate::params::MAX_MUTATION_RATE;
use crate::params::TRAIT_MAX;
use crate::params::TRAIT_MIN;
use crate::params::mutation_offset;
use crate::params::spec_mutate_value;
use crate::params::within_mutation_range;
use vstd::prelude::*;

verus! {

/// Evolution composes: a record that moves `a` to `b` under one operation
/// and `b` to `c` under another has moved `a` to `c` within the same
/// bounds. Every mutating operation of this crate ensures
/// `evolves(old, new)`, so by chaining this lemma over any sequence of
/// operations: the treasury stays non-negative after every step (it is an
/// unsigned count by construction), the lifetime earning and cost counters
/// never decrease, and identity, genealogy and creation time never change.
pub proof fn lemma_evolution_transitive(a: Agent, b: Agent, c: Agent)
    requires
        evolves(a, b),
        evolves(b, c),
    ensures
        evolves(a, c),
{
}

/// Death is terminal: across any single operation, and hence by
/// `lemma_evolution_transitive` across any sequence of them, an agent that
/// is dead stays dead. The operations that act through an agent refuse a
/// dead one outright; this law adds that no operation, whatever it returns,
/// can bring one back.
pub proof fn lemma_death_is_terminal(a: Agent, b: Agent)
    requires
        evolves(a, b),
        !a.is_alive,
    ensures
        !b.is_alive,
{
}

/// Mutation stays within its intensity band: whatever seed the environment
/// supplies, a trait mutated with intensity `rate` lands between the
/// parent's value lowered by `rate` and raised by `rate`, both ends pulled
/// back into the trait range.
pub proof fn lemma_mutation_within_intensity(value: u8, rate: u8, seed: u64)
    requires
        TRAIT_MIN <= value <= TRAIT_MAX,
        rate <= MAX_MUTATION_RATE,
    ensures
        within_mutation_range(value, spec_mutate_value(value, rate, seed), rate),
        TRAIT_MIN <= spec_mutate_value(value, rate, seed) <= TRAIT_MAX,
{
    let span: int = 2 * rate + 1;
    vstd::arithmetic::div_mod::lemma_mod_bound(seed as int, span);
    assert(-rate <= mutation_offset(rate, seed) <= rate);
}

} // verus!
