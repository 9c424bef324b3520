//! Agent configuration ("genome"): a small vector of bounded numeric traits,
//! and the mutation algorithm that derives a child's configuration from its
//! parent's at spawn time.

use vstd::prelude::*;

verus! {

/// Smallest value a mutable trait may take.
pub const TRAIT_MIN: u8 = 1;

/// Largest value a mutable trait may take.
pub const TRAIT_MAX: u8 = 100;

/// Largest mutation intensity a caller may request, in trait units.
pub const MAX_MUTATION_RATE: u8 = 100;

/// The behavioural parameter vector an agent carries. The four numeric
/// traits each range over `TRAIT_MIN ..= TRAIT_MAX`; the strategy class is a
/// small discrete selector (conservative, balanced, or aggressive) that
/// spawning passes down unchanged.
#[derive(Clone, Copy, Debug, PartialEq, Eq, Structural)]
pub struct AgentParams {
    pub risk_tolerance: u8,
    pub trade_frequency: u8,
    pub profit_target: u8,
    pub stop_loss: u8,
    pub strategy_type: u8,
}

/// Number of strategy classes a configuration may select among.
pub const STRATEGY_TYPE_COUNT: u8 = 3;

/// Well-formedness of a configuration: every numeric trait within its range
/// and the strategy class among the known ones.
pub open spec fn params_wf(p: AgentParams) -> bool {
    &&& TRAIT_MIN <= p.risk_tolerance <= TRAIT_MAX
    &&& TRAIT_MIN <= p.trade_frequency <= TRAIT_MAX
    &&& TRAIT_MIN <= p.profit_target <= TRAIT_MAX
    &&& TRAIT_MIN <= p.stop_loss <= TRAIT_MAX
    &&& p.strategy_type < STRATEGY_TYPE_COUNT
}

/// A trait value pulled back into its range.
pub open spec fn clamp_trait(x: int) -> u8 {
    if x < TRAIT_MIN {
        TRAIT_MIN
    } else if x > TRAIT_MAX {
        TRAIT_MAX
    } else {
        x as u8
    }
}

/// The signed offset a seed draws for one trait: uniform over
/// `-rate ..= rate` as the seed ranges over its residues modulo
/// `2 * rate + 1`.
pub open spec fn mutation_offset(rate: u8, seed: u64) -> int {
    (seed as int) % (2 * rate + 1) - rate
}

/// The mutated value of one trait: the parent's value shifted by the seed's
/// offset, clamped back into range.
pub open spec fn spec_mutate_value(value: u8, rate: u8, seed: u64) -> u8 {
    clamp_trait(value + mutation_offset(rate, seed))
}

/// Whether a child's trait lies within the band that a mutation of intensity
/// `rate` may reach from the parent's trait: between the parent's value
/// lowered by `rate` and raised by `rate`, both ends pulled back into range.
pub open spec fn within_mutation_range(parent_trait: u8, child_trait: u8, rate: u8) -> bool {
    clamp_trait(parent_trait - rate) <= child_trait <= clamp_trait(parent_trait + rate)
}

/// Mutate one bounded trait: shift `value` by a seed-drawn offset in
/// `-rate ..= rate` and clamp the result into `TRAIT_MIN ..= TRAIT_MAX`.
pub fn mutate_value(value: u8, rate: u8, seed: u64) -> (r: u8)
    requires
        rate <= MAX_MUTATION_RATE,
    ensures
        r == spec_mutate_value(value, rate, seed),
        TRAIT_MIN <= r <= TRAIT_MAX,
{
    let span: u64 = 2 * (rate as u64) + 1;
    let drawn: u64 = seed % span;
    let offset: i16 = (drawn as i16) - (rate as i16);
    let shifted: i16 = (value as i16) + offset;
    if shifted < TRAIT_MIN as i16 {
        TRAIT_MIN
    } else if shifted > TRAIT_MAX as i16 {
        TRAIT_MAX
    } else {
        shifted as u8
    }
}

/// Derive a child configuration from `parent`: every numeric trait is
/// perturbed independently, each from its own seed stream (the shared seed
/// advanced by a trait-specific offset, wrapping), so correlated traits do
/// not shift in lockstep; the strategy class is inherited unchanged.
pub fn mutate_params(parent: &AgentParams, mutation_rate: u8, seed: u64) -> (r: AgentParams)
    requires
        mutation_rate <= MAX_MUTATION_RATE,
    ensures
        r.risk_tolerance == spec_mutate_value(parent.risk_tolerance, mutation_rate, seed),
        r.trade_frequency == spec_mutate_value(
            parent.trade_frequency,
            mutation_rate,
            seed.wrapping_add(1),
        ),
        r.profit_target == spec_mutate_value(
            parent.profit_target,
            mutation_rate,
            seed.wrapping_add(2),
        ),
        r.stop_loss == spec_mutate_value(parent.stop_loss, mutation_rate, seed.wrapping_add(3)),
        r.strategy_type == parent.strategy_type,
        params_wf(*parent) ==> params_wf(r),
{
    AgentParams {
        risk_tolerance: mutate_value(parent.risk_tolerance, mutation_rate, seed),
        trade_frequency: mutate_value(parent.trade_frequency, mutation_rate, seed.wrapping_add(1)),
        profit_target: mutate_value(parent.profit_target, mutation_rate, seed.wrapping_add(2)),
        stop_loss: mutate_value(parent.stop_loss, mutation_rate, seed.wrapping_add(3)),
        strategy_type: parent.strategy_type,
    }
}

} // verus!
