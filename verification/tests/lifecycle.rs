use brood::agent::Agent;
use brood::agent::BroodError;
use brood::ledger::DeductOutcome;
use brood::ledger::create_agent;
use brood::ledger::deduct_costs;
use brood::ledger::fund_treasury;
use brood::ledger::kill_agent;
use brood::ledger::pay_for_service;
use brood::ledger::record_outcome;
use brood::ledger::update_configuration;
use brood::params::AgentParams;

fn base_params() -> AgentParams {
    AgentParams {
        risk_tolerance: 50,
        trade_frequency: 50,
        profit_target: 50,
        stop_loss: 50,
        strategy_type: 1,
    }
}

fn founder() -> Agent {
    create_agent(7, 3, "A1".to_owned(), base_params(), 1000).unwrap()
}

#[test]
fn founding_agent_starts_fresh() {
    let a = founder();
    assert_eq!(a.id, 7);
    assert_eq!(a.owner, 3);
    assert_eq!(a.parent, None);
    assert_eq!(a.generation, 1);
    assert_eq!(a.name, "A1");
    assert_eq!(a.params, base_params());
    assert_eq!(a.treasury, 0);
    assert_eq!(a.total_earnings, 0);
    assert_eq!(a.total_costs, 0);
    assert_eq!(a.spawn_count, 0);
    assert_eq!(a.service_count, 0);
    assert_eq!(a.performance_score, 0);
    assert_eq!(a.created_at, 1000);
    assert_eq!(a.last_active, 1000);
    assert!(a.is_alive);
}

#[test]
fn create_rejects_long_name() {
    let name: String = "x".repeat(33);
    let r = create_agent(7, 3, name, base_params(), 1000);
    assert_eq!(r.unwrap_err(), BroodError::Validation);
}

#[test]
fn create_accepts_name_at_bound() {
    let name: String = "x".repeat(32);
    let a = create_agent(7, 3, name.clone(), base_params(), 1000).unwrap();
    assert_eq!(a.name, name);
}

#[test]
fn create_rejects_out_of_range_params() {
    let mut p = base_params();
    p.risk_tolerance = 0;
    let r = create_agent(7, 3, "A1".to_owned(), p, 1000);
    assert_eq!(r.unwrap_err(), BroodError::Validation);

    let mut q = base_params();
    q.strategy_type = 3;
    let r2 = create_agent(7, 3, "A1".to_owned(), q, 1000);
    assert_eq!(r2.unwrap_err(), BroodError::Validation);
}

#[test]
fn funding_credits_treasury() {
    let mut a = founder();
    fund_treasury(&mut a, 100, true, 1001).unwrap();
    assert_eq!(a.treasury, 100);
    assert_eq!(a.total_earnings, 0);
    assert_eq!(a.last_active, 1001);
    assert!(a.is_alive);
}

#[test]
fn failed_transfer_funds_nothing() {
    let mut a = founder();
    let r = fund_treasury(&mut a, 100, false, 1001);
    assert_eq!(r.unwrap_err(), BroodError::TransferFailed);
    assert_eq!(a.treasury, 0);
    assert_eq!(a.last_active, 1000);
}

#[test]
fn funding_a_dead_agent_is_permitted() {
    let mut a = founder();
    kill_agent(&mut a, 3).unwrap();
    assert!(!a.is_alive);
    fund_treasury(&mut a, 500, true, 1002).unwrap();
    assert_eq!(a.treasury, 500);
    assert!(!a.is_alive, "a funded balance does not revive liveness");
}

#[test]
fn service_pay_credits_earnings_and_counter() {
    let mut a = founder();
    pay_for_service(&mut a, 40, true, 1001).unwrap();
    pay_for_service(&mut a, 0, true, 1002).unwrap();
    assert_eq!(a.treasury, 40);
    assert_eq!(a.total_earnings, 40);
    assert_eq!(a.service_count, 2);
    assert_eq!(a.last_active, 1002);
}

#[test]
fn dead_agent_cannot_earn() {
    let mut a = founder();
    kill_agent(&mut a, 3).unwrap();
    let r = pay_for_service(&mut a, 40, true, 1002);
    assert_eq!(r.unwrap_err(), BroodError::AgentDead);
    assert_eq!(a.treasury, 0);
    assert_eq!(a.total_earnings, 0);
    assert_eq!(a.service_count, 0);
}

#[test]
fn service_pay_surfaces_failed_transfer() {
    let mut a = founder();
    let r = pay_for_service(&mut a, 40, false, 1001);
    assert_eq!(r.unwrap_err(), BroodError::TransferFailed);
    assert_eq!(a.treasury, 0);
}

#[test]
fn fund_then_spend_to_death() {
    let mut a = founder();
    fund_treasury(&mut a, 100, true, 1001).unwrap();
    assert_eq!(a.treasury, 100);
    let outcome = deduct_costs(&mut a, 3, 100, 1002).unwrap();
    assert_eq!(outcome, DeductOutcome::Died);
    assert_eq!(a.treasury, 0);
    assert_eq!(a.total_costs, 100);
    assert!(!a.is_alive);
    let r = deduct_costs(&mut a, 3, 1, 1003);
    assert_eq!(r.unwrap_err(), BroodError::AgentDead);
    assert_eq!(a.treasury, 0);
}

#[test]
fn partial_deduction_leaves_agent_alive() {
    let mut a = founder();
    fund_treasury(&mut a, 100, true, 1001).unwrap();
    let outcome = deduct_costs(&mut a, 3, 99, 1002).unwrap();
    assert_eq!(outcome, DeductOutcome::Survived);
    assert_eq!(a.treasury, 1);
    assert!(a.is_alive);
}

#[test]
fn overdraft_is_refused() {
    let mut a = founder();
    fund_treasury(&mut a, 100, true, 1001).unwrap();
    let r = deduct_costs(&mut a, 3, 101, 1002);
    assert_eq!(r.unwrap_err(), BroodError::InsufficientTreasury);
    assert_eq!(a.treasury, 100);
    assert!(a.is_alive);
}

#[test]
fn deduction_is_owner_gated() {
    let mut a = founder();
    fund_treasury(&mut a, 100, true, 1001).unwrap();
    let r = deduct_costs(&mut a, 4, 10, 1002);
    assert_eq!(r.unwrap_err(), BroodError::Unauthorized);
    assert_eq!(a.treasury, 100);
}

#[test]
fn configuration_update_replaces_params() {
    let mut a = founder();
    let mut p = base_params();
    p.risk_tolerance = 80;
    update_configuration(&mut a, 3, p, 1001).unwrap();
    assert_eq!(a.params, p);
    assert_eq!(a.last_active, 1001);
}

#[test]
fn configuration_update_is_owner_gated() {
    let mut a = founder();
    let r = update_configuration(&mut a, 4, base_params(), 1001);
    assert_eq!(r.unwrap_err(), BroodError::Unauthorized);
    assert_eq!(a.params, base_params());
}

#[test]
fn dead_agent_cannot_update_configuration() {
    let mut a = founder();
    kill_agent(&mut a, 3).unwrap();
    let r = update_configuration(&mut a, 3, base_params(), 1002);
    assert_eq!(r.unwrap_err(), BroodError::AgentDead);
}

#[test]
fn configuration_update_rejects_out_of_range_params() {
    let mut a = founder();
    let mut p = base_params();
    p.stop_loss = 101;
    let r = update_configuration(&mut a, 3, p, 1001);
    assert_eq!(r.unwrap_err(), BroodError::Validation);
    assert_eq!(a.params, base_params());
}

#[test]
fn owner_may_kill_a_solvent_agent() {
    let mut a = founder();
    fund_treasury(&mut a, 100, true, 1001).unwrap();
    kill_agent(&mut a, 3).unwrap();
    assert!(!a.is_alive);
    assert_eq!(a.treasury, 100, "the treasury outlives the agent");
}

#[test]
fn killing_a_dead_agent_is_idempotent() {
    let mut a = founder();
    kill_agent(&mut a, 3).unwrap();
    kill_agent(&mut a, 3).unwrap();
    assert!(!a.is_alive);
}

#[test]
fn kill_is_owner_gated() {
    let mut a = founder();
    let r = kill_agent(&mut a, 4);
    assert_eq!(r.unwrap_err(), BroodError::Unauthorized);
    assert!(a.is_alive);
}

#[test]
fn outcomes_accumulate_signed() {
    let mut a = founder();
    record_outcome(&mut a, 3, 250, 1001).unwrap();
    record_outcome(&mut a, 3, -400, 1002).unwrap();
    assert_eq!(a.performance_score, -150);
    assert_eq!(a.treasury, 0, "performance is unrelated to the treasury");
    assert!(a.is_alive, "performance never gates liveness");
    assert_eq!(a.last_active, 1002);
}

#[test]
fn dead_agent_cannot_record_outcomes() {
    let mut a = founder();
    kill_agent(&mut a, 3).unwrap();
    let r = record_outcome(&mut a, 3, 250, 1002);
    assert_eq!(r.unwrap_err(), BroodError::AgentDead);
    assert_eq!(a.performance_score, 0);
}

#[test]
fn outcome_recording_is_owner_gated() {
    let mut a = founder();
    let r = record_outcome(&mut a, 4, 250, 1001);
    assert_eq!(r.unwrap_err(), BroodError::Unauthorized);
    assert_eq!(a.performance_score, 0);
}

#[test]
fn counters_never_decrease_over_a_history() {
    let mut a = founder();
    fund_treasury(&mut a, 1_000, true, 1001).unwrap();
    let mut earnings_floor: u64 = 0;
    let mut costs_floor: u64 = 0;
    for step in 0..10u64 {
        let now: i64 = 1002 + step as i64;
        if step % 2 == 0 {
            pay_for_service(&mut a, 10 * step, true, now).unwrap();
        } else {
            deduct_costs(&mut a, 3, 5 * step, now).unwrap();
        }
        assert!(a.total_earnings >= earnings_floor);
        assert!(a.total_costs >= costs_floor);
        earnings_floor = a.total_earnings;
        costs_floor = a.total_costs;
    }
}
