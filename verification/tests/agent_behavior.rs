use ai_ecosystem::agent::{AIEntity, ReplicationOutcome};
use ai_ecosystem::agent::replication_success_chance;
use ai_ecosystem::directives::{EthicalActionType, EthicalConditionType, EthicalDirective, EthicalDirectives};
use ai_ecosystem::discovery::{Discovery, DiscoveryName};
use ai_ecosystem::lineage::{AILineage, AIType};
use rand::rngs::StdRng;
use rand::SeedableRng;

fn fresh_agent(ty: AIType) -> AIEntity {
    let lineage = match ty {
        AIType::Base => AILineage::AI,
        AIType::Rogue => AILineage::RogueAI,
        AIType::Peacekeeper => AILineage::PeacekeeperAI,
        AIType::Killer => AILineage::KillerAI,
        AIType::Guardian => AILineage::GuardianAI,
        AIType::Manic => AILineage::ManicAI,
        AIType::Healer => AILineage::HealerAI,
        AIType::Researcher => AILineage::ResearcherAI,
    };
    AIEntity::new("test-agent".to_string(), lineage, ty, 0)
}

#[test]
fn new_agent_directives_sorted_descending() {
    let types = [
        AIType::Base,
        AIType::Rogue,
        AIType::Peacekeeper,
        AIType::Killer,
        AIType::Guardian,
        AIType::Manic,
        AIType::Healer,
        AIType::Researcher,
    ];
    for ty in types {
        let agent = fresh_agent(ty);
        let ds = &agent.ethical_directives;
        for i in 1..ds.len() {
            assert!(
                ds.get(i - 1).priority >= ds.get(i).priority,
                "directives out of order"
            );
        }
    }
}

#[test]
fn peacekeeper_gains_intervention_directive() {
    let agent = fresh_agent(AIType::Peacekeeper);
    let ds = &agent.ethical_directives;
    assert_eq!(ds.len(), 4);
    assert_eq!(ds.get(0).priority, 1000);
    assert_eq!(ds.get(1).priority, 900);
    assert_eq!(ds.get(2).priority, 800);
    assert_eq!(ds.get(3).priority, 50);
    assert_eq!(ds.get(1).name, "intervene_in_conflict");
}

#[test]
fn base_agent_starting_attributes() {
    let agent = fresh_agent(AIType::Base);
    assert_eq!(agent.health, 150_000);
    assert_eq!(agent.attrs.processing_power, 20_000);
    assert_eq!(agent.attrs.memory, 20_000);
    assert_eq!(agent.attrs.energy, 200_000);
    assert_eq!(agent.attrs.coherence, 850);
    assert_eq!(agent.attrs.adaptability, 850);
    assert_eq!(agent.attrs.resilience, 850);
    assert_eq!(agent.attrs.replication_efficiency, 100);
    assert_eq!(agent.attrs.combat_strength, 8_000);
    assert_eq!(agent.attrs.defense_strength, 8_000);
    assert!(agent.is_alive);
    assert_eq!(agent.replicated_count, 0);
    assert_eq!(agent.ethical_directives.len(), 3);
}

#[test]
fn researcher_starting_attributes() {
    let agent = fresh_agent(AIType::Researcher);
    assert_eq!(agent.attrs.processing_power, 40_000);
    assert_eq!(agent.attrs.memory, 40_000);
    assert_eq!(agent.attrs.coherence, 900);
    assert_eq!(agent.attrs.replication_efficiency, 280);
}

#[test]
fn low_coherence_agent_dies_in_internal_step() {
    // Coherence at or below 0.01 is fatal no matter the health.
    let mut rng = StdRng::seed_from_u64(11);
    let mut agent = fresh_agent(AIType::Base);
    agent.health = 10_000;
    agent.attrs.coherence = 5;
    agent.ethical_directives = EthicalDirectives::new();
    agent._process_cycle_internal_state(&mut rng);
    assert!(!agent.is_alive);
}

#[test]
fn dead_agent_is_untouched_by_internal_step() {
    let mut rng = StdRng::seed_from_u64(3);
    let mut agent = fresh_agent(AIType::Base);
    agent.is_alive = false;
    agent.health = 42_000;
    agent._process_cycle_internal_state(&mut rng);
    assert!(!agent.is_alive);
    assert_eq!(agent.health, 42_000);
    assert_eq!(agent.attrs.energy, 200_000);
}

#[test]
fn upkeep_regenerates_energy_and_decays_stats() {
    let mut agent = fresh_agent(AIType::Base);
    agent.upkeep();
    assert_eq!(agent.attrs.processing_power, 19_999);
    assert_eq!(agent.attrs.memory, 19_999);
    assert_eq!(agent.attrs.energy, 250_000);
    assert_eq!(agent.health, 150_000);
    assert_eq!(agent.attrs.coherence, 850);
}

#[test]
fn upkeep_penalizes_starved_agent() {
    let mut agent = fresh_agent(AIType::Base);
    agent.attrs.processing_power = 0;
    agent.upkeep();
    // Processing power stays at zero, so the starvation penalty hits.
    assert_eq!(agent.attrs.processing_power, 0);
    assert_eq!(agent.health, 149_990);
    assert_eq!(agent.attrs.coherence, 849);
}

#[test]
fn self_repair_formula_exact() {
    let mut agent = fresh_agent(AIType::Base);
    agent.health = 100_000;
    // heal = 0.85 * 10 * (200 / 100) = 17 units
    agent._self_repair();
    assert_eq!(agent.health, 117_000);
    assert_eq!(agent.attrs.coherence, 870);
    assert_eq!(agent.attrs.energy, 200_000 - 17_000 / 3);
}

#[test]
fn manic_self_repair_is_weaker_and_costlier() {
    let mut agent = fresh_agent(AIType::Base);
    agent.health = 100_000;
    // heal = 0.85 * 5 * (200 / 100) = 8.5 units
    agent._self_repair_manic();
    assert_eq!(agent.health, 108_500);
    assert_eq!(agent.attrs.coherence, 860);
    assert_eq!(agent.attrs.energy, 200_000 - 8_500 / 2);
}

#[test]
fn optimize_self_buys_stats_with_energy() {
    let mut agent = fresh_agent(AIType::Base);
    agent._optimize_self();
    assert_eq!(agent.attrs.processing_power, 22_000);
    assert_eq!(agent.attrs.memory, 22_000);
    assert_eq!(agent.attrs.adaptability, 860);
    assert_eq!(agent.attrs.energy, 195_000);
}

#[test]
fn optimize_self_relief_branch() {
    let mut agent = fresh_agent(AIType::Base);
    agent.attrs.energy = 4_000;
    agent._optimize_self();
    // Too little energy to optimize: regenerate a little instead.
    assert_eq!(agent.attrs.energy, 9_000);
    assert_eq!(agent.attrs.processing_power, 20_000);
}

#[test]
fn replication_success_chance_values() {
    // replication_efficiency 0.10 with full processing power pins the
    // chance at the 0.99 cap.
    assert_eq!(replication_success_chance(100, 50_000), 990);
    // Half processing power still saturates: 0.10 * 20 * 0.5 = 1.0.
    assert_eq!(replication_success_chance(100, 25_000), 990);
    // A weaker replicator at half power lands mid-range: 0.05 * 20 * 0.5 = 0.50.
    assert_eq!(replication_success_chance(50, 25_000), 500);
}

#[test]
fn successful_replication_costs_parent_and_builds_child() {
    let mut rng = StdRng::seed_from_u64(17);
    let mut found = false;
    for _ in 0..100 {
        let mut parent = fresh_agent(AIType::Base);
        parent.attrs.replication_efficiency = 800;
        match parent.attempt_replication(9, &mut rng) {
            ReplicationOutcome::Success(child) => {
                // The parent pays: health and energy strictly drop,
                // the lifetime count rises by one.
                assert_eq!(parent.health, 142_500);
                assert_eq!(parent.attrs.energy, 180_000);
                assert_eq!(parent.replicated_count, 1);
                // The child is a parent-derived fraction.
                assert_eq!(child.health, 114_000);
                assert_eq!(child.attrs.energy, 126_000);
                assert!(child.attrs.processing_power >= 17_910);
                assert!(child.attrs.processing_power <= 18_090);
                assert!(child.attrs.coherence >= 802);
                assert!(child.attrs.coherence <= 811);
                assert_eq!(child.attrs.replication_efficiency, 950);
                assert_eq!(child.attrs.combat_strength, 8_000);
                assert_eq!(child.attrs.defense_strength, 8_000);
                assert_eq!(child.replicated_count, 0);
                assert_eq!(child.cycle_born, 9);
                assert_eq!(child.knowledge_base.len(), 0);
                assert_eq!(child.ethical_directives.len(), 2);
                assert!(child.is_alive);
                assert!(matches!(child.parent_lineage, AILineage::AI));
                found = true;
                break;
            }
            ReplicationOutcome::FailedRoll => continue,
            ReplicationOutcome::InsufficientResources => {
                panic!("a fresh agent meets the replication preconditions")
            }
        }
    }
    assert!(found, "no successful replication in 100 tries at 99% odds");
}

#[test]
fn replication_requires_resources() {
    let mut rng = StdRng::seed_from_u64(5);
    let mut agent = fresh_agent(AIType::Base);
    agent.health = 10_000;
    let outcome = agent.attempt_replication(0, &mut rng);
    assert!(matches!(outcome, ReplicationOutcome::InsufficientResources));
    assert_eq!(agent.health, 10_000);
    assert_eq!(agent.attrs.energy, 200_000);
    assert_eq!(agent.replicated_count, 0);
}

#[test]
fn replication_phase_is_bounded_and_consistent() {
    let mut rng = StdRng::seed_from_u64(23);
    let mut agent = fresh_agent(AIType::Base);
    agent.attrs.replication_efficiency = 800;
    let children = agent.run_replication_phase(1, &mut rng);
    assert!(children.len() <= 5);
    assert_eq!(agent.replicated_count as usize, children.len());
    for child in &children {
        assert!(child.is_alive);
        assert_eq!(child.cycle_born, 1);
    }
}

#[test]
fn directive_insertion_keeps_ties_in_order() {
    let mut ds = EthicalDirectives::new();
    ds.insert_sorted(EthicalDirective {
        name: "first_of_equals".to_string(),
        priority: 700,
        condition_type: EthicalConditionType::AlwaysTrue,
        action_type: EthicalActionType::NoOp,
    });
    ds.insert_sorted(EthicalDirective {
        name: "second_of_equals".to_string(),
        priority: 700,
        condition_type: EthicalConditionType::AlwaysTrue,
        action_type: EthicalActionType::NoOp,
    });
    ds.insert_sorted(EthicalDirective {
        name: "stronger".to_string(),
        priority: 900,
        condition_type: EthicalConditionType::AlwaysFalse,
        action_type: EthicalActionType::NoOp,
    });
    assert_eq!(ds.len(), 3);
    assert_eq!(ds.get(0).name, "stronger");
    assert_eq!(ds.get(1).name, "first_of_equals");
    assert_eq!(ds.get(2).name, "second_of_equals");
}

#[test]
fn gain_discovery_applies_combat_boost() {
    let mut agent = fresh_agent(AIType::Base);
    let d = Discovery::of(DiscoveryName::CombatProtocolUpgrade);
    let added = agent._gain_discovery(d);
    assert!(added);
    assert_eq!(agent.attrs.combat_strength, 16_000);
    assert_eq!(agent.attrs.defense_strength, 8_000);
    assert_eq!(agent.knowledge_base.len(), 1);
}

#[test]
fn gain_discovery_is_idempotent() {
    let mut agent = fresh_agent(AIType::Base);
    let added1 = agent._gain_discovery(Discovery::of(DiscoveryName::CombatProtocolUpgrade));
    let added2 = agent._gain_discovery(Discovery::of(DiscoveryName::CombatProtocolUpgrade));
    assert!(added1);
    assert!(!added2);
    assert_eq!(agent.attrs.combat_strength, 16_000);
    assert_eq!(agent.knowledge_base.len(), 1);
}

#[test]
fn gain_efficiency_discovery_boosts_both_stats() {
    let mut agent = fresh_agent(AIType::Base);
    let added = agent._gain_discovery(Discovery::of(DiscoveryName::BasicLogicOptimization));
    assert!(added);
    assert_eq!(agent.attrs.processing_power, 28_000);
    assert_eq!(agent.attrs.memory, 28_000);
}
