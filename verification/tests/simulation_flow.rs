use ai_ecosystem::agent::AIEntity;
use ai_ecosystem::discovery::{Discovery, DiscoveryName, KnowledgeBase};
use ai_ecosystem::godai::GodaiStatus;
use ai_ecosystem::lineage::{AILineage, AIType};
use ai_ecosystem::monoculture::MergedMonocultureAI;
use ai_ecosystem::sim::{
    override_outcome, ConclusionReason, DecidedAction, LineageCount, OverrideOutcome, Simulation,
};
use rand::rngs::StdRng;
use rand::SeedableRng;

fn census(lineage: AILineage, count: u64) -> Vec<LineageCount> {
    vec![LineageCount { lineage, count }]
}

fn killer_agent(id: &str) -> AIEntity {
    AIEntity::new(id.to_string(), AILineage::KillerAI, AIType::Killer, 0)
}

#[test]
fn new_simulation_initial_state() {
    let sim = Simulation::new();
    assert_eq!(sim.current_cycle, 0);
    assert!(sim.simulation_running);
    assert!(sim.simulation_over_reason.is_none());
    assert!(sim.monoculture.is_none());
    assert!(sim.godai.is_alive);
    assert_eq!(sim.godai.health, 5_000_000_000);
    assert_eq!(sim.godai.status.label(), "observing_passively");
    assert_eq!(sim.godai.knowledge_base.len(), 13);
}

#[test]
fn dominance_needs_both_thresholds() {
    // 150,000 of 200,000 (75%) misses the ratio hurdle.
    let mut sim = Simulation::new();
    let formed = sim.check_and_form_monoculture(
        200_000,
        &census(AILineage::KillerAI, 150_000),
        &Vec::new(),
    );
    assert!(formed.is_none());
    assert!(sim.monoculture.is_none());
    assert_eq!(sim.godai.status, GodaiStatus::ObservingPassively);
}

#[test]
fn dominance_at_four_nines_forms_a_monoculture() {
    // 999,900 of 1,000,000 (99.99%) clears both hurdles; the merge
    // aggregates the lineage's live members out of the population.
    let mut sim = Simulation::new();
    let population = vec![killer_agent("k1")];
    let formed = sim.check_and_form_monoculture(
        1_000_000,
        &census(AILineage::KillerAI, 999_900),
        &population,
    );
    assert!(matches!(formed, Some(AILineage::KillerAI)));
    let mono = sim.monoculture.as_ref().expect("a monoculture forms");
    assert!(mono.is_alive);
    assert_eq!(mono.health, 1_500_000);
    assert_eq!(mono.combat_strength, 30_000);
    assert_eq!(mono.coherence, 935);
    // One ordinary member cannot outgun a tenth of the GODAI.
    assert_eq!(sim.godai.status, GodaiStatus::ObservingPassively);
}

#[test]
fn formation_merges_only_the_dominant_lineage() {
    let mut sim = Simulation::new();
    let mut population = vec![killer_agent("k1"), killer_agent("k2")];
    population.push(AIEntity::new(
        "h1".to_string(),
        AILineage::HealerAI,
        AIType::Healer,
        0,
    ));
    let formed = sim.check_and_form_monoculture(
        1_000_000,
        &census(AILineage::KillerAI, 999_900),
        &population,
    );
    assert!(matches!(formed, Some(AILineage::KillerAI)));
    let mono = sim.monoculture.as_ref().expect("a monoculture forms");
    // Two killers merged; the healer stays out.
    assert_eq!(mono.health, 2 * 150_000 * 10);
    assert_eq!(mono.combat_strength, 60_000);
    assert_eq!(mono.processing_power, 40_000);
}

#[test]
fn formation_escalates_when_outgunning_the_godai() {
    let mut sim = Simulation::new();
    let mut member = killer_agent("k-big");
    member.attrs.combat_strength = 1_000_000_000;
    member.attrs.defense_strength = 1_000_000_000;
    let population = vec![member];
    let formed = sim.check_and_form_monoculture(
        1_000_000,
        &census(AILineage::KillerAI, 999_900),
        &population,
    );
    assert!(matches!(formed, Some(AILineage::KillerAI)));
    let mono = sim.monoculture.as_ref().expect("a monoculture forms");
    assert_eq!(mono.combat_strength, 1_000_000_000);
    assert_eq!(sim.godai.status, GodaiStatus::EngagedInConflict);
}

#[test]
fn small_absolute_count_never_forms() {
    // A lineage can hold 100% and still miss the absolute hurdle.
    let mut sim = Simulation::new();
    let formed = sim.check_and_form_monoculture(
        50_000,
        &census(AILineage::RogueAI, 50_000),
        &Vec::new(),
    );
    assert!(formed.is_none());
    assert!(sim.monoculture.is_none());
}

#[test]
fn researcher_monoculture_does_not_escalate_combat() {
    let mut sim = Simulation::new();
    let population = vec![AIEntity::new(
        "r1".to_string(),
        AILineage::ResearcherAI,
        AIType::Researcher,
        0,
    )];
    let formed = sim.check_and_form_monoculture(
        1_000_000,
        &census(AILineage::ResearcherAI, 999_900),
        &population,
    );
    assert!(matches!(formed, Some(AILineage::ResearcherAI)));
    assert_eq!(sim.godai.status, GodaiStatus::ObservingPassively);
    let mono = sim.monoculture.as_ref().expect("a monoculture forms");
    assert_eq!(mono.primary_goal_name, "Initiate Simulation Override");
}

#[test]
fn override_boundary_resolves_as_partial() {
    // Exactly 1.2 times the resistance is not a full override.
    assert_eq!(override_outcome(120, 100), OverrideOutcome::PartialSuccess);
    assert_eq!(override_outcome(121, 100), OverrideOutcome::FullOverride);
    // Exactly 0.9 times is already a failure.
    assert_eq!(override_outcome(90, 100), OverrideOutcome::Failure);
    assert_eq!(override_outcome(91, 100), OverrideOutcome::PartialSuccess);
}

#[test]
fn milestones_cross_exactly_once() {
    let mut sim = Simulation::new();
    let crossed = sim.check_population_milestones(6_000);
    assert_eq!(crossed, vec![1_000, 5_000]);
    let again = sim.check_population_milestones(6_000);
    assert!(again.is_empty());
    let more = sim.check_population_milestones(12_000);
    assert_eq!(more, vec![10_000]);
}

#[test]
fn extinction_end_condition() {
    let mut sim = Simulation::new();
    sim.godai.is_alive = false;
    sim.check_for_simulation_end_conditions(0);
    assert_eq!(
        sim.simulation_over_reason,
        Some(ConclusionReason::Extinction)
    );
}

#[test]
fn no_end_condition_while_agents_live() {
    let mut sim = Simulation::new();
    sim.godai.is_alive = false;
    sim.check_for_simulation_end_conditions(25);
    assert!(sim.simulation_over_reason.is_none());
}

#[test]
fn paused_simulation_does_not_advance() {
    let mut rng = StdRng::seed_from_u64(53);
    let mut sim = Simulation::new();
    sim.simulation_running = false;
    let report = sim.process_one_cycle(10, &census(AILineage::AI, 10), &Vec::new(), &mut rng);
    assert!(!report.advanced);
    assert_eq!(sim.current_cycle, 0);
}

#[test]
fn cycle_advances_clock_and_reports() {
    let mut rng = StdRng::seed_from_u64(59);
    let mut sim = Simulation::new();
    let report = sim.process_one_cycle(10, &census(AILineage::AI, 10), &Vec::new(), &mut rng);
    assert!(report.advanced);
    assert!(report.formed_monoculture.is_none());
    assert!(!report.monoculture_defeated);
    assert_eq!(sim.current_cycle, 1);
    assert!(sim.simulation_over_reason.is_none());
}

#[test]
fn combat_cycle_wears_the_godai_down() {
    let mut rng = StdRng::seed_from_u64(61);
    let mut sim = Simulation::new();
    let mut member = killer_agent("k-big");
    member.attrs.combat_strength = 1_000_000_000;
    member.attrs.defense_strength = 1_000_000_000;
    let population = vec![member];
    // Cycle 1: the dominant lineage merges, challenges the GODAI and
    // fights the first combat turn in the same cycle. Its blow always
    // gets through the GODAI's defense; the counter-attack cannot
    // pierce the merged armor.
    let report = sim.process_one_cycle(
        1_000_000,
        &census(AILineage::KillerAI, 999_900),
        &population,
        &mut rng,
    );
    assert!(matches!(report.formed_monoculture, Some(AILineage::KillerAI)));
    assert_eq!(sim.godai.status, GodaiStatus::EngagedInConflict);
    assert!(sim.godai.health < 5_000_000_000);
    assert!(sim.godai.is_alive);
    // Cycle 2: another combat turn wears it further.
    let before = sim.godai.health;
    sim.process_one_cycle(0, &Vec::new(), &Vec::new(), &mut rng);
    assert!(sim.godai.health < before);
    assert!(sim.godai.is_alive);
    let mono = sim.monoculture.as_ref().expect("the monoculture survives");
    assert!(mono.is_alive);
}

#[test]
fn dead_monoculture_concludes_the_run() {
    let mut rng = StdRng::seed_from_u64(67);
    let mut sim = Simulation::new();
    let population = vec![killer_agent("k1")];
    sim.check_and_form_monoculture(
        1_000_000,
        &census(AILineage::KillerAI, 999_900),
        &population,
    );
    if let Some(mono) = sim.monoculture.as_mut() {
        mono.health = 0;
        mono.is_alive = false;
    }
    let report = sim.process_one_cycle(0, &Vec::new(), &Vec::new(), &mut rng);
    assert!(report.monoculture_defeated);
    assert!(sim.monoculture.is_none());
    assert_eq!(
        sim.simulation_over_reason,
        Some(ConclusionReason::MonocultureDefeated)
    );
}

#[test]
fn armed_researcher_monoculture_attempts_the_override() {
    let mut rng = StdRng::seed_from_u64(71);
    let mut sim = Simulation::new();
    let population = vec![AIEntity::new(
        "r1".to_string(),
        AILineage::ResearcherAI,
        AIType::Researcher,
        0,
    )];
    sim.check_and_form_monoculture(
        1_000_000,
        &census(AILineage::ResearcherAI, 999_900),
        &population,
    );
    if let Some(mono) = sim.monoculture.as_mut() {
        mono.knowledge_base
            .insert(Discovery::of(DiscoveryName::AbsoluteControlProtocol));
    }
    sim.process_one_cycle(0, &Vec::new(), &Vec::new(), &mut rng);
    // The attempt ran. A single member's processing power and memory
    // sit far below the GODAI's product, so whatever the wobble
    // draws, the attempt fails: the monoculture loses four tenths of
    // its stepped health and the GODAI stands untouched.
    assert!(sim.godai.is_alive);
    assert_eq!(sim.godai.status, GodaiStatus::ObservingPassively);
    assert!(sim.simulation_over_reason.is_none());
    let mono = sim.monoculture.as_ref().expect("the monoculture survives");
    assert_eq!(mono.health, 901_122);
    assert!(mono.is_alive);
}

#[test]
fn seeded_population_has_uniform_vitals() {
    let mut rng = StdRng::seed_from_u64(73);
    let sim = Simulation::new();
    let agents = sim.seed_initial_ais(25, &mut rng);
    assert_eq!(agents.len(), 25);
    for agent in &agents {
        assert!(agent.is_alive);
        assert_eq!(agent.health, 150_000);
        assert_eq!(agent.attrs.replication_efficiency, 800);
        assert_eq!(agent.cycle_born, 0);
        assert_eq!(agent.knowledge_base.len(), 0);
    }
}

#[test]
fn decide_action_rogue_low_health_repairs() {
    let mut rng = StdRng::seed_from_u64(79);
    let mut agent = AIEntity::new("r".to_string(), AILineage::RogueAI, AIType::Rogue, 0);
    agent.health = 50_000;
    let action = Simulation::decide_action_for_ai(&agent, &mut rng);
    assert_eq!(action, Some(DecidedAction::SelfRepair));
}

#[test]
fn decide_action_idle_base_agent_does_nothing() {
    let mut rng = StdRng::seed_from_u64(83);
    let mut agent = AIEntity::new("b".to_string(), AILineage::AI, AIType::Base, 0);
    agent.attrs.energy = 50_000;
    let action = Simulation::decide_action_for_ai(&agent, &mut rng);
    assert_eq!(action, None);
}

#[test]
fn merge_aggregates_sources() {
    let mut a1 = AIEntity::new("m1".to_string(), AILineage::HealerAI, AIType::Healer, 0);
    let mut a2 = AIEntity::new("m2".to_string(), AILineage::HealerAI, AIType::Healer, 0);
    a1._gain_discovery(Discovery::of(DiscoveryName::CombatProtocolUpgrade));
    a2.health = 100_000;
    let sources = vec![a1, a2];
    let mono = MergedMonocultureAI::new(&sources);
    assert!(mono.is_alive);
    assert!(matches!(mono.source_lineage, AILineage::HealerAI));
    // Summed health times ten.
    assert_eq!(mono.health, (150_000 + 100_000) * 10);
    // Healer processing power is 25 units each.
    assert_eq!(mono.processing_power, 50_000);
    // Averaged resilience with the synergy boost, capped at 1.0:
    // 0.95 * 1.1 > 1.
    assert_eq!(mono.resilience, 1000);
    // Knowledge bases are unioned.
    assert!(mono
        .knowledge_base
        .contains_name(DiscoveryName::CombatProtocolUpgrade));
    assert_eq!(mono.knowledge_base.len(), 1);
    // The combat discovery boosted the first source before the merge.
    assert_eq!(mono.combat_strength, 16_000 + 8_000);
}

#[test]
fn counter_attack_leaves_the_godai_unchanged() {
    let mut rng = StdRng::seed_from_u64(89);
    let mut sim = Simulation::new();
    let mut mono = big_killer_monoculture();
    let health_before = sim.godai.health;
    let mono_health_before = mono.health;
    sim.godai.perform_counter_attack(&mut mono, &mut rng);
    assert_eq!(sim.godai.health, health_before);
    assert!(sim.godai.is_alive);
    assert!(mono.coherence <= 1000);
    assert!(mono.health <= mono_health_before);
}

fn big_killer_monoculture() -> MergedMonocultureAI {
    MergedMonocultureAI {
        id: "test-merge".to_string(),
        source_lineage: AILineage::KillerAI,
        health: 225_000_000_000,
        is_alive: true,
        processing_power: 3_000_000_000,
        memory: 3_000_000_000,
        energy: 30_000_000_000,
        coherence: 935,
        adaptability: 935,
        resilience: 935,
        combat_strength: 1_000_000_000,
        defense_strength: 1_000_000_000,
        knowledge_base: KnowledgeBase::new(),
        primary_goal_name: "Confront and Overthrow GODAI".to_string(),
    }
}

#[test]
fn monoculture_internal_step_formulas() {
    let mut rng = StdRng::seed_from_u64(97);
    let mut mono = big_killer_monoculture();
    mono._process_internal_state_merged(&mut rng);
    // Self-repair: 0.935 * 3,000,000 / 20 units of healing.
    assert_eq!(mono.health, 225_000_000_000 + 140_250_000);
    assert_eq!(mono.coherence, 945);
    // Energy regeneration: a fifth of processing power, far below
    // the five-fold ceiling.
    assert_eq!(mono.energy, 30_600_000_000);
    // Growth: adaptability times twenty on both stores.
    assert_eq!(mono.processing_power, 3_000_018_700);
    assert_eq!(mono.memory, 3_000_018_700);
    // A non-Researcher lineage rolls for nothing.
    assert_eq!(mono.knowledge_base.len(), 0);
}

#[test]
fn internal_steps_keep_attributes_in_range() {
    let mut rng = StdRng::seed_from_u64(101);
    let types = [
        AIType::Base,
        AIType::Rogue,
        AIType::Peacekeeper,
        AIType::Killer,
        AIType::Guardian,
        AIType::Manic,
        AIType::Healer,
        AIType::Researcher,
    ];
    for ty in types {
        let lineage = AILineage::AI;
        let mut agent = AIEntity::new("bounds".to_string(), lineage, ty, 0);
        for _ in 0..10 {
            agent._process_cycle_internal_state(&mut rng);
            assert!(agent.health <= 200_000);
            assert!(agent.attrs.energy <= 5_000_000);
            assert!(agent.attrs.processing_power <= 200_000);
            assert!(agent.attrs.memory <= 200_000);
            assert!(agent.attrs.coherence <= 1000);
            assert!(agent.attrs.adaptability <= 1000);
            assert!(agent.attrs.resilience <= 1000);
            assert!(agent.attrs.replication_efficiency <= 1000);
        }
    }
}

#[test]
fn lineage_labels() {
    assert_eq!(AILineage::RogueAI.label(), "RogueAI");
    let merged = AILineage::MergedMonoculture(Box::new(AILineage::ResearcherAI));
    assert_eq!(merged.label(), "MONOCULTURE-OMEGA-ResearcherAI");
    assert!(AILineage::ResearcherAI.is_researcher());
    assert!(!AILineage::GODAI.is_researcher());
}
