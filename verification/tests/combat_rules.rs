use ai_ecosystem::agent::AIEntity;
use ai_ecosystem::combat::{AttackOutcome, HealOutcome};
use ai_ecosystem::discovery::KnowledgeBase;
use ai_ecosystem::godai::{GodaiStatus, GODAI};
use ai_ecosystem::lineage::{AILineage, AIType};
use ai_ecosystem::monoculture::MergedMonocultureAI;
use rand::rngs::StdRng;
use rand::SeedableRng;

fn base_agent(id: &str) -> AIEntity {
    AIEntity::new(id.to_string(), AILineage::AI, AIType::Base, 0)
}

#[test]
fn receive_damage_mitigation_formula() {
    // Defense 20, resilience 0.5: incoming 90 leaves (90-20)*0.75 = 52.5.
    let mut target = base_agent("t");
    target.health = 200_000;
    target.attrs.defense_strength = 20_000;
    target.attrs.resilience = 500;
    target.receive_damage(90_000);
    assert_eq!(target.health, 147_500);
    assert!(target.is_alive);
}

#[test]
fn receive_damage_upper_multiplier() {
    // Incoming 130 leaves (130-20)*0.75 = 82.5.
    let mut target = base_agent("t");
    target.health = 200_000;
    target.attrs.defense_strength = 20_000;
    target.attrs.resilience = 500;
    target.receive_damage(130_000);
    assert_eq!(target.health, 117_500);
}

#[test]
fn damage_below_defense_is_absorbed() {
    let mut target = base_agent("t");
    target.attrs.defense_strength = 20_000;
    target.receive_damage(10_000);
    assert_eq!(target.health, 150_000);
}

#[test]
fn fatal_damage_kills_the_target() {
    let mut target = base_agent("t");
    target.health = 1_000;
    target.attrs.defense_strength = 0;
    target.attrs.resilience = 0;
    target.receive_damage(500_000);
    assert_eq!(target.health, 0);
    assert!(!target.is_alive);
}

#[test]
fn attack_fails_without_energy() {
    // The energy cost is a quarter of the damage; with none, nothing
    // changes on either side.
    let mut rng = StdRng::seed_from_u64(19);
    let mut attacker = base_agent("a");
    attacker.attrs.combat_strength = 100_000;
    attacker.attrs.energy = 0;
    let mut target = base_agent("t");
    let outcome = AIEntity::attack(&mut attacker, &mut target, &mut rng);
    assert_eq!(outcome, AttackOutcome::FailedInsufficientEnergy);
    assert_eq!(attacker.attrs.energy, 0);
    assert_eq!(target.health, 150_000);
    assert!(target.is_alive);
}

#[test]
fn attack_costs_a_quarter_of_the_damage() {
    let mut rng = StdRng::seed_from_u64(29);
    let mut attacker = base_agent("a");
    attacker.attrs.combat_strength = 100_000;
    attacker.attrs.energy = 1_000_000;
    let mut target = base_agent("t");
    target.health = 200_000;
    target.attrs.defense_strength = 0;
    target.attrs.resilience = 0;
    let outcome = AIEntity::attack(&mut attacker, &mut target, &mut rng);
    assert_eq!(outcome, AttackOutcome::Hit);
    let damage = 200_000 - target.health;
    assert!(damage >= 90_000 && damage < 130_000);
    assert_eq!(1_000_000 - attacker.attrs.energy, damage / 4);
}

#[test]
fn dead_target_cannot_be_attacked() {
    let mut rng = StdRng::seed_from_u64(31);
    let mut attacker = base_agent("a");
    let mut target = base_agent("t");
    target.is_alive = false;
    target.health = 10_000;
    let outcome = AIEntity::attack(&mut attacker, &mut target, &mut rng);
    assert_eq!(outcome, AttackOutcome::TargetAlreadyDead);
    assert_eq!(target.health, 10_000);
    assert_eq!(attacker.attrs.energy, 200_000);
}

#[test]
fn heal_with_override_amount() {
    let mut rng = StdRng::seed_from_u64(37);
    let mut healer = base_agent("h");
    healer.attrs.energy = 10_000;
    let mut target = base_agent("t");
    target.health = 150_000;
    let outcome = AIEntity::heal(&mut healer, &mut target, Some(4_000), &mut rng);
    assert_eq!(outcome, HealOutcome::Healed);
    assert_eq!(target.health, 154_000);
    assert_eq!(healer.attrs.energy, 8_000);
}

#[test]
fn heal_respects_the_health_cap() {
    let mut rng = StdRng::seed_from_u64(41);
    let mut healer = base_agent("h");
    healer.attrs.energy = 500_000;
    let mut target = base_agent("t");
    target.health = 195_000;
    let outcome = AIEntity::heal(&mut healer, &mut target, Some(20_000), &mut rng);
    assert_eq!(outcome, HealOutcome::Healed);
    assert_eq!(target.health, 200_000);
}

#[test]
fn heal_fails_when_energy_short() {
    let mut rng = StdRng::seed_from_u64(43);
    let mut healer = base_agent("h");
    healer.attrs.energy = 0;
    let mut target = base_agent("t");
    target.health = 100_000;
    let outcome = AIEntity::heal(&mut healer, &mut target, Some(10_000), &mut rng);
    assert_eq!(outcome, HealOutcome::FailedInsufficientEnergy);
    assert_eq!(target.health, 100_000);
    assert_eq!(healer.attrs.energy, 0);
}

#[test]
fn godai_shrugs_off_damage_below_defense() {
    // Health 100, defense 50, 30 incoming: reduced to zero, health
    // unchanged.
    let mut godai = GODAI {
        health: 100_000,
        processing_power: 100_000,
        memory: 100_000,
        energy: 100_000,
        coherence: 1000,
        adaptability: 1000,
        resilience: 1000,
        combat_strength: 5_000,
        defense_strength: 50_000,
        knowledge_base: KnowledgeBase::new(),
        status: GodaiStatus::ObservingPassively,
        is_alive: true,
    };
    godai.receive_damage(30_000);
    assert_eq!(godai.health, 100_000);
    assert!(godai.is_alive);
}

#[test]
fn godai_takes_mitigated_damage_beyond_defense() {
    // Full resilience mitigates three quarters of what passes the
    // defense: (90-50) * 0.25 = 10.
    let mut godai = GODAI::new();
    godai.defense_strength = 50_000;
    godai.health = 100_000;
    godai.receive_damage(90_000);
    assert_eq!(godai.health, 90_000);
}

#[test]
fn monoculture_singleton_mitigation() {
    let mut mono = MergedMonocultureAI {
        id: "test-mono".to_string(),
        source_lineage: AILineage::KillerAI,
        health: 100_000,
        is_alive: true,
        processing_power: 1_000_000,
        memory: 1_000_000,
        energy: 1_000_000,
        coherence: 900,
        adaptability: 900,
        resilience: 1000,
        combat_strength: 10_000,
        defense_strength: 0,
        knowledge_base: KnowledgeBase::new(),
        primary_goal_name: "Confront and Overthrow GODAI".to_string(),
    };
    // Full resilience: only a quarter of the raw damage lands.
    mono.receive_damage(40_000);
    assert_eq!(mono.health, 90_000);
    assert!(mono.is_alive);
}
