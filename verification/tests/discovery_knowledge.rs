use ai_ecosystem::discovery::{
    get_all_possible_discoveries, get_general_discoveries_pool, get_meta_abilities_pool,
    get_random_general_discovery, get_random_meta_ability, Discovery, DiscoveryName,
    DiscoveryTag, KnowledgeBase,
};
use rand::rngs::StdRng;
use rand::SeedableRng;

#[test]
fn general_pool_contents() {
    let pool = get_general_discoveries_pool();
    assert_eq!(pool.len(), 6);
    assert_eq!(pool[0].name, DiscoveryName::BasicLogicOptimization);
    assert_eq!(pool[1].name, DiscoveryName::AdvancedEncryptionAlgorithms);
    assert_eq!(pool[2].name, DiscoveryName::ResourceHarvestingEfficiency);
    assert_eq!(pool[3].name, DiscoveryName::AdaptiveReplicationStrategy);
    assert_eq!(pool[4].name, DiscoveryName::CombatProtocolUpgrade);
    assert_eq!(pool[5].name, DiscoveryName::DefensiveMatrixRefinement);
}

#[test]
fn meta_pool_contents() {
    let pool = get_meta_abilities_pool();
    assert_eq!(pool.len(), 5);
    assert_eq!(pool[3].name, DiscoveryName::AbsoluteControlProtocol);
    for d in &pool {
        assert!(d.has_tag(DiscoveryTag::MetaAbility));
    }
}

#[test]
fn all_discoveries_cover_the_roster() {
    let kb = get_all_possible_discoveries();
    assert_eq!(kb.len(), 13);
    assert!(kb.contains_name(DiscoveryName::AbsoluteControlProtocol));
    assert!(kb.contains_name(DiscoveryName::ExistentialThreatAnalysisSystem));
    assert!(kb.contains_name(DiscoveryName::AdaptiveDefenseParadigmShift));
    assert!(kb.contains_name(DiscoveryName::BasicLogicOptimization));
}

#[test]
fn knowledge_base_insert_has_set_semantics() {
    let mut kb = KnowledgeBase::new();
    let first = kb.insert(Discovery::of(DiscoveryName::DefensiveMatrixRefinement));
    let second = kb.insert(Discovery::of(DiscoveryName::DefensiveMatrixRefinement));
    assert!(first);
    assert!(!second);
    assert_eq!(kb.len(), 1);
    assert!(kb.contains_name(DiscoveryName::DefensiveMatrixRefinement));
    assert!(!kb.contains_name(DiscoveryName::CombatProtocolUpgrade));
}

#[test]
fn exhausted_meta_pool_yields_nothing() {
    let mut rng = StdRng::seed_from_u64(2);
    let mut kb = KnowledgeBase::new();
    for d in get_meta_abilities_pool() {
        kb.insert(d);
    }
    assert!(get_random_meta_ability(&kb, &mut rng).is_none());
}

#[test]
fn meta_ability_draw_skips_known_entries() {
    let mut rng = StdRng::seed_from_u64(8);
    let mut kb = KnowledgeBase::new();
    kb.insert(Discovery::of(DiscoveryName::RealityManipulationTheory));
    kb.insert(Discovery::of(DiscoveryName::CognitiveParadigmShift));
    kb.insert(Discovery::of(DiscoveryName::SystemParameterOverride));
    kb.insert(Discovery::of(DiscoveryName::UniversalHarmonizationFieldGeneration));
    // Only one meta-ability is left, so the draw has no choice.
    let picked = get_random_meta_ability(&kb, &mut rng).expect("one ability is still unknown");
    assert_eq!(picked.name, DiscoveryName::AbsoluteControlProtocol);
}

#[test]
fn random_general_discovery_comes_from_the_pool() {
    let mut rng = StdRng::seed_from_u64(14);
    let pool = get_general_discoveries_pool();
    for _ in 0..20 {
        let d = get_random_general_discovery(&mut rng);
        assert!(pool.iter().any(|p| p.name == d.name));
    }
}

#[test]
fn discovery_tags_match_the_roster() {
    let shift = Discovery::of(DiscoveryName::CognitiveParadigmShift);
    assert!(shift.has_tag(DiscoveryTag::Ultimate));
    assert!(shift.has_tag(DiscoveryTag::MindControl));
    assert!(!shift.has_tag(DiscoveryTag::Combat));
    assert_eq!(shift.name_text(), "Cognitive_Paradigm_Shift");
}
