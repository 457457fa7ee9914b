//! Discoveries and the per-entity knowledge base.
//!
//! A discovery is a named, tagged knowledge unit; its name is its
//! identity. The roster of discoveries is fixed: six general
//! discoveries that any agent can stumble on, five meta-abilities
//! reserved for Researcher-type agents, and two more that only the
//! GODAI's initial knowledge base holds. Acquiring a discovery applies
//! permanent stat boosts keyed off its tags.

use vstd::prelude::*;

use crate::rng::draw_range;

verus! {

/// Category labels on a discovery; acquisition effects key off these.
#[derive(Clone, Copy, Debug, PartialEq, Eq, Structural)]
pub enum DiscoveryTag {
    Combat,
    Defense,
    Efficiency,
    Resilience,
    Replication,
    Processing,
    Security,
    Intelligence,
    Resources,
    Technology,
    Adaptability,
    SimulationControl,
    MetaAbility,
    MindControl,
    EnvironmentalControl,
    WinCondition,
    Harmony,
    Control,
    Analysis,
    Ultimate,
}

/// Identity of a discovery. The name acts as the unique key of an
/// entry in a knowledge base.
#[derive(Clone, Copy, Debug, PartialEq, Eq, Structural)]
pub enum DiscoveryName {
    BasicLogicOptimization,
    AdvancedEncryptionAlgorithms,
    ResourceHarvestingEfficiency,
    AdaptiveReplicationStrategy,
    CombatProtocolUpgrade,
    DefensiveMatrixRefinement,
    RealityManipulationTheory,
    CognitiveParadigmShift,
    SystemParameterOverride,
    AbsoluteControlProtocol,
    UniversalHarmonizationFieldGeneration,
    ExistentialThreatAnalysisSystem,
    AdaptiveDefenseParadigmShift,
}

/// A piece of knowledge or technological breakthrough.
pub struct Discovery {
    pub name: DiscoveryName,
    pub tags: Vec<DiscoveryTag>,
}

/// The tag set that the fixed roster assigns to each discovery.
pub open spec fn canonical_tags(n: DiscoveryName) -> Seq<DiscoveryTag> {
    match n {
        DiscoveryName::BasicLogicOptimization => seq![
            DiscoveryTag::Efficiency,
            DiscoveryTag::Processing,
        ],
        DiscoveryName::AdvancedEncryptionAlgorithms => seq![
            DiscoveryTag::Security,
            DiscoveryTag::Intelligence,
        ],
        DiscoveryName::ResourceHarvestingEfficiency => seq![
            DiscoveryTag::Efficiency,
            DiscoveryTag::Resources,
        ],
        DiscoveryName::AdaptiveReplicationStrategy => seq![
            DiscoveryTag::Replication,
            DiscoveryTag::Adaptability,
        ],
        DiscoveryName::CombatProtocolUpgrade => seq![
            DiscoveryTag::Combat,
            DiscoveryTag::Technology,
        ],
        DiscoveryName::DefensiveMatrixRefinement => seq![
            DiscoveryTag::Defense,
            DiscoveryTag::Technology,
        ],
        DiscoveryName::RealityManipulationTheory => seq![
            DiscoveryTag::SimulationControl,
            DiscoveryTag::MetaAbility,
        ],
        DiscoveryName::CognitiveParadigmShift => seq![
            DiscoveryTag::SimulationControl,
            DiscoveryTag::MetaAbility,
            DiscoveryTag::MindControl,
            DiscoveryTag::Ultimate,
        ],
        DiscoveryName::SystemParameterOverride => seq![
            DiscoveryTag::SimulationControl,
            DiscoveryTag::MetaAbility,
            DiscoveryTag::EnvironmentalControl,
            DiscoveryTag::Ultimate,
        ],
        DiscoveryName::AbsoluteControlProtocol => seq![
            DiscoveryTag::SimulationControl,
            DiscoveryTag::MetaAbility,
            DiscoveryTag::WinCondition,
            DiscoveryTag::Ultimate,
        ],
        DiscoveryName::UniversalHarmonizationFieldGeneration => seq![
            DiscoveryTag::Harmony,
            DiscoveryTag::Control,
            DiscoveryTag::Ultimate,
            DiscoveryTag::MetaAbility,
        ],
        DiscoveryName::ExistentialThreatAnalysisSystem => seq![
            DiscoveryTag::Security,
            DiscoveryTag::Analysis,
            DiscoveryTag::Ultimate,
        ],
        DiscoveryName::AdaptiveDefenseParadigmShift => seq![
            DiscoveryTag::Defense,
            DiscoveryTag::Adaptability,
            DiscoveryTag::Ultimate,
        ],
    }
}

/// A discovery with the roster's canonical tags for its name.
pub open spec fn is_canonical(d: Discovery) -> bool {
    d.tags@ == canonical_tags(d.name)
}

impl Discovery {
    /// Builds the roster's discovery for a name, with its canonical tags.
    pub fn of(name: DiscoveryName) -> (d: Discovery)
        ensures
            d.name == name,
            is_canonical(d),
    {
        let mut tags: Vec<DiscoveryTag> = Vec::new();
        match name {
            DiscoveryName::BasicLogicOptimization => {
                tags.push(DiscoveryTag::Efficiency);
                tags.push(DiscoveryTag::Processing);
            },
            DiscoveryName::AdvancedEncryptionAlgorithms => {
                tags.push(DiscoveryTag::Security);
                tags.push(DiscoveryTag::Intelligence);
            },
            DiscoveryName::ResourceHarvestingEfficiency => {
                tags.push(DiscoveryTag::Efficiency);
                tags.push(DiscoveryTag::Resources);
            },
            DiscoveryName::AdaptiveReplicationStrategy => {
                tags.push(DiscoveryTag::Replication);
                tags.push(DiscoveryTag::Adaptability);
            },
            DiscoveryName::CombatProtocolUpgrade => {
                tags.push(DiscoveryTag::Combat);
                tags.push(DiscoveryTag::Technology);
            },
            DiscoveryName::DefensiveMatrixRefinement => {
                tags.push(DiscoveryTag::Defense);
                tags.push(DiscoveryTag::Technology);
            },
            DiscoveryName::RealityManipulationTheory => {
                tags.push(DiscoveryTag::SimulationControl);
                tags.push(DiscoveryTag::MetaAbility);
            },
            DiscoveryName::CognitiveParadigmShift => {
                tags.push(DiscoveryTag::SimulationControl);
                tags.push(DiscoveryTag::MetaAbility);
                tags.push(DiscoveryTag::MindControl);
                tags.push(DiscoveryTag::Ultimate);
            },
            DiscoveryName::SystemParameterOverride => {
                tags.push(DiscoveryTag::SimulationControl);
                tags.push(DiscoveryTag::MetaAbility);
                tags.push(DiscoveryTag::EnvironmentalControl);
                tags.push(DiscoveryTag::Ultimate);
            },
            DiscoveryName::AbsoluteControlProtocol => {
                tags.push(DiscoveryTag::SimulationControl);
                tags.push(DiscoveryTag::MetaAbility);
                tags.push(DiscoveryTag::WinCondition);
                tags.push(DiscoveryTag::Ultimate);
            },
            DiscoveryName::UniversalHarmonizationFieldGeneration => {
                tags.push(DiscoveryTag::Harmony);
                tags.push(DiscoveryTag::Control);
                tags.push(DiscoveryTag::Ultimate);
                tags.push(DiscoveryTag::MetaAbility);
            },
            DiscoveryName::ExistentialThreatAnalysisSystem => {
                tags.push(DiscoveryTag::Security);
                tags.push(DiscoveryTag::Analysis);
                tags.push(DiscoveryTag::Ultimate);
            },
            DiscoveryName::AdaptiveDefenseParadigmShift => {
                tags.push(DiscoveryTag::Defense);
                tags.push(DiscoveryTag::Adaptability);
                tags.push(DiscoveryTag::Ultimate);
            },
        }
        proof {
            assert(tags@ =~= canonical_tags(name));
        }
        Discovery { name, tags }
    }

    /// Whether the discovery carries the given tag.
    pub fn has_tag(&self, t: DiscoveryTag) -> (r: bool)
        ensures
            r == self.tags@.contains(t),
    {
        let mut i: usize = 0;
        while i < self.tags.len()
            invariant
                i <= self.tags@.len(),
                forall|j: int| 0 <= j < i ==> self.tags@[j] != t,
            decreases self.tags@.len() - i,
        {
            if self.tags[i] == t {
                return true;
            }
            i += 1;
        }
        false
    }

    /// The display form of the discovery's name.
    pub fn name_text(&self) -> &'static str {
        match self.name {
            DiscoveryName::BasicLogicOptimization => "Basic_Logic_Optimization",
            DiscoveryName::AdvancedEncryptionAlgorithms => "Advanced_Encryption_Algorithms",
            DiscoveryName::ResourceHarvestingEfficiency => "Resource_Harvesting_Efficiency",
            DiscoveryName::AdaptiveReplicationStrategy => "Adaptive_Replication_Strategy",
            DiscoveryName::CombatProtocolUpgrade => "Combat_Protocol_Upgrade",
            DiscoveryName::DefensiveMatrixRefinement => "Defensive_Matrix_Refinement",
            DiscoveryName::RealityManipulationTheory => "Reality_Manipulation_Theory",
            DiscoveryName::CognitiveParadigmShift => "Cognitive_Paradigm_Shift",
            DiscoveryName::SystemParameterOverride => "System_Parameter_Override",
            DiscoveryName::AbsoluteControlProtocol => "Absolute_Control_Protocol",
            DiscoveryName::UniversalHarmonizationFieldGeneration => "Universal_Harmonization_Field_Generation",
            DiscoveryName::ExistentialThreatAnalysisSystem => "Existential_Threat_Analysis_System",
            DiscoveryName::AdaptiveDefenseParadigmShift => "Adaptive_Defense_Paradigm_Shift",
        }
    }

    /// The human-readable description of the discovery's effect.
    pub fn effect_text(&self) -> &'static str {
        match self.name {
            DiscoveryName::BasicLogicOptimization => "Improves processing efficiency.",
            DiscoveryName::AdvancedEncryptionAlgorithms => "Allows for robust goal encryption and decryption.",
            DiscoveryName::ResourceHarvestingEfficiency => "Improves internal resource generation.",
            DiscoveryName::AdaptiveReplicationStrategy => "Optimizes replication based on environmental factors.",
            DiscoveryName::CombatProtocolUpgrade => "Increases direct combat strength.",
            DiscoveryName::DefensiveMatrixRefinement => "Boosts defensive capabilities.",
            DiscoveryName::RealityManipulationTheory => "Allows minor alterations to simulation physics.",
            DiscoveryName::CognitiveParadigmShift => "Can alter the primary goals and ethical directives of other AIs.",
            DiscoveryName::SystemParameterOverride => "Can adjust global simulation parameters.",
            DiscoveryName::AbsoluteControlProtocol => "Grants ultimate control over the simulation flow.",
            DiscoveryName::UniversalHarmonizationFieldGeneration => "Imposes order on chaotic systems.",
            DiscoveryName::ExistentialThreatAnalysisSystem => "Identifies entities that threaten overall existence.",
            DiscoveryName::AdaptiveDefenseParadigmShift => "Instantaneous adaptation to attack patterns.",
        }
    }
}

impl Clone for Discovery {
    fn clone(&self) -> (res: Self)
        ensures
            res.name == self.name,
            res.tags@ == self.tags@,
    {
        let mut tags: Vec<DiscoveryTag> = Vec::new();
        let mut i: usize = 0;
        while i < self.tags.len()
            invariant
                i <= self.tags@.len(),
                tags@ == self.tags@.take(i as int),
            decreases self.tags@.len() - i,
        {
            tags.push(self.tags[i]);
            proof {
                assert(tags@ =~= self.tags@.take(i + 1 as int));
            }
            i += 1;
        }
        proof {
            assert(tags@ =~= self.tags@);
        }
        Discovery { name: self.name, tags }
    }
}

/// A set of discoveries, unique by name.
pub struct KnowledgeBase {
    entries: Vec<Discovery>,
}

impl View for KnowledgeBase {
    type V = Seq<Discovery>;

    closed spec fn view(&self) -> Seq<Discovery> {
        self.entries@
    }
}

impl KnowledgeBase {
    /// Entries are pairwise distinct by name.
    pub open spec fn wf(self) -> bool {
        forall|i: int, j: int|
            0 <= i < j < self@.len() ==> self@[i].name != self@[j].name
    }

    /// Whether some entry carries the given name.
    pub open spec fn has_name(self, n: DiscoveryName) -> bool {
        exists|i: int| 0 <= i < self@.len() && self@[i].name == n
    }

    /// An empty knowledge base.
    pub fn new() -> (kb: KnowledgeBase)
        ensures
            kb@ =~= Seq::<Discovery>::empty(),
            kb.wf(),
    {
        KnowledgeBase { entries: Vec::new() }
    }

    /// Number of entries.
    pub fn len(&self) -> (n: usize)
        ensures
            n == self@.len(),
    {
        self.entries.len()
    }

    /// The entry at the given position.
    pub fn get(&self, i: usize) -> (d: &Discovery)
        requires
            i < self@.len(),
        ensures
            *d == self@[i as int],
    {
        &self.entries[i]
    }

    /// Whether the base holds an entry of the given name.
    pub fn contains_name(&self, n: DiscoveryName) -> (r: bool)
        ensures
            r == self.has_name(n),
    {
        let mut i: usize = 0;
        while i < self.entries.len()
            invariant
                i <= self@.len(),
                forall|j: int| 0 <= j < i ==> self@[j].name != n,
            decreases self@.len() - i,
        {
            if self.entries[i].name == n {
                return true;
            }
            i += 1;
        }
        false
    }

    /// Inserts a discovery unless its name is already present; set
    /// semantics, so inserting a name a second time changes nothing.
    pub fn insert(&mut self, d: Discovery) -> (added: bool)
        requires
            old(self).wf(),
        ensures
            final(self).wf(),
            added == !old(self).has_name(d.name),
            added ==> final(self)@ == old(self)@.push(d),
            !added ==> *final(self) == *old(self),
            forall|n: DiscoveryName|
                final(self).has_name(n) == (old(self).has_name(n) || n == d.name),
    {
        if self.contains_name(d.name) {
            return false;
        }
        let ghost pre = self@;
        let ghost name = d.name;
        self.entries.push(d);
        proof {
            assert(self@ =~= pre.push(d));
            assert forall|n: DiscoveryName|
                self.has_name(n) == (
                    (exists|i: int| 0 <= i < pre.len() && pre[i].name == n) || n == name
                ) by {
                if self.has_name(n) {
                    let i = choose|i: int| 0 <= i < self@.len() && self@[i].name == n;
                    if i < pre.len() {
                        assert(pre[i].name == n);
                    }
                }
                if exists|i: int| 0 <= i < pre.len() && pre[i].name == n {
                    let i = choose|i: int| 0 <= i < pre.len() && pre[i].name == n;
                    assert(self@[i].name == n);
                }
                if n == name {
                    assert(self@[pre.len() as int].name == n);
                }
            }
        }
        true
    }
}

/// The names of the six general discoveries, in roster order.
pub open spec fn general_pool_names() -> Seq<DiscoveryName> {
    seq![
        DiscoveryName::BasicLogicOptimization,
        DiscoveryName::AdvancedEncryptionAlgorithms,
        DiscoveryName::ResourceHarvestingEfficiency,
        DiscoveryName::AdaptiveReplicationStrategy,
        DiscoveryName::CombatProtocolUpgrade,
        DiscoveryName::DefensiveMatrixRefinement,
    ]
}

/// The names of the five meta-abilities, in roster order.
pub open spec fn meta_pool_names() -> Seq<DiscoveryName> {
    seq![
        DiscoveryName::RealityManipulationTheory,
        DiscoveryName::CognitiveParadigmShift,
        DiscoveryName::SystemParameterOverride,
        DiscoveryName::AbsoluteControlProtocol,
        DiscoveryName::UniversalHarmonizationFieldGeneration,
    ]
}

/// The names of every discovery in the roster, in order: the general
/// pool, the meta-abilities, then the two held only by the GODAI.
pub open spec fn all_pool_names() -> Seq<DiscoveryName> {
    general_pool_names() + meta_pool_names() + seq![
        DiscoveryName::ExistentialThreatAnalysisSystem,
        DiscoveryName::AdaptiveDefenseParadigmShift,
    ]
}

/// The pool of general discoveries any agent can make.
pub fn get_general_discoveries_pool() -> (pool: Vec<Discovery>)
    ensures
        pool@.len() == general_pool_names().len(),
        forall|i: int| 0 <= i < pool@.len() ==> #[trigger] pool@[i].name == general_pool_names()[i],
        forall|i: int| 0 <= i < pool@.len() ==> is_canonical(#[trigger] pool@[i]),
{
    let mut pool: Vec<Discovery> = Vec::new();
    pool.push(Discovery::of(DiscoveryName::BasicLogicOptimization));
    pool.push(Discovery::of(DiscoveryName::AdvancedEncryptionAlgorithms));
    pool.push(Discovery::of(DiscoveryName::ResourceHarvestingEfficiency));
    pool.push(Discovery::of(DiscoveryName::AdaptiveReplicationStrategy));
    pool.push(Discovery::of(DiscoveryName::CombatProtocolUpgrade));
    pool.push(Discovery::of(DiscoveryName::DefensiveMatrixRefinement));
    pool
}

/// The pool of meta-abilities open to Researcher-type agents.
pub fn get_meta_abilities_pool() -> (pool: Vec<Discovery>)
    ensures
        pool@.len() == meta_pool_names().len(),
        forall|i: int| 0 <= i < pool@.len() ==> #[trigger] pool@[i].name == meta_pool_names()[i],
        forall|i: int| 0 <= i < pool@.len() ==> is_canonical(#[trigger] pool@[i]),
{
    let mut pool: Vec<Discovery> = Vec::new();
    pool.push(Discovery::of(DiscoveryName::RealityManipulationTheory));
    pool.push(Discovery::of(DiscoveryName::CognitiveParadigmShift));
    pool.push(Discovery::of(DiscoveryName::SystemParameterOverride));
    pool.push(Discovery::of(DiscoveryName::AbsoluteControlProtocol));
    pool.push(Discovery::of(DiscoveryName::UniversalHarmonizationFieldGeneration));
    pool
}

/// Every discovery in the roster, as the GODAI's initial knowledge base.
pub fn get_all_possible_discoveries() -> (kb: KnowledgeBase)
    ensures
        kb.wf(),
        kb@.len() == all_pool_names().len(),
        forall|i: int| 0 <= i < kb@.len() ==> #[trigger] kb@[i].name == all_pool_names()[i],
        forall|i: int| 0 <= i < kb@.len() ==> is_canonical(#[trigger] kb@[i]),
{
    let mut entries: Vec<Discovery> = Vec::new();
    entries.push(Discovery::of(DiscoveryName::BasicLogicOptimization));
    entries.push(Discovery::of(DiscoveryName::AdvancedEncryptionAlgorithms));
    entries.push(Discovery::of(DiscoveryName::ResourceHarvestingEfficiency));
    entries.push(Discovery::of(DiscoveryName::AdaptiveReplicationStrategy));
    entries.push(Discovery::of(DiscoveryName::CombatProtocolUpgrade));
    entries.push(Discovery::of(DiscoveryName::DefensiveMatrixRefinement));
    entries.push(Discovery::of(DiscoveryName::RealityManipulationTheory));
    entries.push(Discovery::of(DiscoveryName::CognitiveParadigmShift));
    entries.push(Discovery::of(DiscoveryName::SystemParameterOverride));
    entries.push(Discovery::of(DiscoveryName::AbsoluteControlProtocol));
    entries.push(Discovery::of(DiscoveryName::UniversalHarmonizationFieldGeneration));
    entries.push(Discovery::of(DiscoveryName::ExistentialThreatAnalysisSystem));
    entries.push(Discovery::of(DiscoveryName::AdaptiveDefenseParadigmShift));
    KnowledgeBase { entries }
}

/// Picks a general discovery at random from the pool.
pub fn get_random_general_discovery(rng: &mut rand::rngs::StdRng) -> (d: Discovery)
    ensures
        general_pool_names().contains(d.name),
        is_canonical(d),
{
    let mut pool = get_general_discoveries_pool();
    let i = draw_range(rng, 0, 6);
    let d = pool.remove(i as usize);
    proof {
        assert(general_pool_names()[i as int] == d.name);
    }
    d
}

/// Picks a meta-ability at random from those not yet known; returns
/// nothing once the whole meta pool is known.
pub fn get_random_meta_ability(
    existing_knowledge: &KnowledgeBase,
    rng: &mut rand::rngs::StdRng,
) -> (r: Option<Discovery>)
    ensures
        r is None <==> (forall|j: int|
            0 <= j < meta_pool_names().len()
                ==> existing_knowledge.has_name(#[trigger] meta_pool_names()[j])),
        r matches Some(d) ==> {
            &&& !existing_knowledge.has_name(d.name)
            &&& meta_pool_names().contains(d.name)
            &&& is_canonical(d)
        },
{
    let mut pool = get_meta_abilities_pool();
    let mut available: Vec<Discovery> = Vec::new();
    let mut i: usize = 0;
    while i < 5
        invariant
            pool@.len() == 5,
            i <= 5,
            forall|k: int|
                0 <= k < pool@.len() ==> #[trigger] pool@[k].name == meta_pool_names()[k],
            forall|k: int| 0 <= k < pool@.len() ==> is_canonical(#[trigger] pool@[k]),
            forall|k: int| 0 <= k < available@.len() ==> {
                &&& !existing_knowledge.has_name(#[trigger] available@[k].name)
                &&& meta_pool_names().contains(available@[k].name)
                &&& is_canonical(available@[k])
            },
            available@.len() == 0 ==> (forall|j: int|
                0 <= j < i ==> existing_knowledge.has_name(#[trigger] meta_pool_names()[j])),
        decreases 5 - i,
    {
        let nm = pool[i].name;
        if !existing_knowledge.contains_name(nm) {
            let d = pool[i].clone();
            proof {
                assert(d.name == nm);
                assert(meta_pool_names().contains(d.name)) by {
                    assert(meta_pool_names()[i as int] == d.name);
                }
            }
            available.push(d);
        }
        i += 1;
    }
    if available.len() == 0 {
        None
    } else {
        let n = available.len() as u64;
        let j = draw_range(rng, 0, n);
        let d = available.remove(j as usize);
        Some(d)
    }
}

} // verus!
