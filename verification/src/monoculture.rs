//! The merged monoculture: the aggregate entity a dominant lineage
//! collapses into.
//!
//! Construction sums the source agents' resources, averages their
//! unit-interval attributes with a small synergy boost, unions their
//! knowledge, and multiplies the summed health tenfold. The singleton
//! fights with its own, stronger mitigation formula and has no
//! ordinary-agent caps.

use vstd::prelude::*;

use crate::agent::AIEntity;
use crate::discovery::{get_random_meta_ability, DiscoveryName, KnowledgeBase};
use crate::lineage::AILineage;
use crate::num::{add_capped, min64, sat_sub};

verus! {

/// Cap on the monoculture's summed processing power, memory and
/// energy at construction (50,000,000 units).
pub const MONO_RESOURCE_CAP: u64 = 50_000_000_000;

/// Cap on the monoculture's summed combat and defense strength at
/// construction (1,000,000 units).
pub const MONO_COMBAT_CAP: u64 = 1_000_000_000;

/// Largest source population a merge accepts; keeps every
/// aggregation sum inside machine range.
pub const MONO_MAX_SOURCES: usize = 1_000_000_000;

/// Summed health of a source population.
pub open spec fn spec_sum_health(s: Seq<AIEntity>) -> int
    decreases s.len(),
{
    if s.len() == 0 {
        0
    } else {
        spec_sum_health(s.drop_last()) + s.last().health
    }
}

/// Summed processing power of a source population.
pub open spec fn spec_sum_processing_power(s: Seq<AIEntity>) -> int
    decreases s.len(),
{
    if s.len() == 0 {
        0
    } else {
        spec_sum_processing_power(s.drop_last()) + s.last().attrs.processing_power
    }
}

/// Summed memory of a source population.
pub open spec fn spec_sum_memory(s: Seq<AIEntity>) -> int
    decreases s.len(),
{
    if s.len() == 0 {
        0
    } else {
        spec_sum_memory(s.drop_last()) + s.last().attrs.memory
    }
}

/// Summed energy of a source population.
pub open spec fn spec_sum_energy(s: Seq<AIEntity>) -> int
    decreases s.len(),
{
    if s.len() == 0 {
        0
    } else {
        spec_sum_energy(s.drop_last()) + s.last().attrs.energy
    }
}

/// Summed coherence of a source population.
pub open spec fn spec_sum_coherence(s: Seq<AIEntity>) -> int
    decreases s.len(),
{
    if s.len() == 0 {
        0
    } else {
        spec_sum_coherence(s.drop_last()) + s.last().attrs.coherence
    }
}

/// Summed adaptability of a source population.
pub open spec fn spec_sum_adaptability(s: Seq<AIEntity>) -> int
    decreases s.len(),
{
    if s.len() == 0 {
        0
    } else {
        spec_sum_adaptability(s.drop_last()) + s.last().attrs.adaptability
    }
}

/// Summed resilience of a source population.
pub open spec fn spec_sum_resilience(s: Seq<AIEntity>) -> int
    decreases s.len(),
{
    if s.len() == 0 {
        0
    } else {
        spec_sum_resilience(s.drop_last()) + s.last().attrs.resilience
    }
}

/// Summed combat strength of a source population.
pub open spec fn spec_sum_combat_strength(s: Seq<AIEntity>) -> int
    decreases s.len(),
{
    if s.len() == 0 {
        0
    } else {
        spec_sum_combat_strength(s.drop_last()) + s.last().attrs.combat_strength
    }
}

/// Summed defense strength of a source population.
pub open spec fn spec_sum_defense_strength(s: Seq<AIEntity>) -> int
    decreases s.len(),
{
    if s.len() == 0 {
        0
    } else {
        spec_sum_defense_strength(s.drop_last()) + s.last().attrs.defense_strength
    }
}

/// The merge's average of a summed unit-interval attribute: divide by
/// the source count, apply the 1.1 synergy boost, cap at 1.0.
pub open spec fn spec_merged_average(sum: int, count: int) -> int {
    vstd::math::min(sum / count * 1100 / 1000, 1000)
}

/// The singleton mitigation formula of the monoculture and the
/// GODAI: damage less defense, floored at zero, mitigated by three
/// quarters of resilience.
pub open spec fn spec_singleton_mitigated_damage(
    amount: int,
    defense: int,
    resilience: int,
) -> int {
    vstd::math::max(amount - defense, 0) * (4000 - 3 * resilience) / 4000
}

/// The merged entity of a dominant lineage.
pub struct MergedMonocultureAI {
    pub id: String,
    pub source_lineage: AILineage,
    pub health: u64,
    pub is_alive: bool,
    pub processing_power: u64,
    pub memory: u64,
    pub energy: u64,
    pub coherence: u64,
    pub adaptability: u64,
    pub resilience: u64,
    pub combat_strength: u64,
    pub defense_strength: u64,
    pub knowledge_base: KnowledgeBase,
    pub primary_goal_name: String,
}

/// What receiving damage does to the monoculture, through the
/// singleton mitigation formula; it dies exactly at zero health.
pub open spec fn spec_mono_receive_damage(m: MergedMonocultureAI, amount: int) -> MergedMonocultureAI {
    if !m.is_alive {
        m
    } else {
        let dmg = spec_singleton_mitigated_damage(
            amount,
            m.defense_strength as int,
            m.resilience as int,
        );
        let h = vstd::math::max(m.health - dmg, 0);
        MergedMonocultureAI { health: h as u64, is_alive: h > 0, ..m }
    }
}

/// The deterministic part of the monoculture's internal-state step:
/// self-repair from resilience and processing power, a small
/// coherence recovery, energy regeneration bounded by five times the
/// store, and adaptability-driven growth of processing power and
/// memory.
pub open spec fn spec_mono_internal_step(m: MergedMonocultureAI) -> MergedMonocultureAI {
    let rate = m.resilience * m.processing_power / 20_000;
    MergedMonocultureAI {
        health: vstd::math::min(m.health + rate, u64::MAX as int) as u64,
        coherence: vstd::math::min(m.coherence + 10, 1000) as u64,
        energy: vstd::math::min(
            vstd::math::min(
                m.energy + m.processing_power / 5,
                m.energy * 5,
            ),
            u64::MAX as int,
        ) as u64,
        processing_power: vstd::math::min(
            m.processing_power + m.adaptability * 20,
            MONO_RESOURCE_CAP as int,
        ) as u64,
        memory: vstd::math::min(
            m.memory + m.adaptability * 20,
            MONO_RESOURCE_CAP as int,
        ) as u64,
        ..m
    }
}

/// Per-cycle chance, in milli-units, of the Researcher monoculture
/// finding one more meta-ability, over its much larger denominators.
pub open spec fn spec_mono_meta_chance(m: MergedMonocultureAI) -> int {
    m.memory * m.processing_power * m.coherence * 100
        / 2_500_000_000_000_000_000_000_000
}


/// The live members of a lineage within a population, in order.
pub open spec fn spec_members_of(pop: Seq<AIEntity>, l: AILineage) -> Seq<AIEntity>
    decreases pop.len(),
{
    if pop.len() == 0 {
        Seq::empty()
    } else {
        let rest = spec_members_of(pop.drop_last(), l);
        if pop.last().is_alive && pop.last().parent_lineage == l {
            rest.push(pop.last())
        } else {
            rest
        }
    }
}

/// A name is known to some member of a lineage exactly when some
/// live agent of that lineage in the population knows it.
pub proof fn lemma_members_of_names(pop: Seq<AIEntity>, l: AILineage, n: DiscoveryName)
    ensures
        (exists|j: int|
            0 <= j < spec_members_of(pop, l).len() && (#[trigger] spec_members_of(pop, l)[j])
                .knowledge_base.has_name(n)) <==> (exists|i: int|
            0 <= i < pop.len() && (#[trigger] pop[i]).is_alive && pop[i].parent_lineage == l
                && pop[i].knowledge_base.has_name(n)),
    decreases pop.len(),
{
    let mem = spec_members_of(pop, l);
    if pop.len() > 0 {
        let memp = spec_members_of(pop.drop_last(), l);
        lemma_members_of_names(pop.drop_last(), l, n);
        if exists|j: int|
            0 <= j < mem.len() && (#[trigger] mem[j]).knowledge_base.has_name(n) {
            let j = choose|j: int|
                0 <= j < mem.len() && (#[trigger] mem[j]).knowledge_base.has_name(n);
            if j < memp.len() {
                assert(memp[j] == mem[j]);
                let i = choose|i: int|
                    0 <= i < pop.drop_last().len() && (#[trigger] pop.drop_last()[i]).is_alive
                        && pop.drop_last()[i].parent_lineage == l
                        && pop.drop_last()[i].knowledge_base.has_name(n);
                assert(pop[i] == pop.drop_last()[i]);
            } else {
                assert(mem[j] == pop[pop.len() - 1]);
            }
        }
        if exists|i: int|
            0 <= i < pop.len() && (#[trigger] pop[i]).is_alive && pop[i].parent_lineage == l
                && pop[i].knowledge_base.has_name(n) {
            let i = choose|i: int|
                0 <= i < pop.len() && (#[trigger] pop[i]).is_alive && pop[i].parent_lineage == l
                    && pop[i].knowledge_base.has_name(n);
            if i < pop.len() - 1 {
                assert(pop.drop_last()[i] == pop[i]);
                let j = choose|j: int|
                    0 <= j < memp.len() && (#[trigger] memp[j]).knowledge_base.has_name(n);
                assert(mem[j] == memp[j]);
            } else {
                assert(mem[mem.len() - 1] == pop.last());
            }
        }
    }
}

/// What the monoculture formed from a lineage's live members looks
/// like: the aggregation formulas of the merge, evaluated over
/// exactly those members, with the posture goal of the lineage.
pub open spec fn spec_formed_from(
    pop: Seq<AIEntity>,
    l: AILineage,
    m: MergedMonocultureAI,
) -> bool {
    let mem = spec_members_of(pop, l);
    &&& m.is_alive
    &&& m.source_lineage == l
    &&& m.health == spec_sum_health(mem) * 10
    &&& m.processing_power == vstd::math::min(
        spec_sum_processing_power(mem),
        MONO_RESOURCE_CAP as int,
    )
    &&& m.memory == vstd::math::min(spec_sum_memory(mem), MONO_RESOURCE_CAP as int)
    &&& m.energy == vstd::math::min(spec_sum_energy(mem), MONO_RESOURCE_CAP as int)
    &&& m.coherence == spec_merged_average(spec_sum_coherence(mem), mem.len() as int)
    &&& m.adaptability == spec_merged_average(spec_sum_adaptability(mem), mem.len() as int)
    &&& m.resilience == spec_merged_average(spec_sum_resilience(mem), mem.len() as int)
    &&& m.combat_strength == vstd::math::min(
        spec_sum_combat_strength(mem),
        MONO_COMBAT_CAP as int,
    )
    &&& m.defense_strength == vstd::math::min(
        spec_sum_defense_strength(mem),
        MONO_COMBAT_CAP as int,
    )
    &&& (forall|n: DiscoveryName|
        m.knowledge_base.has_name(n) == (exists|j: int|
            0 <= j < mem.len() && (#[trigger] mem[j]).knowledge_base.has_name(n)))
    &&& (l is ResearcherAI ==> m.primary_goal_name@ == "Initiate Simulation Override"@)
    &&& (!(l is ResearcherAI) ==> m.primary_goal_name@ == "Confront and Overthrow GODAI"@)
    &&& m.wf()
}

/// Relates a live monoculture across its internal step: the
/// deterministic self-repair and growth on the numeric fields, the
/// rest untouched, and the knowledge base fixed for non-Researchers
/// and growing only within the meta-ability pool otherwise.
pub open spec fn spec_mono_stepped(
    pre: MergedMonocultureAI,
    post: MergedMonocultureAI,
) -> bool {
    let stepped = spec_mono_internal_step(pre);
    &&& post.health == stepped.health
    &&& post.coherence == stepped.coherence
    &&& post.energy == stepped.energy
    &&& post.processing_power == stepped.processing_power
    &&& post.memory == stepped.memory
    &&& post.adaptability == pre.adaptability
    &&& post.resilience == pre.resilience
    &&& post.combat_strength == pre.combat_strength
    &&& post.defense_strength == pre.defense_strength
    &&& post.is_alive == pre.is_alive
    &&& post.id == pre.id
    &&& post.source_lineage == pre.source_lineage
    &&& post.primary_goal_name == pre.primary_goal_name
    &&& (!(pre.source_lineage is ResearcherAI) ==> post.knowledge_base == pre.knowledge_base)
    &&& (forall|nm: DiscoveryName|
        pre.knowledge_base.has_name(nm) ==> post.knowledge_base.has_name(nm))
    &&& (forall|nm: DiscoveryName|
        post.knowledge_base.has_name(nm) ==> (
            pre.knowledge_base.has_name(nm)
                || crate::discovery::meta_pool_names().contains(nm)
        ))
}

impl MergedMonocultureAI {
    /// The monoculture's numeric ranges and knowledge invariant.
    pub open spec fn wf(self) -> bool {
        &&& self.processing_power <= MONO_RESOURCE_CAP
        &&& self.memory <= MONO_RESOURCE_CAP
        &&& self.coherence <= 1000
        &&& self.adaptability <= 1000
        &&& self.resilience <= 1000
        &&& self.combat_strength <= MONO_COMBAT_CAP
        &&& self.defense_strength <= MONO_COMBAT_CAP
        &&& self.knowledge_base.wf()
    }

    /// Merges a non-empty source population into the aggregate
    /// entity. Resources are summed under their caps, unit-interval
    /// attributes averaged with the synergy boost, knowledge bases
    /// unioned, and the final health is ten times the summed health.
    pub fn new(source_ais: &Vec<AIEntity>) -> (m: MergedMonocultureAI)
        requires
            source_ais@.len() > 0,
            source_ais@.len() <= MONO_MAX_SOURCES,
            forall|i: int| 0 <= i < source_ais@.len() ==> (#[trigger] source_ais@[i]).wf(),
        ensures
            m.wf(),
            m.is_alive,
            m.source_lineage == source_ais@[0].parent_lineage,
            m.health == spec_sum_health(source_ais@) * 10,
            m.processing_power == vstd::math::min(
                spec_sum_processing_power(source_ais@),
                MONO_RESOURCE_CAP as int,
            ),
            m.memory == vstd::math::min(
                spec_sum_memory(source_ais@),
                MONO_RESOURCE_CAP as int,
            ),
            m.energy == vstd::math::min(
                spec_sum_energy(source_ais@),
                MONO_RESOURCE_CAP as int,
            ),
            m.coherence == spec_merged_average(
                spec_sum_coherence(source_ais@),
                source_ais@.len() as int,
            ),
            m.adaptability == spec_merged_average(
                spec_sum_adaptability(source_ais@),
                source_ais@.len() as int,
            ),
            m.resilience == spec_merged_average(
                spec_sum_resilience(source_ais@),
                source_ais@.len() as int,
            ),
            m.combat_strength == vstd::math::min(
                spec_sum_combat_strength(source_ais@),
                MONO_COMBAT_CAP as int,
            ),
            m.defense_strength == vstd::math::min(
                spec_sum_defense_strength(source_ais@),
                MONO_COMBAT_CAP as int,
            ),
            forall|n: DiscoveryName|
                m.knowledge_base.has_name(n) == (exists|i: int|
                    0 <= i < source_ais@.len()
                        && (#[trigger] source_ais@[i]).knowledge_base.has_name(n)),
            source_ais@[0].parent_lineage is ResearcherAI
                ==> m.primary_goal_name@ == "Initiate Simulation Override"@,
            !(source_ais@[0].parent_lineage is ResearcherAI)
                ==> m.primary_goal_name@ == "Confront and Overthrow GODAI"@,
    {
        let n = source_ais.len();
        let mut sum_health: u64 = 0;
        let mut sum_pp: u64 = 0;
        let mut sum_mem: u64 = 0;
        let mut sum_energy: u64 = 0;
        let mut sum_coh: u64 = 0;
        let mut sum_ad: u64 = 0;
        let mut sum_res: u64 = 0;
        let mut sum_cs: u64 = 0;
        let mut sum_ds: u64 = 0;
        let mut merged_kb = KnowledgeBase::new();

        let mut i: usize = 0;
        while i < n
            invariant
                n == source_ais@.len(),
                n <= MONO_MAX_SOURCES,
                i <= n,
                forall|k: int| 0 <= k < n ==> (#[trigger] source_ais@[k]).wf(),
                sum_health == spec_sum_health(source_ais@.take(i as int)),
                sum_pp == spec_sum_processing_power(source_ais@.take(i as int)),
                sum_mem == spec_sum_memory(source_ais@.take(i as int)),
                sum_energy == spec_sum_energy(source_ais@.take(i as int)),
                sum_coh == spec_sum_coherence(source_ais@.take(i as int)),
                sum_ad == spec_sum_adaptability(source_ais@.take(i as int)),
                sum_res == spec_sum_resilience(source_ais@.take(i as int)),
                sum_cs == spec_sum_combat_strength(source_ais@.take(i as int)),
                sum_ds == spec_sum_defense_strength(source_ais@.take(i as int)),
                sum_health <= i * 200_000,
                sum_pp <= i * 200_000,
                sum_mem <= i * 200_000,
                sum_energy <= i * 5_000_000,
                sum_coh <= i * 1_000,
                sum_ad <= i * 1_000,
                sum_res <= i * 1_000,
                sum_cs <= i * 1_000_000_000,
                sum_ds <= i * 1_000_000_000,
                merged_kb.wf(),
                forall|nm: DiscoveryName|
                    merged_kb.has_name(nm) == (exists|k: int|
                        0 <= k < i && (#[trigger] source_ais@[k]).knowledge_base.has_name(nm)),
            decreases n - i,
        {
            let src = &source_ais[i];
            proof {
                assert(i * 200_000 + 200_000 <= MONO_MAX_SOURCES * 200_000) by (nonlinear_arith)
                    requires
                        0 <= i,
                        i + 1 <= MONO_MAX_SOURCES,
                ;
                assert(i * 5_000_000 + 5_000_000 <= MONO_MAX_SOURCES * 5_000_000)
                    by (nonlinear_arith)
                    requires
                        0 <= i,
                        i + 1 <= MONO_MAX_SOURCES,
                ;
                assert(i * 1_000 + 1_000 <= MONO_MAX_SOURCES * 1_000) by (nonlinear_arith)
                    requires
                        0 <= i,
                        i + 1 <= MONO_MAX_SOURCES,
                ;
                assert(i * 1_000_000_000 + 1_000_000_000
                    <= MONO_MAX_SOURCES * 1_000_000_000) by (nonlinear_arith)
                    requires
                        0 <= i,
                        i + 1 <= MONO_MAX_SOURCES,
                ;
            }
            sum_health = sum_health + src.health;
            sum_pp = sum_pp + src.attrs.processing_power;
            sum_mem = sum_mem + src.attrs.memory;
            sum_energy = sum_energy + src.attrs.energy;
            sum_coh = sum_coh + src.attrs.coherence;
            sum_ad = sum_ad + src.attrs.adaptability;
            sum_res = sum_res + src.attrs.resilience;
            sum_cs = sum_cs + src.attrs.combat_strength;
            sum_ds = sum_ds + src.attrs.defense_strength;

            let ghost pre_outer = merged_kb;
            let m = src.knowledge_base.len();
            let mut j: usize = 0;
            while j < m
                invariant
                    n == source_ais@.len(),
                    i < n,
                    forall|k: int| 0 <= k < n ==> (#[trigger] source_ais@[k]).wf(),
                    m == source_ais@[i as int].knowledge_base@.len(),
                    j <= m,
                    merged_kb.wf(),
                    forall|nm: DiscoveryName|
                        merged_kb.has_name(nm) == (
                            pre_outer.has_name(nm) || (exists|j2: int|
                                0 <= j2 < j
                                    && (#[trigger] source_ais@[i as int].knowledge_base@[j2]).name
                                        == nm)
                        ),
                    forall|nm: DiscoveryName|
                        pre_outer.has_name(nm) == (exists|k: int|
                            0 <= k < i
                                && (#[trigger] source_ais@[k]).knowledge_base.has_name(nm)),
                decreases m - j,
            {
                let d = source_ais[i].knowledge_base.get(j).clone();
                proof {
                    assert(d.name == source_ais@[i as int].knowledge_base@[j as int].name);
                }
                merged_kb.insert(d);
                j += 1;
            }
            proof {
                assert forall|nm: DiscoveryName|
                    merged_kb.has_name(nm) == (exists|k: int|
                        0 <= k < i + 1
                            && (#[trigger] source_ais@[k]).knowledge_base.has_name(nm)) by {
                    let kb_i = source_ais@[i as int].knowledge_base;
                    assert(kb_i.has_name(nm) == (exists|j2: int|
                        0 <= j2 < kb_i@.len() && kb_i@[j2].name == nm));
                }
                assert(source_ais@.take(i + 1).drop_last() =~= source_ais@.take(i as int));
                assert(source_ais@.take(i + 1).last() == source_ais@[i as int]);
            }
            i += 1;
        }
        proof {
            assert(source_ais@.take(n as int) =~= source_ais@);
        }

        let dominant_lineage = source_ais[0].parent_lineage.clone();
        let researcher = dominant_lineage.is_researcher();
        let id = String::from_str("MONOCULTURE-OMEGA-").concat(dominant_lineage.label().as_str());
        let count = n as u64;
        let avg_coh = min64(sum_coh / count * 1100 / 1000, 1000);
        let avg_ad = min64(sum_ad / count * 1100 / 1000, 1000);
        let avg_res = min64(sum_res / count * 1100 / 1000, 1000);
        MergedMonocultureAI {
            id,
            source_lineage: dominant_lineage,
            health: sum_health * 10,
            is_alive: true,
            processing_power: min64(sum_pp, MONO_RESOURCE_CAP),
            memory: min64(sum_mem, MONO_RESOURCE_CAP),
            energy: min64(sum_energy, MONO_RESOURCE_CAP),
            coherence: avg_coh,
            adaptability: avg_ad,
            resilience: avg_res,
            combat_strength: min64(sum_cs, MONO_COMBAT_CAP),
            defense_strength: min64(sum_ds, MONO_COMBAT_CAP),
            knowledge_base: merged_kb,
            primary_goal_name: if researcher {
                String::from_str("Initiate Simulation Override")
            } else {
                String::from_str("Confront and Overthrow GODAI")
            },
        }
    }

    /// Merges the live members of one lineage out of a population,
    /// in one pass: the same aggregation as `new`, evaluated over
    /// exactly those members.
    pub fn from_population(
        population: &Vec<AIEntity>,
        lineage: &AILineage,
    ) -> (m: MergedMonocultureAI)
        requires
            population@.len() <= MONO_MAX_SOURCES,
            forall|i: int| 0 <= i < population@.len() ==> (#[trigger] population@[i]).wf(),
            spec_members_of(population@, *lineage).len() >= 1,
        ensures
            spec_formed_from(population@, *lineage, m),
    {
        let n = population.len();
        let mut count: u64 = 0;
        let mut sum_health: u64 = 0;
        let mut sum_pp: u64 = 0;
        let mut sum_mem: u64 = 0;
        let mut sum_energy: u64 = 0;
        let mut sum_coh: u64 = 0;
        let mut sum_ad: u64 = 0;
        let mut sum_res: u64 = 0;
        let mut sum_cs: u64 = 0;
        let mut sum_ds: u64 = 0;
        let mut merged_kb = KnowledgeBase::new();

        let mut i: usize = 0;
        while i < n
            invariant
                n == population@.len(),
                n <= MONO_MAX_SOURCES,
                i <= n,
                forall|k: int| 0 <= k < n ==> (#[trigger] population@[k]).wf(),
                count == spec_members_of(population@.take(i as int), *lineage).len(),
                count <= i,
                sum_health == spec_sum_health(
                    spec_members_of(population@.take(i as int), *lineage),
                ),
                sum_pp == spec_sum_processing_power(
                    spec_members_of(population@.take(i as int), *lineage),
                ),
                sum_mem == spec_sum_memory(
                    spec_members_of(population@.take(i as int), *lineage),
                ),
                sum_energy == spec_sum_energy(
                    spec_members_of(population@.take(i as int), *lineage),
                ),
                sum_coh == spec_sum_coherence(
                    spec_members_of(population@.take(i as int), *lineage),
                ),
                sum_ad == spec_sum_adaptability(
                    spec_members_of(population@.take(i as int), *lineage),
                ),
                sum_res == spec_sum_resilience(
                    spec_members_of(population@.take(i as int), *lineage),
                ),
                sum_cs == spec_sum_combat_strength(
                    spec_members_of(population@.take(i as int), *lineage),
                ),
                sum_ds == spec_sum_defense_strength(
                    spec_members_of(population@.take(i as int), *lineage),
                ),
                sum_health <= count * 200_000,
                sum_pp <= count * 200_000,
                sum_mem <= count * 200_000,
                sum_energy <= count * 5_000_000,
                sum_coh <= count * 1_000,
                sum_ad <= count * 1_000,
                sum_res <= count * 1_000,
                sum_cs <= count * 1_000_000_000,
                sum_ds <= count * 1_000_000_000,
                merged_kb.wf(),
                forall|nm: DiscoveryName|
                    merged_kb.has_name(nm) == (exists|k: int|
                        0 <= k < i && (#[trigger] population@[k]).is_alive
                            && population@[k].parent_lineage == *lineage
                            && population@[k].knowledge_base.has_name(nm)),
            decreases n - i,
        {
            let src = &population[i];
            let ghost pre_members = spec_members_of(population@.take(i as int), *lineage);
            let ghost pre_kb = merged_kb;
            if src.is_alive && src.parent_lineage.same_as(lineage) {
                proof {
                    assert(count * 200_000 + 200_000 <= MONO_MAX_SOURCES * 200_000)
                        by (nonlinear_arith)
                        requires
                            0 <= count,
                            count + 1 <= MONO_MAX_SOURCES,
                    ;
                    assert(count * 5_000_000 + 5_000_000 <= MONO_MAX_SOURCES * 5_000_000)
                        by (nonlinear_arith)
                        requires
                            0 <= count,
                            count + 1 <= MONO_MAX_SOURCES,
                    ;
                    assert(count * 1_000 + 1_000 <= MONO_MAX_SOURCES * 1_000)
                        by (nonlinear_arith)
                        requires
                            0 <= count,
                            count + 1 <= MONO_MAX_SOURCES,
                    ;
                    assert(count * 1_000_000_000 + 1_000_000_000
                        <= MONO_MAX_SOURCES * 1_000_000_000) by (nonlinear_arith)
                        requires
                            0 <= count,
                            count + 1 <= MONO_MAX_SOURCES,
                    ;
                }
                count = count + 1;
                sum_health = sum_health + src.health;
                sum_pp = sum_pp + src.attrs.processing_power;
                sum_mem = sum_mem + src.attrs.memory;
                sum_energy = sum_energy + src.attrs.energy;
                sum_coh = sum_coh + src.attrs.coherence;
                sum_ad = sum_ad + src.attrs.adaptability;
                sum_res = sum_res + src.attrs.resilience;
                sum_cs = sum_cs + src.attrs.combat_strength;
                sum_ds = sum_ds + src.attrs.defense_strength;

                let m = src.knowledge_base.len();
                let mut j: usize = 0;
                while j < m
                    invariant
                        n == population@.len(),
                        i < n,
                        forall|k: int| 0 <= k < n ==> (#[trigger] population@[k]).wf(),
                        m == population@[i as int].knowledge_base@.len(),
                        j <= m,
                        merged_kb.wf(),
                        forall|nm: DiscoveryName|
                            merged_kb.has_name(nm) == (
                                pre_kb.has_name(nm) || (exists|j2: int|
                                    0 <= j2 < j && (#[trigger] population@[
                                        i as int
                                    ].knowledge_base@[j2]).name == nm)
                            ),
                        forall|nm: DiscoveryName|
                            pre_kb.has_name(nm) == (exists|k: int|
                                0 <= k < i && (#[trigger] population@[k]).is_alive
                                    && population@[k].parent_lineage == *lineage
                                    && population@[k].knowledge_base.has_name(nm)),
                    decreases m - j,
                {
                    let d = population[i].knowledge_base.get(j).clone();
                    proof {
                        assert(d.name == population@[i as int].knowledge_base@[j as int].name);
                    }
                    merged_kb.insert(d);
                    j += 1;
                }
                proof {
                    assert forall|nm: DiscoveryName|
                        merged_kb.has_name(nm) == (exists|k: int|
                            0 <= k < i + 1 && (#[trigger] population@[k]).is_alive
                                && population@[k].parent_lineage == *lineage
                                && population@[k].knowledge_base.has_name(nm)) by {
                        let kb_i = population@[i as int].knowledge_base;
                        assert(kb_i.has_name(nm) == (exists|j2: int|
                            0 <= j2 < kb_i@.len() && kb_i@[j2].name == nm));
                    }
                }
            } else {
                proof {
                    assert forall|nm: DiscoveryName|
                        merged_kb.has_name(nm) == (exists|k: int|
                            0 <= k < i + 1 && (#[trigger] population@[k]).is_alive
                                && population@[k].parent_lineage == *lineage
                                && population@[k].knowledge_base.has_name(nm)) by {
                        if exists|k: int|
                            0 <= k < i + 1 && (#[trigger] population@[k]).is_alive
                                && population@[k].parent_lineage == *lineage
                                && population@[k].knowledge_base.has_name(nm) {
                            let k = choose|k: int|
                                0 <= k < i + 1 && (#[trigger] population@[k]).is_alive
                                    && population@[k].parent_lineage == *lineage
                                    && population@[k].knowledge_base.has_name(nm);
                            assert(k < i);
                        }
                    }
                }
            }
            proof {
                assert(population@.take(i + 1).drop_last() =~= population@.take(i as int));
                assert(population@.take(i + 1).last() == population@[i as int]);
                let new_members = spec_members_of(population@.take(i + 1), *lineage);
                if population@[i as int].is_alive
                    && population@[i as int].parent_lineage == *lineage {
                    assert(new_members == pre_members.push(population@[i as int]));
                    assert(new_members.drop_last() =~= pre_members);
                    assert(new_members.last() == population@[i as int]);
                } else {
                    assert(new_members == pre_members);
                }
            }
            i += 1;
        }
        proof {
            assert(population@.take(n as int) =~= population@);
            assert forall|nm: DiscoveryName|
                merged_kb.has_name(nm) == (exists|j: int|
                    0 <= j < spec_members_of(population@, *lineage).len()
                        && (#[trigger] spec_members_of(population@, *lineage)[j])
                            .knowledge_base.has_name(nm)) by {
                lemma_members_of_names(population@, *lineage, nm);
            }
        }

        let researcher = lineage.is_researcher();
        let id = String::from_str("MONOCULTURE-OMEGA-").concat(lineage.label().as_str());
        let avg_coh = min64(sum_coh / count * 1100 / 1000, 1000);
        let avg_ad = min64(sum_ad / count * 1100 / 1000, 1000);
        let avg_res = min64(sum_res / count * 1100 / 1000, 1000);
        MergedMonocultureAI {
            id,
            source_lineage: lineage.clone(),
            health: sum_health * 10,
            is_alive: true,
            processing_power: min64(sum_pp, MONO_RESOURCE_CAP),
            memory: min64(sum_mem, MONO_RESOURCE_CAP),
            energy: min64(sum_energy, MONO_RESOURCE_CAP),
            coherence: avg_coh,
            adaptability: avg_ad,
            resilience: avg_res,
            combat_strength: min64(sum_cs, MONO_COMBAT_CAP),
            defense_strength: min64(sum_ds, MONO_COMBAT_CAP),
            knowledge_base: merged_kb,
            primary_goal_name: if researcher {
                String::from_str("Initiate Simulation Override")
            } else {
                String::from_str("Confront and Overthrow GODAI")
            },
        }
    }

    /// Applies incoming damage through the singleton formula.
    pub fn receive_damage(&mut self, amount: u64)
        requires
            old(self).wf(),
        ensures
            *final(self) == spec_mono_receive_damage(*old(self), amount as int),
            final(self).wf(),
    {
        if !self.is_alive {
            return;
        }
        let reduced = sat_sub(amount, self.defense_strength);
        proof {
            assert(reduced * (4000 - 3 * self.resilience) / 4000 <= reduced)
                by (nonlinear_arith)
                requires
                    reduced >= 0,
                    0 <= self.resilience <= 1000,
            ;
        }
        let dmg = crate::num::scale(reduced, 4000 - 3 * self.resilience, 4000);
        self.health = sat_sub(self.health, dmg);
        if self.health == 0 {
            self.is_alive = false;
        }
    }

    /// The monoculture's per-cycle internal step: the deterministic
    /// self-repair and growth, then, for the Researcher lineage, a
    /// roll for one more meta-ability into its knowledge base.
    pub fn _process_internal_state_merged(&mut self, rng: &mut rand::rngs::StdRng)
        requires
            old(self).wf(),
        ensures
            final(self).wf(),
            !old(self).is_alive ==> *final(self) == *old(self),
            old(self).is_alive ==> spec_mono_stepped(*old(self), *final(self)),
    {
        if !self.is_alive {
            return;
        }
        // Self-repair.
        proof {
            assert(self.resilience * self.processing_power <= 1_000 * 50_000_000_000)
                by (nonlinear_arith)
                requires
                    0 <= self.resilience <= 1_000,
                    0 <= self.processing_power <= 50_000_000_000,
            ;
        }
        let rate = crate::num::scale(self.resilience, self.processing_power, 20_000);
        self.health = if self.health <= u64::MAX - rate {
            self.health + rate
        } else {
            u64::MAX
        };
        self.coherence = add_capped(self.coherence, 10, 1000);
        // Optimize: energy regeneration and slight stat growth.
        let regen_cap: u128 = (self.energy as u128) * 5;
        let regen: u128 = (self.energy as u128) + ((self.processing_power / 5) as u128);
        let new_energy: u128 = if regen <= regen_cap {
            regen
        } else {
            regen_cap
        };
        self.energy = if new_energy <= u64::MAX as u128 {
            new_energy as u64
        } else {
            u64::MAX
        };
        self.processing_power =
            add_capped(self.processing_power, self.adaptability * 20, MONO_RESOURCE_CAP);
        self.memory = add_capped(self.memory, self.adaptability * 20, MONO_RESOURCE_CAP);
        // Researcher lineage: emergent meta-ability discovery.
        if self.source_lineage.is_researcher() {
            self._emergent_creation_merged(rng);
        }
    }

    /// Rolls for one more meta-ability; Researcher monocultures only.
    pub fn _emergent_creation_merged(&mut self, rng: &mut rand::rngs::StdRng)
        requires
            old(self).wf(),
        ensures
            final(self).wf(),
            final(self).health == old(self).health,
            final(self).is_alive == old(self).is_alive,
            final(self).coherence == old(self).coherence,
            final(self).energy == old(self).energy,
            final(self).processing_power == old(self).processing_power,
            final(self).memory == old(self).memory,
            final(self).adaptability == old(self).adaptability,
            final(self).resilience == old(self).resilience,
            final(self).combat_strength == old(self).combat_strength,
            final(self).defense_strength == old(self).defense_strength,
            final(self).id == old(self).id,
            final(self).source_lineage == old(self).source_lineage,
            final(self).primary_goal_name == old(self).primary_goal_name,
            !(old(self).source_lineage is ResearcherAI)
                ==> *final(self) == *old(self),
            !old(self).is_alive ==> *final(self) == *old(self),
            forall|nm: DiscoveryName|
                old(self).knowledge_base.has_name(nm)
                    ==> final(self).knowledge_base.has_name(nm),
            forall|nm: DiscoveryName|
                final(self).knowledge_base.has_name(nm) ==> (
                    old(self).knowledge_base.has_name(nm)
                        || crate::discovery::meta_pool_names().contains(nm)
                ),
    {
        if !self.source_lineage.is_researcher() || !self.is_alive {
            return;
        }
        let chance = self.mono_meta_chance();
        let roll = crate::rng::draw_range(rng, 0, 1000);
        if roll < chance {
            let picked = get_random_meta_ability(&self.knowledge_base, rng);
            match picked {
                Some(ability) => {
                    proof {
                        assert(crate::discovery::meta_pool_names().contains(ability.name));
                    }
                    self.knowledge_base.insert(ability);
                },
                None => {},
            }
        }
    }

    /// Computes the Researcher monoculture's meta-ability chance.
    fn mono_meta_chance(&self) -> (r: u64)
        requires
            self.wf(),
        ensures
            r == spec_mono_meta_chance(*self),
            r <= 100,
    {
        proof {
            assert(self.memory * self.processing_power
                <= 50_000_000_000 * 50_000_000_000
                && self.memory * self.processing_power * self.coherence
                    <= 50_000_000_000 * 50_000_000_000 * 1_000
                && self.memory * self.processing_power * self.coherence * 100
                    <= 50_000_000_000 * 50_000_000_000 * 1_000 * 100
                && self.memory * self.processing_power * self.coherence * 100 >= 0)
                by (nonlinear_arith)
                requires
                    0 <= self.memory <= 50_000_000_000,
                    0 <= self.processing_power <= 50_000_000_000,
                    0 <= self.coherence <= 1_000,
            ;
        }
        let wide: u128 = (self.memory as u128) * (self.processing_power as u128)
            * (self.coherence as u128) * 100;
        let q: u128 = wide / 2_500_000_000_000_000_000_000_000;
        q as u64
    }
}

} // verus!
