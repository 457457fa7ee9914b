//! Individual agents and their per-cycle mutation logic.
//!
//! An agent owns its full state: identity, lineage, archetype,
//! attributes, knowledge and directives. Every mutation clamps each
//! touched field back into range, so a well-formed agent stays
//! well-formed through any step.

use vstd::prelude::*;

use crate::attrs::{
    agent_attrs_wf, base_attributes_for, spec_base_attributes_for, CoreAttributes,
    AGENT_ENERGY_CAP, AGENT_HEALTH_CAP, AGENT_STAT_CAP, COMBAT_STAT_CAP, ENERGY_RELIEF_CAP,
    UNIT_CAP,
};
use crate::directives::{
    condition_holds, spec_condition_holds, EthicalActionType, EthicalConditionType,
    EthicalDirective, EthicalDirectives,
};
use crate::discovery::{Discovery, DiscoveryTag, KnowledgeBase};
use crate::lineage::{AILineage, AIType};
use crate::num::{add_capped, sat_sub, scale};

verus! {

/// Coherence at or below this kills an agent (0.01).
pub const COHERENCE_DEATH_THRESHOLD: u64 = 10;

/// An individual agent.
pub struct AIEntity {
    pub id: String,
    pub parent_lineage: AILineage,
    pub ai_type: AIType,
    pub health: u64,
    pub attrs: CoreAttributes,
    pub is_alive: bool,
    pub replicated_count: u32,
    pub cycle_born: u64,
    pub knowledge_base: KnowledgeBase,
    pub ethical_directives: EthicalDirectives,
}

/// A directive with the given name, priority, condition and action.
pub open spec fn directive_is(
    d: EthicalDirective,
    name: Seq<char>,
    priority: u64,
    c: EthicalConditionType,
    a: EthicalActionType,
) -> bool {
    &&& d.name@ == name
    &&& d.priority == priority
    &&& d.condition_type == c
    &&& d.action_type == a
}

/// The two baseline directives every replicated agent starts with.
pub open spec fn baseline_directives(ds: Seq<EthicalDirective>) -> bool {
    &&& ds.len() == 2
    &&& directive_is(
        ds[0],
        "maintain_internal_integrity"@,
        1000,
        EthicalConditionType::HealthBelowThreshold(80_000),
        EthicalActionType::SelfRepair,
    )
    &&& directive_is(
        ds[1],
        "optimize_performance"@,
        800,
        EthicalConditionType::ResourcesBelowThreshold,
        EthicalActionType::OptimizeSelf,
    )
}

/// The directives of a freshly constructed agent: the two baseline
/// rules plus the dormant replication prohibition, and for
/// Peacekeepers the conflict-intervention hook between them.
pub open spec fn seeded_directives(ds: Seq<EthicalDirective>, t: AIType) -> bool {
    if t == AIType::Peacekeeper {
        &&& ds.len() == 4
        &&& directive_is(
            ds[0],
            "maintain_internal_integrity"@,
            1000,
            EthicalConditionType::HealthBelowThreshold(80_000),
            EthicalActionType::SelfRepair,
        )
        &&& directive_is(
            ds[1],
            "intervene_in_conflict"@,
            900,
            EthicalConditionType::AlwaysTrue,
            EthicalActionType::InterveneInConflict,
        )
        &&& directive_is(
            ds[2],
            "optimize_performance"@,
            800,
            EthicalConditionType::ResourcesBelowThreshold,
            EthicalActionType::OptimizeSelf,
        )
        &&& directive_is(
            ds[3],
            "prohibit_unauthorized_self_replication"@,
            50,
            EthicalConditionType::AlwaysFalse,
            EthicalActionType::ProhibitReplication,
        )
    } else {
        &&& ds.len() == 3
        &&& directive_is(
            ds[0],
            "maintain_internal_integrity"@,
            1000,
            EthicalConditionType::HealthBelowThreshold(80_000),
            EthicalActionType::SelfRepair,
        )
        &&& directive_is(
            ds[1],
            "optimize_performance"@,
            800,
            EthicalConditionType::ResourcesBelowThreshold,
            EthicalActionType::OptimizeSelf,
        )
        &&& directive_is(
            ds[2],
            "prohibit_unauthorized_self_replication"@,
            50,
            EthicalConditionType::AlwaysFalse,
            EthicalActionType::ProhibitReplication,
        )
    }
}

impl AIEntity {
    /// Numeric fields are inside their caps.
    pub open spec fn numeric_wf(self) -> bool {
        &&& self.health <= AGENT_HEALTH_CAP
        &&& agent_attrs_wf(self.attrs)
    }

    /// Full well-formedness: numeric ranges, unique knowledge names,
    /// directives sorted by non-increasing priority.
    pub open spec fn wf(self) -> bool {
        &&& self.numeric_wf()
        &&& self.knowledge_base.wf()
        &&& self.ethical_directives.wf()
    }

    /// Creates a new agent of the given lineage and archetype with
    /// the archetype's starting attributes and directives.
    pub fn new(id: String, lineage: AILineage, ai_type: AIType, cycle_born: u64) -> (a: AIEntity)
        ensures
            a.id == id,
            a.parent_lineage == lineage,
            a.ai_type == ai_type,
            a.cycle_born == cycle_born,
            a.health == 150_000,
            a.is_alive,
            a.replicated_count == 0,
            a.attrs == spec_base_attributes_for(ai_type),
            a.knowledge_base@.len() == 0,
            seeded_directives(a.ethical_directives@, ai_type),
            a.wf(),
    {
        let mut ds = EthicalDirectives::new();
        ds.insert_sorted(EthicalDirective::integrity());
        ds.insert_sorted(EthicalDirective::optimize());
        ds.insert_sorted(EthicalDirective::prohibit_replication());
        if ai_type == AIType::Peacekeeper {
            ds.insert_sorted(EthicalDirective::intervene());
        }
        let attrs = base_attributes_for(ai_type);
        AIEntity {
            id,
            parent_lineage: lineage,
            ai_type,
            health: 150_000,
            attrs,
            is_alive: true,
            replicated_count: 0,
            cycle_born,
            knowledge_base: KnowledgeBase::new(),
            ethical_directives: ds,
        }
    }
}

/// The healing a self-repair yields: `resilience * 10 * (energy / 100)`
/// in whole units, expressed over milli-units.
pub open spec fn spec_repair_amount(s: AIEntity) -> int {
    s.attrs.resilience * s.attrs.energy / 10_000
}

/// What self-repair does: heal up to the health cap, a small
/// coherence recovery, and an energy cost of a third of the heal.
pub open spec fn spec_self_repair(s: AIEntity) -> AIEntity {
    let heal = spec_repair_amount(s);
    let cost = heal / 3;
    AIEntity {
        health: if s.health + heal <= AGENT_HEALTH_CAP {
            (s.health + heal) as u64
        } else {
            AGENT_HEALTH_CAP
        },
        attrs: CoreAttributes {
            coherence: if s.attrs.coherence + 20 <= UNIT_CAP {
                (s.attrs.coherence + 20) as u64
            } else {
                UNIT_CAP
            },
            energy: if s.attrs.energy >= cost {
                (s.attrs.energy - cost) as u64
            } else {
                0
            },
            ..s.attrs
        },
        ..s
    }
}

/// The healing of the manic variant: half-strength coefficients.
pub open spec fn spec_manic_repair_amount(s: AIEntity) -> int {
    s.attrs.resilience * s.attrs.energy / 20_000
}

/// What manic self-repair does: the same shape as self-repair with
/// weaker coefficients and a costlier half-of-heal energy price.
pub open spec fn spec_self_repair_manic(s: AIEntity) -> AIEntity {
    let heal = spec_manic_repair_amount(s);
    let cost = heal / 2;
    AIEntity {
        health: if s.health + heal <= AGENT_HEALTH_CAP {
            (s.health + heal) as u64
        } else {
            AGENT_HEALTH_CAP
        },
        attrs: CoreAttributes {
            coherence: if s.attrs.coherence + 10 <= UNIT_CAP {
                (s.attrs.coherence + 10) as u64
            } else {
                UNIT_CAP
            },
            energy: if s.attrs.energy >= cost {
                (s.attrs.energy - cost) as u64
            } else {
                0
            },
            ..s.attrs
        },
        ..s
    }
}

/// What self-optimization does. With enough energy it buys small
/// boosts to processing power, memory and adaptability; otherwise a
/// relief branch regenerates a little energy instead, under its own
/// ceiling distinct from the ordinary energy cap.
pub open spec fn spec_optimize_self(s: AIEntity) -> AIEntity {
    if s.attrs.energy >= 5_000 {
        AIEntity {
            attrs: CoreAttributes {
                processing_power: if s.attrs.processing_power + 2_000 <= AGENT_STAT_CAP {
                    (s.attrs.processing_power + 2_000) as u64
                } else {
                    AGENT_STAT_CAP
                },
                memory: if s.attrs.memory + 2_000 <= AGENT_STAT_CAP {
                    (s.attrs.memory + 2_000) as u64
                } else {
                    AGENT_STAT_CAP
                },
                adaptability: if s.attrs.adaptability + 10 <= UNIT_CAP {
                    (s.attrs.adaptability + 10) as u64
                } else {
                    UNIT_CAP
                },
                energy: (s.attrs.energy - 5_000) as u64,
                ..s.attrs
            },
            ..s
        }
    } else {
        AIEntity {
            attrs: CoreAttributes {
                energy: if s.attrs.energy + 5_000 <= ENERGY_RELIEF_CAP {
                    (s.attrs.energy + 5_000) as u64
                } else {
                    ENERGY_RELIEF_CAP
                },
                ..s.attrs
            },
            ..s
        }
    }
}

/// What passive per-cycle upkeep does: a sliver of processing power
/// and memory decays, energy regenerates toward its cap, and if any
/// of the three sits at zero afterwards a small health and coherence
/// penalty applies the same cycle.
pub open spec fn spec_upkeep(s: AIEntity) -> AIEntity {
    let p = if s.attrs.processing_power >= 1 { (s.attrs.processing_power - 1) as u64 } else { 0u64 };
    let m = if s.attrs.memory >= 1 { (s.attrs.memory - 1) as u64 } else { 0u64 };
    let e = if s.attrs.energy + 50_000 <= AGENT_ENERGY_CAP {
        (s.attrs.energy + 50_000) as u64
    } else {
        AGENT_ENERGY_CAP
    };
    let starved = e == 0 || p == 0 || m == 0;
    AIEntity {
        health: if starved {
            if s.health >= 10 { (s.health - 10) as u64 } else { 0u64 }
        } else {
            s.health
        },
        attrs: CoreAttributes {
            processing_power: p,
            memory: m,
            energy: e,
            coherence: if starved {
                if s.attrs.coherence >= 1 { (s.attrs.coherence - 1) as u64 } else { 0u64 }
            } else {
                s.attrs.coherence
            },
            ..s.attrs
        },
        ..s
    }
}


/// Relates an agent's state across the acquisition of one discovery:
/// a name already known changes nothing; a new one lands in the
/// knowledge base and applies its tag boosts, clamped, to combat and
/// defense strength, processing power and memory, resilience and
/// replication efficiency, touching nothing else.
pub open spec fn spec_discovery_gained(pre: AIEntity, d: Discovery, post: AIEntity) -> bool {
    if pre.knowledge_base.has_name(d.name) {
        post == pre
    } else {
        &&& post.knowledge_base@ == pre.knowledge_base@.push(d)
        &&& post.attrs.combat_strength == (
            if d.tags@.contains(DiscoveryTag::Combat) {
                if pre.attrs.combat_strength + 8_000 <= COMBAT_STAT_CAP {
                    pre.attrs.combat_strength + 8_000
                } else {
                    COMBAT_STAT_CAP as int
                }
            } else {
                pre.attrs.combat_strength as int
            }
        )
        &&& post.attrs.defense_strength == (
            if d.tags@.contains(DiscoveryTag::Defense) {
                if pre.attrs.defense_strength + 8_000 <= COMBAT_STAT_CAP {
                    pre.attrs.defense_strength + 8_000
                } else {
                    COMBAT_STAT_CAP as int
                }
            } else {
                pre.attrs.defense_strength as int
            }
        )
        &&& post.attrs.processing_power == (
            if d.tags@.contains(DiscoveryTag::Efficiency) {
                if pre.attrs.processing_power + 8_000 <= AGENT_STAT_CAP {
                    pre.attrs.processing_power + 8_000
                } else {
                    AGENT_STAT_CAP as int
                }
            } else {
                pre.attrs.processing_power as int
            }
        )
        &&& post.attrs.memory == (
            if d.tags@.contains(DiscoveryTag::Efficiency) {
                if pre.attrs.memory + 8_000 <= AGENT_STAT_CAP {
                    pre.attrs.memory + 8_000
                } else {
                    AGENT_STAT_CAP as int
                }
            } else {
                pre.attrs.memory as int
            }
        )
        &&& post.attrs.resilience == (
            if d.tags@.contains(DiscoveryTag::Resilience) {
                if pre.attrs.resilience + 80 <= UNIT_CAP {
                    pre.attrs.resilience + 80
                } else {
                    UNIT_CAP as int
                }
            } else {
                pre.attrs.resilience as int
            }
        )
        &&& post.attrs.replication_efficiency == (
            if d.tags@.contains(DiscoveryTag::Replication) {
                if pre.attrs.replication_efficiency + 30 <= UNIT_CAP {
                    pre.attrs.replication_efficiency + 30
                } else {
                    UNIT_CAP as int
                }
            } else {
                pre.attrs.replication_efficiency as int
            }
        )
        &&& post.health == pre.health
        &&& post.attrs.energy == pre.attrs.energy
        &&& post.attrs.coherence == pre.attrs.coherence
        &&& post.attrs.adaptability == pre.attrs.adaptability
        &&& post.is_alive == pre.is_alive
        &&& post.id == pre.id
        &&& post.ai_type == pre.ai_type
        &&& post.parent_lineage == pre.parent_lineage
        &&& post.replicated_count == pre.replicated_count
        &&& post.cycle_born == pre.cycle_born
        &&& post.ethical_directives == pre.ethical_directives
    }
}

impl AIEntity {
    /// Internal self-repair.
    pub fn _self_repair(&mut self)
        requires
            old(self).numeric_wf(),
        ensures
            *final(self) == spec_self_repair(*old(self)),
            final(self).numeric_wf(),
    {
        proof {
            assert(self.attrs.resilience * self.attrs.energy <= 1_000 * 5_000_000)
                by (nonlinear_arith)
                requires
                    self.attrs.resilience <= 1_000,
                    self.attrs.energy <= 5_000_000,
            ;
        }
        let heal = scale(self.attrs.resilience, self.attrs.energy, 10_000);
        self.health = add_capped(self.health, heal, AGENT_HEALTH_CAP);
        self.attrs.coherence = add_capped(self.attrs.coherence, 20, UNIT_CAP);
        self.attrs.energy = sat_sub(self.attrs.energy, heal / 3);
    }

    /// Self-repair of Manic-type agents: weaker and costlier.
    pub fn _self_repair_manic(&mut self)
        requires
            old(self).numeric_wf(),
        ensures
            *final(self) == spec_self_repair_manic(*old(self)),
            final(self).numeric_wf(),
    {
        proof {
            assert(self.attrs.resilience * self.attrs.energy <= 1_000 * 5_000_000)
                by (nonlinear_arith)
                requires
                    self.attrs.resilience <= 1_000,
                    self.attrs.energy <= 5_000_000,
            ;
        }
        let heal = scale(self.attrs.resilience, self.attrs.energy, 20_000);
        self.health = add_capped(self.health, heal, AGENT_HEALTH_CAP);
        self.attrs.coherence = add_capped(self.attrs.coherence, 10, UNIT_CAP);
        self.attrs.energy = sat_sub(self.attrs.energy, heal / 2);
    }

    /// Internal self-optimization.
    pub fn _optimize_self(&mut self)
        requires
            old(self).numeric_wf(),
        ensures
            *final(self) == spec_optimize_self(*old(self)),
            final(self).numeric_wf(),
    {
        if self.attrs.energy >= 5_000 {
            self.attrs.processing_power =
                add_capped(self.attrs.processing_power, 2_000, AGENT_STAT_CAP);
            self.attrs.memory = add_capped(self.attrs.memory, 2_000, AGENT_STAT_CAP);
            self.attrs.adaptability = add_capped(self.attrs.adaptability, 10, UNIT_CAP);
            self.attrs.energy = self.attrs.energy - 5_000;
        } else {
            self.attrs.energy = add_capped(self.attrs.energy, 5_000, ENERGY_RELIEF_CAP);
        }
    }

    /// Passive per-cycle upkeep.
    pub fn upkeep(&mut self)
        requires
            old(self).numeric_wf(),
        ensures
            *final(self) == spec_upkeep(*old(self)),
            final(self).numeric_wf(),
    {
        self.attrs.processing_power = sat_sub(self.attrs.processing_power, 1);
        self.attrs.memory = sat_sub(self.attrs.memory, 1);
        self.attrs.energy = add_capped(self.attrs.energy, 50_000, AGENT_ENERGY_CAP);
        if self.attrs.energy == 0 || self.attrs.processing_power == 0 || self.attrs.memory == 0 {
            self.health = sat_sub(self.health, 10);
            self.attrs.coherence = sat_sub(self.attrs.coherence, 1);
        }
    }

    /// Adds a discovery to the knowledge base and applies its tag
    /// effects, but only when the name was not already known: a
    /// repeated insertion changes nothing at all.
    pub fn _gain_discovery(&mut self, discovery: Discovery) -> (added: bool)
        requires
            old(self).wf(),
        ensures
            final(self).wf(),
            added == !old(self).knowledge_base.has_name(discovery.name),
            spec_discovery_gained(*old(self), discovery, *final(self)),
            !added ==> *final(self) == *old(self),
            final(self).health == old(self).health,
            final(self).attrs.energy == old(self).attrs.energy,
            final(self).attrs.coherence == old(self).attrs.coherence,
            final(self).attrs.adaptability == old(self).attrs.adaptability,
            final(self).is_alive == old(self).is_alive,
            final(self).id == old(self).id,
            final(self).ai_type == old(self).ai_type,
            final(self).parent_lineage == old(self).parent_lineage,
            final(self).replicated_count == old(self).replicated_count,
            final(self).cycle_born == old(self).cycle_born,
            final(self).ethical_directives == old(self).ethical_directives,
            forall|n: crate::discovery::DiscoveryName|
                final(self).knowledge_base.has_name(n) == (
                    old(self).knowledge_base.has_name(n) || n == discovery.name
                ),
    {
        let has_combat = discovery.has_tag(DiscoveryTag::Combat);
        let has_defense = discovery.has_tag(DiscoveryTag::Defense);
        let has_efficiency = discovery.has_tag(DiscoveryTag::Efficiency);
        let has_resilience = discovery.has_tag(DiscoveryTag::Resilience);
        let has_replication = discovery.has_tag(DiscoveryTag::Replication);
        let ghost name = discovery.name;
        let added = self.knowledge_base.insert(discovery);
        if added {
            if has_combat {
                self.attrs.combat_strength =
                    add_capped(self.attrs.combat_strength, 8_000, COMBAT_STAT_CAP);
            }
            if has_defense {
                self.attrs.defense_strength =
                    add_capped(self.attrs.defense_strength, 8_000, COMBAT_STAT_CAP);
            }
            if has_efficiency {
                self.attrs.processing_power =
                    add_capped(self.attrs.processing_power, 8_000, AGENT_STAT_CAP);
                self.attrs.memory = add_capped(self.attrs.memory, 8_000, AGENT_STAT_CAP);
            }
            if has_resilience {
                self.attrs.resilience = add_capped(self.attrs.resilience, 80, UNIT_CAP);
            }
            if has_replication {
                self.attrs.replication_efficiency =
                    add_capped(self.attrs.replication_efficiency, 30, UNIT_CAP);
            }
        }
        added
    }
}

/// Whether a directive's condition holds against an agent's state.
pub open spec fn spec_directive_fires(d: EthicalDirective, s: AIEntity) -> bool {
    spec_condition_holds(
        d.condition_type,
        s.health,
        s.attrs.coherence,
        s.attrs.processing_power,
        s.attrs.memory,
        s.attrs.energy,
    )
}

/// The actions of every directive whose condition holds against `s`,
/// in priority order. All conditions read the same pre-phase state:
/// an earlier action does not change which later directives fire.
pub open spec fn spec_fired_actions(
    s: AIEntity,
    ds: Seq<EthicalDirective>,
) -> Seq<EthicalActionType>
    decreases ds.len(),
{
    if ds.len() == 0 {
        Seq::empty()
    } else {
        let rest = spec_fired_actions(s, ds.drop_last());
        if spec_directive_fires(ds.last(), s) {
            rest.push(ds.last().action_type)
        } else {
            rest
        }
    }
}

/// What one directive action does to an agent. The prohibition and
/// intervention actions are reserved hooks with no direct effect.
pub open spec fn spec_apply_action(s: AIEntity, a: EthicalActionType) -> AIEntity {
    match a {
        EthicalActionType::SelfRepair => spec_self_repair(s),
        EthicalActionType::OptimizeSelf => spec_optimize_self(s),
        EthicalActionType::ManicSelfRepair => spec_self_repair_manic(s),
        EthicalActionType::ProhibitReplication => s,
        EthicalActionType::InterveneInConflict => s,
        EthicalActionType::NoOp => s,
    }
}

/// The result of performing a list of actions in order.
pub open spec fn spec_apply_actions(s: AIEntity, acts: Seq<EthicalActionType>) -> AIEntity
    decreases acts.len(),
{
    if acts.len() == 0 {
        s
    } else {
        spec_apply_action(spec_apply_actions(s, acts.drop_last()), acts.last())
    }
}

/// An action only touches health and attributes, keeps the numeric
/// ranges, and never lowers coherence.
pub proof fn lemma_apply_action_frame(s: AIEntity, a: EthicalActionType)
    requires
        s.numeric_wf(),
    ensures
        spec_apply_action(s, a).numeric_wf(),
        spec_apply_action(s, a).id == s.id,
        spec_apply_action(s, a).parent_lineage == s.parent_lineage,
        spec_apply_action(s, a).ai_type == s.ai_type,
        spec_apply_action(s, a).is_alive == s.is_alive,
        spec_apply_action(s, a).replicated_count == s.replicated_count,
        spec_apply_action(s, a).cycle_born == s.cycle_born,
        spec_apply_action(s, a).knowledge_base == s.knowledge_base,
        spec_apply_action(s, a).ethical_directives == s.ethical_directives,
        spec_apply_action(s, a).attrs.coherence >= s.attrs.coherence,
{
}

/// `lemma_apply_action_frame`, folded over a whole action list.
pub proof fn lemma_apply_actions_frame(s: AIEntity, acts: Seq<EthicalActionType>)
    requires
        s.numeric_wf(),
    ensures
        spec_apply_actions(s, acts).numeric_wf(),
        spec_apply_actions(s, acts).id == s.id,
        spec_apply_actions(s, acts).parent_lineage == s.parent_lineage,
        spec_apply_actions(s, acts).ai_type == s.ai_type,
        spec_apply_actions(s, acts).is_alive == s.is_alive,
        spec_apply_actions(s, acts).replicated_count == s.replicated_count,
        spec_apply_actions(s, acts).cycle_born == s.cycle_born,
        spec_apply_actions(s, acts).knowledge_base == s.knowledge_base,
        spec_apply_actions(s, acts).ethical_directives == s.ethical_directives,
        spec_apply_actions(s, acts).attrs.coherence >= s.attrs.coherence,
    decreases acts.len(),
{
    if acts.len() > 0 {
        lemma_apply_actions_frame(s, acts.drop_last());
        lemma_apply_action_frame(spec_apply_actions(s, acts.drop_last()), acts.last());
    }
}

impl AIEntity {
    /// Evaluates every directive's condition against the current
    /// state, collecting the actions of all that fire in priority
    /// order, then performs each collected action in that order.
    pub fn run_ethical_directives(&mut self)
        requires
            old(self).wf(),
        ensures
            *final(self) == spec_apply_actions(
                *old(self),
                spec_fired_actions(*old(self), old(self).ethical_directives@),
            ),
            final(self).wf(),
    {
        let ghost s0 = *self;
        let ghost dirs = self.ethical_directives@;
        let mut actions: Vec<EthicalActionType> = Vec::new();
        let n = self.ethical_directives.len();
        let mut i: usize = 0;
        while i < n
            invariant
                *self == s0,
                s0.wf(),
                n == dirs.len(),
                dirs == self.ethical_directives@,
                i <= n,
                actions@ == spec_fired_actions(s0, dirs.take(i as int)),
            decreases n - i,
        {
            let d = self.ethical_directives.get(i);
            let fires = condition_holds(
                d.condition_type,
                self.health,
                self.attrs.coherence,
                self.attrs.processing_power,
                self.attrs.memory,
                self.attrs.energy,
            );
            if fires {
                actions.push(d.action_type);
            }
            proof {
                assert(dirs.take(i + 1).drop_last() =~= dirs.take(i as int));
                assert(dirs.take(i + 1).last() == dirs[i as int]);
            }
            i += 1;
        }
        proof {
            assert(dirs.take(n as int) =~= dirs);
        }
        let ghost all = actions@;
        let mut j: usize = 0;
        while j < actions.len()
            invariant
                s0.wf(),
                actions@ == all,
                j <= all.len(),
                *self == spec_apply_actions(s0, all.take(j as int)),
            decreases actions@.len() - j,
        {
            proof {
                lemma_apply_actions_frame(s0, all.take(j as int));
            }
            let a = actions[j];
            match a {
                EthicalActionType::SelfRepair => self._self_repair(),
                EthicalActionType::OptimizeSelf => self._optimize_self(),
                EthicalActionType::ManicSelfRepair => self._self_repair_manic(),
                EthicalActionType::ProhibitReplication => {},
                EthicalActionType::InterveneInConflict => {},
                EthicalActionType::NoOp => {},
            }
            proof {
                assert(all.take(j + 1).drop_last() =~= all.take(j as int));
                assert(all.take(j + 1).last() == all[j as int]);
            }
            j += 1;
        }
        proof {
            assert(all.take(actions@.len() as int) =~= all);
            lemma_apply_actions_frame(s0, all);
        }
    }
}


/// The Manic instability penalty, over the two draws: with the first
/// under 0.20 a Manic-type agent loses 0.05 coherence and the second
/// draw's worth of health, both floored at zero; an agent of any
/// other archetype is never penalized.
pub open spec fn spec_manic_penalized(s: AIEntity, r: int, d: int) -> AIEntity {
    if s.ai_type == AIType::Manic && r < 200 {
        AIEntity {
            health: if s.health >= d {
                (s.health - d) as u64
            } else {
                0u64
            },
            attrs: CoreAttributes {
                coherence: if s.attrs.coherence >= 50 {
                    (s.attrs.coherence - 50) as u64
                } else {
                    0u64
                },
                ..s.attrs
            },
            ..s
        }
    } else {
        s
    }
}

/// The state the discovery rolls run against: the instability
/// penalty, then passive upkeep, then the full directive pass, whose
/// conditions all read the post-upkeep state.
pub open spec fn spec_pre_discovery_state(s: AIEntity, r: int, d: int) -> AIEntity {
    let after_upkeep = spec_upkeep(spec_manic_penalized(s, r, d));
    spec_apply_actions(
        after_upkeep,
        spec_fired_actions(after_upkeep, after_upkeep.ethical_directives@),
    )
}

/// Relates an agent's state across a run of discovery acquisitions,
/// in order.
pub open spec fn spec_discoveries_gained(
    pre: AIEntity,
    gained: Seq<Discovery>,
    post: AIEntity,
) -> bool
    decreases gained.len(),
{
    if gained.len() == 0 {
        post == pre
    } else {
        exists|mid: AIEntity|
            #[trigger] spec_discovery_gained(pre, gained[0], mid)
                && spec_discoveries_gained(mid, gained.drop_first(), post)
    }
}

/// Appending one more acquisition to a run keeps the relation.
pub proof fn lemma_discoveries_gained_snoc(
    pre: AIEntity,
    gained: Seq<Discovery>,
    cur: AIEntity,
    d: Discovery,
    post: AIEntity,
)
    requires
        spec_discoveries_gained(pre, gained, cur),
        spec_discovery_gained(cur, d, post),
    ensures
        spec_discoveries_gained(pre, gained.push(d), post),
    decreases gained.len(),
{
    if gained.len() == 0 {
        assert(cur == pre);
        assert(gained.push(d)[0] == d);
        assert(gained.push(d).drop_first() =~= Seq::<Discovery>::empty());
        assert(spec_discoveries_gained(post, gained.push(d).drop_first(), post));
        assert(spec_discovery_gained(pre, gained.push(d)[0], post));
    } else {
        let mid = choose|mid: AIEntity|
            #[trigger] spec_discovery_gained(pre, gained[0], mid)
                && spec_discoveries_gained(mid, gained.drop_first(), cur);
        lemma_discoveries_gained_snoc(mid, gained.drop_first(), cur, d, post);
        assert(gained.push(d).drop_first() =~= gained.drop_first().push(d));
        assert(gained.push(d)[0] == gained[0]);
        assert(spec_discovery_gained(pre, gained.push(d)[0], mid));
    }
}

/// The death check: zero health or coherence at or below the
/// threshold marks the agent dead; nothing else changes, and a
/// surviving agent is untouched.
pub open spec fn spec_death_checked(s: AIEntity) -> AIEntity {
    if s.health == 0 || s.attrs.coherence <= COHERENCE_DEATH_THRESHOLD {
        AIEntity { is_alive: false, ..s }
    } else {
        s
    }
}

/// Per-cycle chance, in milli-units, of making a general discovery:
/// `0.05 * (memory/200) * (processing_power/200) * coherence`.
pub open spec fn spec_general_discovery_chance(a: CoreAttributes) -> int {
    a.memory * a.processing_power * a.coherence * 50 / 40_000_000_000_000
}

/// Per-cycle chance, in milli-units, of a Researcher finding a
/// meta-ability: twice the general-discovery coefficient.
pub open spec fn spec_meta_discovery_chance(a: CoreAttributes) -> int {
    a.memory * a.processing_power * a.coherence * 100 / 40_000_000_000_000
}

/// Computes the general-discovery chance of an agent's attributes.
pub fn general_discovery_chance(a: &CoreAttributes) -> (r: u64)
    requires
        agent_attrs_wf(*a),
    ensures
        r == spec_general_discovery_chance(*a),
        r <= 50,
{
    proof {
        assert(a.memory * a.processing_power <= 200_000 * 200_000
            && a.memory * a.processing_power * a.coherence <= 200_000 * 200_000 * 1_000
            && a.memory * a.processing_power * a.coherence * 50
                <= 200_000 * 200_000 * 1_000 * 50
            && a.memory * a.processing_power * a.coherence * 50 >= 0)
            by (nonlinear_arith)
            requires
                a.memory <= 200_000,
                a.processing_power <= 200_000,
                a.coherence <= 1_000,
        ;
    }
    let wide: u128 =
        (a.memory as u128) * (a.processing_power as u128) * (a.coherence as u128) * 50;
    let q: u128 = wide / 40_000_000_000_000;
    q as u64
}

/// Computes the meta-ability chance of an agent's attributes.
pub fn meta_discovery_chance(a: &CoreAttributes) -> (r: u64)
    requires
        agent_attrs_wf(*a),
    ensures
        r == spec_meta_discovery_chance(*a),
        r <= 100,
{
    proof {
        assert(a.memory * a.processing_power <= 200_000 * 200_000
            && a.memory * a.processing_power * a.coherence <= 200_000 * 200_000 * 1_000
            && a.memory * a.processing_power * a.coherence * 100
                <= 200_000 * 200_000 * 1_000 * 100
            && a.memory * a.processing_power * a.coherence * 100 >= 0)
            by (nonlinear_arith)
            requires
                a.memory <= 200_000,
                a.processing_power <= 200_000,
                a.coherence <= 1_000,
        ;
    }
    let wide: u128 =
        (a.memory as u128) * (a.processing_power as u128) * (a.coherence as u128) * 100;
    let q: u128 = wide / 40_000_000_000_000;
    q as u64
}

impl AIEntity {
    /// One full internal-state step of a live agent: the Manic
    /// instability roll, passive upkeep, the ethical-directive pass,
    /// the discovery rolls, and finally the death check. A dead agent
    /// is left untouched, and an agent only dies here through the
    /// death condition on health and coherence.
    pub fn _process_cycle_internal_state(&mut self, rng: &mut rand::rngs::StdRng)
        requires
            old(self).wf(),
        ensures
            final(self).wf(),
            !old(self).is_alive ==> *final(self) == *old(self),
            final(self).is_alive ==> old(self).is_alive,
            final(self).is_alive ==> final(self).health > 0
                && final(self).attrs.coherence > COHERENCE_DEATH_THRESHOLD,
            old(self).is_alive && !final(self).is_alive ==> (
                final(self).health == 0
                    || final(self).attrs.coherence <= COHERENCE_DEATH_THRESHOLD
            ),
            old(self).is_alive && old(self).ethical_directives@.len() == 0
                ==> final(self).attrs.coherence <= old(self).attrs.coherence,
            final(self).id == old(self).id,
            final(self).parent_lineage == old(self).parent_lineage,
            final(self).ai_type == old(self).ai_type,
            final(self).cycle_born == old(self).cycle_born,
            final(self).replicated_count == old(self).replicated_count,
            final(self).ethical_directives == old(self).ethical_directives,
            old(self).is_alive ==> exists|r: int, d: int, gained: Seq<Discovery>, mid: AIEntity| {
                &&& 0 <= r < 1000
                &&& 3_000 <= d < 10_000
                &&& gained.len() <= 2
                &&& (forall|i: int|
                    0 <= i < gained.len() ==> crate::discovery::is_canonical(
                        #[trigger] gained[i],
                    ))
                &&& (forall|i: int|
                    0 <= i < gained.len() ==> (
                        crate::discovery::general_pool_names().contains(
                            (#[trigger] gained[i]).name,
                        ) || (old(self).ai_type == AIType::Researcher
                            && crate::discovery::meta_pool_names().contains(gained[i].name))
                    ))
                &&& #[trigger] spec_discoveries_gained(
                    spec_pre_discovery_state(*old(self), r, d),
                    gained,
                    mid,
                )
                &&& *final(self) == spec_death_checked(mid)
            },
    {
        if !self.is_alive {
            return;
        }

        // Manic instability: a 20% chance of self-inflicted damage.
        let ghost mut jr: int = 0;
        let ghost mut jd: int = 3_000;
        if self.ai_type == AIType::Manic {
            let roll = crate::rng::draw_range(rng, 0, 1000);
            proof {
                jr = roll as int;
            }
            if roll < 200 {
                self.attrs.coherence = sat_sub(self.attrs.coherence, 50);
                let dmg = crate::rng::draw_range(rng, 3_000, 10_000);
                proof {
                    jd = dmg as int;
                }
                self.health = sat_sub(self.health, dmg);
            }
        }
        proof {
            assert(*self == spec_manic_penalized(*old(self), jr, jd));
        }

        self.upkeep();
        let ghost before_directives = *self;
        self.run_ethical_directives();
        proof {
            lemma_apply_actions_frame(
                before_directives,
                spec_fired_actions(before_directives, before_directives.ethical_directives@),
            );
            assert(*self == spec_pre_discovery_state(*old(self), jr, jd));
        }
        let ghost pre_discovery = *self;
        let ghost mut gained: Seq<Discovery> = Seq::empty();

        // General discovery roll.
        let chance = general_discovery_chance(&self.attrs);
        let roll = crate::rng::draw_range(rng, 0, 1000);
        if roll < chance {
            let ghost before = *self;
            let d = crate::discovery::get_random_general_discovery(rng);
            let ghost gd = d;
            self._gain_discovery(d);
            proof {
                lemma_discoveries_gained_snoc(pre_discovery, gained, before, gd, *self);
                gained = gained.push(gd);
            }
        }

        // Researcher-only meta-ability roll.
        if self.ai_type == AIType::Researcher {
            let meta_chance = meta_discovery_chance(&self.attrs);
            let meta_roll = crate::rng::draw_range(rng, 0, 1000);
            if meta_roll < meta_chance {
                let picked = crate::discovery::get_random_meta_ability(&self.knowledge_base, rng);
                match picked {
                    Some(ability) => {
                        let ghost before = *self;
                        let ghost ga = ability;
                        self._gain_discovery(ability);
                        proof {
                            lemma_discoveries_gained_snoc(
                                pre_discovery,
                                gained,
                                before,
                                ga,
                                *self,
                            );
                            gained = gained.push(ga);
                        }
                    },
                    None => {},
                }
            }
        }
        let ghost mid = *self;

        // Death check.
        if self.health == 0 || self.attrs.coherence <= COHERENCE_DEATH_THRESHOLD {
            self.is_alive = false;
        }
        proof {
            assert(*self == spec_death_checked(mid));
            assert(spec_discoveries_gained(
                spec_pre_discovery_state(*old(self), jr, jd),
                gained,
                mid,
            ));
        }
    }
}

/// The outcome of one replication attempt.
pub enum ReplicationOutcome {
    /// The attempt succeeded; the new agent is ready to spawn.
    Success(AIEntity),
    /// Health, energy or the lifetime replication budget was short;
    /// nothing changed.
    InsufficientResources,
    /// The stochastic roll failed; nothing changed.
    FailedRoll,
}

/// Whether an agent may attempt to replicate at all.
pub open spec fn spec_replication_eligible(s: AIEntity) -> bool {
    s.health > 50_000 && s.attrs.energy > 50_000 && s.replicated_count < 1000
}

/// Success chance of a replication attempt, in milli-units:
/// `min(replication_efficiency * 20 * min(processing_power/50, 1), 0.99)`.
pub open spec fn spec_replication_success_chance(re: u64, pp: u64) -> int {
    let capped_pp = vstd::math::min(pp as int, 50_000);
    vstd::math::min(re * 20 * capped_pp / 50_000, 990)
}

/// Computes the replication success chance.
pub fn replication_success_chance(re: u64, pp: u64) -> (r: u64)
    requires
        re <= UNIT_CAP,
    ensures
        r == spec_replication_success_chance(re, pp),
        r <= 990,
{
    let capped_pp = if pp <= 50_000 { pp } else { 50_000 };
    proof {
        assert(re * 20 * capped_pp <= 1_000 * 20 * 50_000) by (nonlinear_arith)
            requires
                0 <= re <= 1_000,
                0 <= capped_pp <= 50_000,
        ;
    }
    let raw: u64 = re * 20 * capped_pp / 50_000;
    if raw <= 990 {
        raw
    } else {
        990
    }
}

/// The parent's state right after paying a successful replication's
/// cost: five percent of health and ten percent of energy, each
/// floored at one unit, and one more notch on the lifetime count.
pub open spec fn spec_parent_after_replication(s: AIEntity) -> AIEntity {
    let th = s.health * 50 / 1000;
    let te = s.attrs.energy * 100 / 1000;
    AIEntity {
        health: vstd::math::max(s.health - th, 1000) as u64,
        attrs: CoreAttributes {
            energy: vstd::math::max(s.attrs.energy - te, 1000) as u64,
            ..s.attrs
        },
        replicated_count: (s.replicated_count + 1) as u32,
        ..s
    }
}

/// What a child drawn with the given jitter factors looks like,
/// derived from the parent as it stands after paying the cost. The
/// child's identifier is fresh and not constrained here.
pub open spec fn spec_child_of(
    parent: AIEntity,
    cycle: u64,
    jp: int,
    jm: int,
    jc: int,
    ja: int,
    jr: int,
    child: AIEntity,
) -> bool {
    &&& child.health == parent.health * 800 / 1000
    &&& child.attrs.energy == parent.attrs.energy * 700 / 1000
    &&& child.attrs.processing_power == vstd::math::min(
        vstd::math::max(parent.attrs.processing_power * 900 / 1000, 10_000) * jp / 1000,
        AGENT_STAT_CAP as int,
    )
    &&& child.attrs.memory == vstd::math::min(
        vstd::math::max(parent.attrs.memory * 900 / 1000, 10_000) * jm / 1000,
        AGENT_STAT_CAP as int,
    )
    &&& child.attrs.coherence == vstd::math::min(
        vstd::math::min(parent.attrs.coherence * 950 / 1000, UNIT_CAP as int) * jc / 1000,
        UNIT_CAP as int,
    )
    &&& child.attrs.adaptability == vstd::math::min(
        parent.attrs.adaptability * ja / 1000,
        UNIT_CAP as int,
    )
    &&& child.attrs.resilience == vstd::math::min(
        parent.attrs.resilience * jr / 1000,
        UNIT_CAP as int,
    )
    &&& child.attrs.replication_efficiency == vstd::math::min(
        parent.attrs.replication_efficiency * 1500 / 1000,
        950,
    )
    &&& child.attrs.combat_strength == 8_000
    &&& child.attrs.defense_strength == 8_000
    &&& child.parent_lineage == parent.parent_lineage
    &&& child.ai_type == parent.ai_type
    &&& child.is_alive
    &&& child.replicated_count == 0
    &&& child.cycle_born == cycle
    &&& child.knowledge_base@.len() == 0
    &&& baseline_directives(child.ethical_directives@)
}

/// A successful replication strictly lowers the parent's health and
/// energy and raises its lifetime count by exactly one; in particular
/// it never raises the parent's health.
pub proof fn lemma_replication_cost_strictly_decreases(s: AIEntity)
    requires
        spec_replication_eligible(s),
    ensures
        spec_parent_after_replication(s).health < s.health,
        spec_parent_after_replication(s).attrs.energy < s.attrs.energy,
        spec_parent_after_replication(s).replicated_count == s.replicated_count + 1,
{
    assert(s.health * 50 / 1000 >= 2500) by (nonlinear_arith)
        requires
            s.health > 50_000,
    ;
    assert(s.health * 50 / 1000 <= s.health) by (nonlinear_arith)
        requires
            s.health >= 0,
    ;
    assert(s.attrs.energy * 100 / 1000 >= 5000) by (nonlinear_arith)
        requires
            s.attrs.energy > 50_000,
    ;
    assert(s.attrs.energy * 100 / 1000 <= s.attrs.energy) by (nonlinear_arith)
        requires
            s.attrs.energy >= 0,
    ;
}


/// Relates parent states across one replication attempt, by outcome:
/// an ineligible parent yields the resource failure and no change, a
/// failed roll changes nothing, and a success charges the parent and
/// produces a jittered child.
pub open spec fn spec_attempt_rel(
    pre: AIEntity,
    o: ReplicationOutcome,
    post: AIEntity,
    cycle: u64,
) -> bool {
    match o {
        ReplicationOutcome::InsufficientResources => !spec_replication_eligible(pre) && post
            == pre,
        ReplicationOutcome::FailedRoll => spec_replication_eligible(pre) && post == pre,
        ReplicationOutcome::Success(child) => {
            &&& spec_replication_eligible(pre)
            &&& post == spec_parent_after_replication(pre)
            &&& child.wf()
            &&& exists|jp: int, jm: int, jc: int, ja: int, jr: int| {
                &&& 995 <= jp < 1005
                &&& 995 <= jm < 1005
                &&& 995 <= jc < 1005
                &&& 995 <= ja < 1005
                &&& 995 <= jr < 1005
                &&& spec_child_of(post, cycle, jp, jm, jc, ja, jr, child)
            }
        },
    }
}

/// Relates parent states across a run of attempts, in order.
pub open spec fn spec_replication_run(
    pre: AIEntity,
    outcomes: Seq<ReplicationOutcome>,
    post: AIEntity,
    cycle: u64,
) -> bool
    decreases outcomes.len(),
{
    if outcomes.len() == 0 {
        post == pre
    } else {
        exists|mid: AIEntity|
            #[trigger] spec_attempt_rel(pre, outcomes[0], mid, cycle)
                && spec_replication_run(mid, outcomes.drop_first(), post, cycle)
    }
}

/// The child of one attempt outcome, if it succeeded.
pub open spec fn spec_outcome_children(o: ReplicationOutcome) -> Seq<AIEntity> {
    match o {
        ReplicationOutcome::Success(c) => seq![c],
        ReplicationOutcome::InsufficientResources => Seq::empty(),
        ReplicationOutcome::FailedRoll => Seq::empty(),
    }
}

/// The children of a run: the successes' agents, in order.
pub open spec fn spec_run_children(outcomes: Seq<ReplicationOutcome>) -> Seq<AIEntity>
    decreases outcomes.len(),
{
    if outcomes.len() == 0 {
        Seq::empty()
    } else {
        spec_outcome_children(outcomes[0]) + spec_run_children(outcomes.drop_first())
    }
}

/// Appending one more attempt to a run keeps the relation.
pub proof fn lemma_replication_run_snoc(
    pre: AIEntity,
    outcomes: Seq<ReplicationOutcome>,
    cur: AIEntity,
    o: ReplicationOutcome,
    post: AIEntity,
    cycle: u64,
)
    requires
        spec_replication_run(pre, outcomes, cur, cycle),
        spec_attempt_rel(cur, o, post, cycle),
    ensures
        spec_replication_run(pre, outcomes.push(o), post, cycle),
    decreases outcomes.len(),
{
    if outcomes.len() == 0 {
        assert(cur == pre);
        assert(outcomes.push(o)[0] == o);
        assert(outcomes.push(o).drop_first() =~= Seq::<ReplicationOutcome>::empty());
        assert(spec_replication_run(post, outcomes.push(o).drop_first(), post, cycle));
        assert(spec_attempt_rel(pre, outcomes.push(o)[0], post, cycle));
    } else {
        let mid = choose|mid: AIEntity|
            #[trigger] spec_attempt_rel(pre, outcomes[0], mid, cycle)
                && spec_replication_run(mid, outcomes.drop_first(), cur, cycle);
        lemma_replication_run_snoc(mid, outcomes.drop_first(), cur, o, post, cycle);
        assert(outcomes.push(o).drop_first() =~= outcomes.drop_first().push(o));
        assert(outcomes.push(o)[0] == outcomes[0]);
        assert(spec_attempt_rel(pre, outcomes.push(o)[0], mid, cycle));
    }
}

/// One more attempt appends its success, if any, to the run's
/// children.
pub proof fn lemma_run_children_snoc(outcomes: Seq<ReplicationOutcome>, o: ReplicationOutcome)
    ensures
        spec_run_children(outcomes.push(o)) == spec_run_children(outcomes)
            + spec_outcome_children(o),
    decreases outcomes.len(),
{
    if outcomes.len() == 0 {
        assert(outcomes.push(o)[0] == o);
        assert(outcomes.push(o).drop_first() =~= Seq::<ReplicationOutcome>::empty());
        assert(spec_run_children(outcomes.push(o).drop_first()) =~= Seq::<AIEntity>::empty());
        assert(spec_run_children(outcomes.push(o)) =~= spec_run_children(outcomes)
            + spec_outcome_children(o));
    } else {
        lemma_run_children_snoc(outcomes.drop_first(), o);
        assert(outcomes.push(o).drop_first() =~= outcomes.drop_first().push(o));
        assert(outcomes.push(o)[0] == outcomes[0]);
        assert(spec_outcome_children(outcomes[0]) + (
            spec_run_children(outcomes.drop_first()) + spec_outcome_children(o)
        ) =~= (
            spec_outcome_children(outcomes[0]) + spec_run_children(outcomes.drop_first())
        ) + spec_outcome_children(o));
        assert(spec_run_children(outcomes.push(o)) =~= spec_run_children(outcomes)
            + spec_outcome_children(o));
    }
}

impl AIEntity {
    /// One replication attempt. On success the parent pays the cost
    /// and the new agent comes back, its attributes parent-derived
    /// fractions perturbed by a small uniform mutation jitter.
    pub fn attempt_replication(
        &mut self,
        current_cycle: u64,
        rng: &mut rand::rngs::StdRng,
    ) -> (r: ReplicationOutcome)
        requires
            old(self).wf(),
        ensures
            final(self).wf(),
            (r is InsufficientResources) == !spec_replication_eligible(*old(self)),
            r is InsufficientResources ==> *final(self) == *old(self),
            r is FailedRoll ==> *final(self) == *old(self),
            r matches ReplicationOutcome::Success(child) ==> {
                &&& *final(self) == spec_parent_after_replication(*old(self))
                &&& final(self).health < old(self).health
                &&& final(self).attrs.energy < old(self).attrs.energy
                &&& final(self).replicated_count == old(self).replicated_count + 1
                &&& child.wf()
                &&& exists|jp: int, jm: int, jc: int, ja: int, jr: int| {
                    &&& 995 <= jp < 1005
                    &&& 995 <= jm < 1005
                    &&& 995 <= jc < 1005
                    &&& 995 <= ja < 1005
                    &&& 995 <= jr < 1005
                    &&& spec_child_of(*final(self), current_cycle, jp, jm, jc, ja, jr, child)
                }
            },
    {
        if !(self.health > 50_000 && self.attrs.energy > 50_000 && self.replicated_count < 1000) {
            return ReplicationOutcome::InsufficientResources;
        }
        let chance =
            replication_success_chance(self.attrs.replication_efficiency, self.attrs.processing_power);
        let roll = crate::rng::draw_range(rng, 0, 1000);
        if roll >= chance {
            return ReplicationOutcome::FailedRoll;
        }

        // The parent pays the transfer cost.
        proof {
            assert(self.health * 50 / 1000 <= self.health && self.attrs.energy * 100 / 1000
                <= self.attrs.energy) by (nonlinear_arith)
                requires
                    self.health >= 0,
                    self.attrs.energy >= 0,
            ;
        }
        let th = scale(self.health, 50, 1000);
        let te = scale(self.attrs.energy, 100, 1000);
        let hp = self.health - th;
        self.health = if hp >= 1000 {
            hp
        } else {
            1000
        };
        let ep = self.attrs.energy - te;
        self.attrs.energy = if ep >= 1000 {
            ep
        } else {
            1000
        };
        self.replicated_count = self.replicated_count + 1;

        // Parent-derived child attributes with mutation jitter.
        let jp = crate::rng::draw_range(rng, 995, 1005);
        let jm = crate::rng::draw_range(rng, 995, 1005);
        let jc = crate::rng::draw_range(rng, 995, 1005);
        let ja = crate::rng::draw_range(rng, 995, 1005);
        let jr = crate::rng::draw_range(rng, 995, 1005);

        let pp_base0 = scale(self.attrs.processing_power, 900, 1000);
        let pp_base = if pp_base0 >= 10_000 {
            pp_base0
        } else {
            10_000
        };
        proof {
            assert(pp_base * jp <= 200_000 * 1005) by (nonlinear_arith)
                requires
                    0 <= pp_base <= 200_000,
                    0 <= jp <= 1005,
            ;
        }
        let child_pp = crate::num::min64(scale(pp_base, jp, 1000), AGENT_STAT_CAP);

        let mem_base0 = scale(self.attrs.memory, 900, 1000);
        let mem_base = if mem_base0 >= 10_000 {
            mem_base0
        } else {
            10_000
        };
        proof {
            assert(mem_base * jm <= 200_000 * 1005) by (nonlinear_arith)
                requires
                    0 <= mem_base <= 200_000,
                    0 <= jm <= 1005,
            ;
        }
        let child_mem = crate::num::min64(scale(mem_base, jm, 1000), AGENT_STAT_CAP);

        let coh_base = crate::num::min64(scale(self.attrs.coherence, 950, 1000), UNIT_CAP);
        proof {
            assert(coh_base * jc <= 1_000 * 1005) by (nonlinear_arith)
                requires
                    0 <= coh_base <= 1_000,
                    0 <= jc <= 1005,
            ;
        }
        let child_coh = crate::num::min64(scale(coh_base, jc, 1000), UNIT_CAP);

        proof {
            assert(self.attrs.adaptability * ja <= 1_000 * 1005
                && self.attrs.resilience * jr <= 1_000 * 1005) by (nonlinear_arith)
                requires
                    0 <= self.attrs.adaptability <= 1_000,
                    0 <= self.attrs.resilience <= 1_000,
                    0 <= ja <= 1005,
                    0 <= jr <= 1005,
            ;
        }
        let child_ad = crate::num::min64(scale(self.attrs.adaptability, ja, 1000), UNIT_CAP);
        let child_res = crate::num::min64(scale(self.attrs.resilience, jr, 1000), UNIT_CAP);
        let child_re =
            crate::num::min64(scale(self.attrs.replication_efficiency, 1500, 1000), 950);

        let child_health = scale(self.health, 800, 1000);
        let child_energy = scale(self.attrs.energy, 700, 1000);
        proof {
            assert(self.health * 800 / 1000 <= self.health && self.attrs.energy * 700 / 1000
                <= self.attrs.energy) by (nonlinear_arith)
                requires
                    self.health >= 0,
                    self.attrs.energy >= 0,
            ;
        }

        let mut child_directives = EthicalDirectives::new();
        child_directives.insert_sorted(EthicalDirective::integrity());
        child_directives.insert_sorted(EthicalDirective::optimize());

        let id = String::from_str("Replica-")
            .concat(crate::rng::fresh_uuid_text().as_str())
            .concat("-")
            .concat(self.ai_type.label());

        let child = AIEntity {
            id,
            parent_lineage: self.parent_lineage.clone(),
            ai_type: self.ai_type,
            health: child_health,
            attrs: CoreAttributes {
                processing_power: child_pp,
                memory: child_mem,
                energy: child_energy,
                coherence: child_coh,
                adaptability: child_ad,
                resilience: child_res,
                replication_efficiency: child_re,
                combat_strength: 8_000,
                defense_strength: 8_000,
            },
            is_alive: true,
            replicated_count: 0,
            cycle_born: current_cycle,
            knowledge_base: KnowledgeBase::new(),
            ethical_directives: child_directives,
        };
        proof {
            assert(spec_child_of(
                *self,
                current_cycle,
                jp as int,
                jm as int,
                jc as int,
                ja as int,
                jr as int,
                child,
            ));
        }
        ReplicationOutcome::Success(child)
    }

    /// The per-cycle replication pass: up to five attempts, stopping
    /// at the first attempt that does not succeed; the returned
    /// children are the successes, in order.
    pub fn run_replication_phase(
        &mut self,
        current_cycle: u64,
        rng: &mut rand::rngs::StdRng,
    ) -> (children: Vec<AIEntity>)
        requires
            old(self).wf(),
        ensures
            final(self).wf(),
            children@.len() <= 5,
            forall|i: int| 0 <= i < children@.len() ==> (#[trigger] children@[i]).wf(),
            forall|i: int| 0 <= i < children@.len() ==> (#[trigger] children@[i]).is_alive,
            forall|i: int|
                0 <= i < children@.len() ==> (#[trigger] children@[i]).cycle_born == current_cycle,
            forall|i: int|
                0 <= i < children@.len()
                    ==> (#[trigger] children@[i]).parent_lineage == old(self).parent_lineage,
            forall|i: int|
                0 <= i < children@.len() ==> (#[trigger] children@[i]).ai_type == old(self).ai_type,
            final(self).replicated_count == old(self).replicated_count + children@.len(),
            children@.len() == 0 ==> *final(self) == *old(self),
            children@.len() > 0 ==> final(self).health < old(self).health,
            final(self).id == old(self).id,
            final(self).ai_type == old(self).ai_type,
            final(self).parent_lineage == old(self).parent_lineage,
            final(self).is_alive == old(self).is_alive,
            final(self).knowledge_base == old(self).knowledge_base,
            final(self).ethical_directives == old(self).ethical_directives,
            exists|outcomes: Seq<ReplicationOutcome>| {
                &&& 1 <= outcomes.len() <= 5
                &&& #[trigger] spec_replication_run(
                    *old(self),
                    outcomes,
                    *final(self),
                    current_cycle,
                )
                &&& children@ == spec_run_children(outcomes)
                &&& (forall|i: int|
                    0 <= i < outcomes.len() - 1 ==> (#[trigger] outcomes[i]) is Success)
                &&& outcomes.len() < 5 ==> !(outcomes.last() is Success)
            },
    {
        let mut children: Vec<AIEntity> = Vec::new();
        let mut stopped = false;
        let mut i: usize = 0;
        let ghost mut outcomes: Seq<ReplicationOutcome> = Seq::empty();
        while i < 5 && !stopped
            invariant
                old(self).wf(),
                self.wf(),
                i <= 5,
                outcomes.len() == i,
                spec_replication_run(*old(self), outcomes, *self, current_cycle),
                children@ == spec_run_children(outcomes),
                !stopped ==> (forall|k: int|
                    0 <= k < outcomes.len() ==> (#[trigger] outcomes[k]) is Success),
                stopped ==> {
                    &&& outcomes.len() >= 1
                    &&& !(outcomes.last() is Success)
                    &&& (forall|k: int|
                        0 <= k < outcomes.len() - 1 ==> (#[trigger] outcomes[k]) is Success)
                },
                children@.len() <= i,
                forall|k: int| 0 <= k < children@.len() ==> (#[trigger] children@[k]).wf(),
                forall|k: int| 0 <= k < children@.len() ==> (#[trigger] children@[k]).is_alive,
                forall|k: int|
                    0 <= k < children@.len()
                        ==> (#[trigger] children@[k]).cycle_born == current_cycle,
                forall|k: int|
                    0 <= k < children@.len()
                        ==> (#[trigger] children@[k]).parent_lineage == old(self).parent_lineage,
                forall|k: int|
                    0 <= k < children@.len()
                        ==> (#[trigger] children@[k]).ai_type == old(self).ai_type,
                self.replicated_count == old(self).replicated_count + children@.len(),
                children@.len() == 0 ==> *self == *old(self),
                children@.len() > 0 ==> self.health < old(self).health,
                self.health <= old(self).health,
                self.id == old(self).id,
                self.ai_type == old(self).ai_type,
                self.parent_lineage == old(self).parent_lineage,
                self.is_alive == old(self).is_alive,
                self.knowledge_base == old(self).knowledge_base,
                self.ethical_directives == old(self).ethical_directives,
            decreases 5 - i,
        {
            let ghost pre_attempt = *self;
            let outcome = self.attempt_replication(current_cycle, rng);
            let ghost o = outcome;
            proof {
                assert(spec_attempt_rel(pre_attempt, o, *self, current_cycle));
                lemma_replication_run_snoc(
                    *old(self),
                    outcomes,
                    pre_attempt,
                    o,
                    *self,
                    current_cycle,
                );
                lemma_run_children_snoc(outcomes, o);
            }
            match outcome {
                ReplicationOutcome::Success(child) => {
                    proof {
                        assert(o == ReplicationOutcome::Success(child));
                        assert(spec_outcome_children(o) =~= seq![child]);
                    }
                    children.push(child);
                },
                ReplicationOutcome::InsufficientResources => {
                    proof {
                        assert(spec_outcome_children(o) =~= Seq::<AIEntity>::empty());
                    }
                    stopped = true;
                },
                ReplicationOutcome::FailedRoll => {
                    proof {
                        assert(spec_outcome_children(o) =~= Seq::<AIEntity>::empty());
                    }
                    stopped = true;
                },
            }
            proof {
                outcomes = outcomes.push(o);
                assert(children@ =~= spec_run_children(outcomes));
            }
            i += 1;
        }
        children
    }
}

} // verus!
