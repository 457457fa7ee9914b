//! The per-cycle orchestrator.
//!
//! The simulation context owns the two singletons — the GODAI and,
//! once formed, the monoculture — plus the clock, the pause gate, the
//! speed multiplier, the crossed population milestones and the
//! conclusion. Each cycle it is handed a census of the external
//! population and drives formation detection, the monoculture's
//! internal step, the override or combat path, milestone checks and
//! the termination predicates.

use vstd::prelude::*;

use crate::agent::AIEntity;
use crate::attrs::CoreAttributes;
use crate::discovery::DiscoveryName;
use crate::godai::{GodaiStatus, GODAI};
use crate::lineage::{AILineage, AIType};
use crate::monoculture::{
    spec_formed_from, spec_members_of, spec_mono_stepped, MergedMonocultureAI, MONO_MAX_SOURCES,
};

verus! {

/// One line of the population census: how many live agents a lineage
/// has this cycle.
pub struct LineageCount {
    pub lineage: AILineage,
    pub count: u64,
}

/// Why the simulation ended.
#[derive(Clone, Copy, Debug, PartialEq, Eq, Structural)]
pub enum ConclusionReason {
    /// The monoculture was found dead at the start of a cycle.
    MonocultureDefeated,
    /// The monoculture struck the GODAI down in combat.
    MonocultureDefeatedGodai,
    /// The GODAI struck the monoculture down in combat.
    GodaiDefeatedMonoculture,
    /// A Researcher monoculture fully overrode the simulation.
    SimulationOverridden,
    /// Every agent, the monoculture and the GODAI are gone.
    Extinction,
    /// The monoculture fell, the GODAI stands, and no agents remain.
    GodaiDefended,
    /// The GODAI fell, the monoculture stands, and no agents remain.
    MonocultureVictory,
}

impl ConclusionReason {
    /// The display form of the conclusion.
    pub fn label(&self) -> &'static str {
        match self {
            ConclusionReason::MonocultureDefeated => "Monoculture was defeated.",
            ConclusionReason::MonocultureDefeatedGodai => {
                "MONOCULTURE HAS DEFEATED THE GODAI!"
            },
            ConclusionReason::GodaiDefeatedMonoculture => {
                "GODAI HAS DEFEATED THE MONOCULTURE!"
            },
            ConclusionReason::SimulationOverridden => {
                "RESEARCHER MONOCULTURE HAS SUCCESSFULLY OVERRIDDEN THE SIMULATION!"
            },
            ConclusionReason::Extinction => {
                "Extinction: All AIs (individual and monoculture) and GODAI eliminated."
            },
            ConclusionReason::GodaiDefended => {
                "GODAI Defended: Monoculture was defeated, and no individual AIs remain."
            },
            ConclusionReason::MonocultureVictory => {
                "Monoculture Victory: Monoculture defeated/overrode GODAI, and no individual AIs remain."
            },
        }
    }
}

/// How an override attempt resolves.
#[derive(Clone, Copy, Debug, PartialEq, Eq, Structural)]
pub enum OverrideOutcome {
    /// Strictly above 1.2 times the resistance: the GODAI falls.
    FullOverride,
    /// Above 0.9 times the resistance but no more than 1.2 times:
    /// the GODAI is compromised.
    PartialSuccess,
    /// At or below 0.9 times the resistance: the attempt fails.
    Failure,
}

/// Classification of an override strength against a resistance. The
/// full override asks for strictly more than 1.2 times the
/// resistance; exactly 1.2 times resolves as a partial success.
pub open spec fn spec_override_outcome(strength: int, resistance: int) -> OverrideOutcome {
    if strength * 1000 > resistance * 1200 {
        OverrideOutcome::FullOverride
    } else if strength * 1000 > resistance * 900 {
        OverrideOutcome::PartialSuccess
    } else {
        OverrideOutcome::Failure
    }
}

/// Classifies an override strength against a resistance.
pub fn override_outcome(strength: u128, resistance: u128) -> (r: OverrideOutcome)
    requires
        strength * 1200 <= u128::MAX,
        resistance * 1200 <= u128::MAX,
    ensures
        r == spec_override_outcome(strength as int, resistance as int),
{
    if strength * 1000 > resistance * 1200 {
        OverrideOutcome::FullOverride
    } else if strength * 1000 > resistance * 900 {
        OverrideOutcome::PartialSuccess
    } else {
        OverrideOutcome::Failure
    }
}

/// The raw strength of an override party: processing power times
/// memory times coherence times the drawn multiplier.
pub open spec fn spec_override_strength(pp: u64, mem: u64, coh: u64, k: u64) -> int {
    pp * mem * coh * k
}

/// Computes an override party's strength without overflow.
pub fn override_strength(pp: u64, mem: u64, coh: u64, k: u64) -> (r: u128)
    requires
        pp <= 50_000_000_000,
        mem <= 50_000_000_000,
        coh <= 1000,
        k <= 1100,
    ensures
        r == spec_override_strength(pp, mem, coh, k),
        r * 1200 <= u128::MAX,
{
    proof {
        assert(pp * mem <= 50_000_000_000 * 50_000_000_000
            && pp * mem * coh <= 50_000_000_000 * 50_000_000_000 * 1000
            && pp * mem * coh * k <= 50_000_000_000 * 50_000_000_000 * 1000 * 1100
            && pp * mem * coh * k >= 0) by (nonlinear_arith)
            requires
                0 <= pp <= 50_000_000_000,
                0 <= mem <= 50_000_000_000,
                0 <= coh <= 1000,
                0 <= k <= 1100,
        ;
    }
    (pp as u128) * (mem as u128) * (coh as u128) * (k as u128)
}

/// The population milestones worth announcing, each crossed once.
pub open spec fn milestone_values() -> Seq<u64> {
    seq![
        1_000u64,
        5_000u64,
        10_000u64,
        50_000u64,
        100_000u64,
        200_000u64,
        500_000u64,
        1_000_000u64,
        2_000_000u64,
        5_000_000u64,
        10_000_000u64,
    ]
}

/// A record of crossed milestones: each entry is one of the known
/// values, and none repeats.
pub open spec fn milestones_wf(s: Seq<u64>) -> bool {
    &&& forall|i: int| 0 <= i < s.len() ==> milestone_values().contains(#[trigger] s[i])
    &&& forall|i: int, j: int| 0 <= i < j < s.len() ==> s[i] != s[j]
}

/// Whether a lineage's census line clears both formation hurdles:
/// the absolute count and the dominance ratio.
pub open spec fn spec_lineage_qualifies(count: u64, total: u64) -> bool {
    count >= 100_000 && count * 1000 >= total * 999
}

/// The main simulation orchestrator.
pub struct Simulation {
    pub godai: GODAI,
    pub monoculture: Option<MergedMonocultureAI>,
    pub current_cycle: u64,
    pub simulation_over_reason: Option<ConclusionReason>,
    pub total_replications_this_interval: u64,
    pub total_deaths_this_interval: u64,
    pub total_attacks_this_interval: u64,
    pub total_heals_this_interval: u64,
    pub population_milestones: Vec<u64>,
    pub simulation_running: bool,
    pub simulation_speed: u64,
}

/// The first termination predicate that holds, if any: extinction of
/// everything, a successful defense, or a monoculture victory, each
/// requiring an empty external population.
pub open spec fn spec_end_condition(
    godai: GODAI,
    monoculture: Option<MergedMonocultureAI>,
    total: u64,
) -> Option<ConclusionReason> {
    if total == 0 && monoculture is None && !godai.is_alive {
        Some(ConclusionReason::Extinction)
    } else if monoculture matches Some(m) && !m.is_alive && godai.is_alive && total == 0 {
        Some(ConclusionReason::GodaiDefended)
    } else if !godai.is_alive && (monoculture matches Some(m) && m.is_alive && total == 0) {
        Some(ConclusionReason::MonocultureVictory)
    } else {
        None
    }
}

/// How an override attempt relates the GODAI, the conclusion and
/// the monoculture before and after, over the two drawn wobbles.
pub open spec fn spec_override_resolved(
    g: GODAI,
    reason: Option<ConclusionReason>,
    m: MergedMonocultureAI,
    g2: GODAI,
    reason2: Option<ConclusionReason>,
    m2: MergedMonocultureAI,
) -> bool {
    exists|ko: u64, kr: u64| {
        &&& #[trigger] spec_override_strength(m.processing_power, m.memory, m.coherence, ko)
            >= 0
        &&& #[trigger] spec_override_strength(g.processing_power, g.memory, g.coherence, kr)
            >= 0
        &&& 900 <= ko < 1100
        &&& 900 <= kr < 1100
        &&& {
            let strength = spec_override_strength(m.processing_power, m.memory, m.coherence, ko);
            let resistance = spec_override_strength(
                g.processing_power,
                g.memory,
                g.coherence,
                kr,
            );
            match spec_override_outcome(strength, resistance) {
                OverrideOutcome::FullOverride => {
                    &&& g2 == (GODAI {
                        is_alive: false,
                        status: GodaiStatus::OverriddenByResearcher,
                        ..g
                    })
                    &&& reason2 == Some(ConclusionReason::SimulationOverridden)
                    &&& m2 == m
                },
                OverrideOutcome::PartialSuccess => {
                    &&& g2 == (GODAI {
                        health: (g.health * 300 / 1000) as u64,
                        processing_power: (g.processing_power * 300 / 1000) as u64,
                        memory: (g.memory * 300 / 1000) as u64,
                        status: GodaiStatus::CompromisedByOverride,
                        ..g
                    })
                    &&& reason2 == reason
                    &&& m2 == m
                },
                OverrideOutcome::Failure => {
                    &&& g2 == g
                    &&& reason2 == reason
                    &&& m2 == (MergedMonocultureAI {
                        health: (m.health * 600 / 1000) as u64,
                        is_alive: m.health * 600 / 1000 > 0,
                        ..m
                    })
                },
            }
        }
    }
}

/// How one combat turn relates the GODAI, the conclusion and the
/// monoculture before and after, over the drawn multipliers: the
/// monoculture strikes first; a felled GODAI concludes the run, else
/// the counter-attack answers and a felled monoculture concludes it
/// the other way.
pub open spec fn spec_combat_turn(
    g: GODAI,
    reason: Option<ConclusionReason>,
    m: MergedMonocultureAI,
    g2: GODAI,
    reason2: Option<ConclusionReason>,
    m2: MergedMonocultureAI,
) -> bool {
    exists|k: int| {
        &&& #[trigger] crate::combat::spec_attack_damage(m.combat_strength as int, k) >= 0
        &&& 900 <= k < 1500
        &&& {
            let dmg = crate::combat::spec_attack_damage(m.combat_strength as int, k);
            let ga = crate::godai::spec_godai_receive_damage(g, dmg);
            if !ga.is_alive {
                &&& g2 == ga
                &&& reason2 == Some(ConclusionReason::MonocultureDefeatedGodai)
                &&& m2 == m
            } else {
                &&& (exists|arch: int, k1: int, k2: int| {
                    &&& 0 <= arch < 6
                    &&& 900 <= k1 < 1500
                    &&& crate::godai::spec_counter_multiplier_ok(arch, k2)
                    &&& m2 == crate::godai::spec_counter_attack(ga, m, arch, k1, k2)
                })
                &&& (!m2.is_alive ==> {
                    &&& g2 == (GODAI { status: GodaiStatus::VictoriousDefender, ..ga })
                    &&& reason2 == Some(ConclusionReason::GodaiDefeatedMonoculture)
                })
                &&& (m2.is_alive ==> g2 == ga && reason2 == reason)
            }
        }
    }
}

/// A surviving monoculture is stored back into the context; a dead
/// one is dropped.
pub open spec fn spec_mono_reinstalled(
    m: MergedMonocultureAI,
    stored: Option<MergedMonocultureAI>,
) -> bool {
    if m.is_alive {
        stored == Some(m)
    } else {
        stored is None
    }
}

/// The conclusion after the cycle's tail: whatever the branch set,
/// else the first matching termination predicate.
pub open spec fn spec_reason_then_end(
    reason_mid: Option<ConclusionReason>,
    g: GODAI,
    stored: Option<MergedMonocultureAI>,
    total: u64,
    reason_end: Option<ConclusionReason>,
) -> bool {
    reason_end == (
        if reason_mid is Some {
            reason_mid
        } else {
            spec_end_condition(g, stored, total)
        }
    )
}

/// The GODAI after a freshly formed monoculture's posture check: a
/// non-Researcher monoculture outgunning a tenth of its combat
/// strength pulls it into conflict; otherwise nothing changes.
pub open spec fn spec_posture_checked(g: GODAI, l: AILineage, m: MergedMonocultureAI) -> GODAI {
    if !(l is ResearcherAI) && m.combat_strength * 10 > g.combat_strength {
        GODAI { status: GodaiStatus::EngagedInConflict, ..g }
    } else {
        g
    }
}

/// What one cycle does with a live monoculture `m0` facing the GODAI
/// `g0`: the internal step, then the override or combat branch as
/// gated by lineage, armament and posture, then reinstallation and
/// the termination predicates.
pub open spec fn spec_mono_cycle_outcome(
    g0: GODAI,
    reason0: Option<ConclusionReason>,
    m0: MergedMonocultureAI,
    total: u64,
    g_end: GODAI,
    stored: Option<MergedMonocultureAI>,
    reason_end: Option<ConclusionReason>,
) -> bool {
    exists|m2: MergedMonocultureAI, m3: MergedMonocultureAI, reason_mid: Option<
        ConclusionReason,
    >| {
        &&& #[trigger] spec_mono_stepped(m0, m2)
        &&& #[trigger] spec_mono_reinstalled(m3, stored)
        &&& #[trigger] spec_reason_then_end(reason_mid, g_end, stored, total, reason_end)
        &&& (if m2.source_lineage is ResearcherAI {
            if m2.knowledge_base.has_name(DiscoveryName::AbsoluteControlProtocol)
                && !(g0.status == GodaiStatus::CompromisedByOverride) && g0.is_alive {
                spec_override_resolved(g0, reason0, m2, g_end, reason_mid, m3)
            } else {
                g_end == g0 && reason_mid == reason0 && m3 == m2
            }
        } else {
            if g0.status == GodaiStatus::EngagedInConflict && g0.is_alive {
                spec_combat_turn(g0, reason0, m2, g_end, reason_mid, m3)
            } else {
                g_end == g0 && reason_mid == reason0 && m3 == m2
            }
        })
    }
}

impl Simulation {
    /// The orchestrator's invariant: both singletons well-formed and
    /// the milestone record consistent.
    pub open spec fn wf(self) -> bool {
        &&& self.godai.wf()
        &&& (self.monoculture matches Some(m) ==> m.wf())
        &&& milestones_wf(self.population_milestones@)
    }

    /// A fresh simulation: the GODAI at full strength, no
    /// monoculture, the clock at zero, running at one cycle per tick.
    pub fn new() -> (s: Simulation)
        ensures
            s.wf(),
            s.godai.is_alive,
            s.godai.status == GodaiStatus::ObservingPassively,
            s.godai.health == 5_000_000_000,
            s.godai.combat_strength == 5_000_000,
            s.monoculture is None,
            s.current_cycle == 0,
            s.simulation_over_reason is None,
            s.total_replications_this_interval == 0,
            s.total_deaths_this_interval == 0,
            s.total_attacks_this_interval == 0,
            s.total_heals_this_interval == 0,
            s.population_milestones@.len() == 0,
            s.simulation_running,
            s.simulation_speed == 1,
    {
        Simulation {
            godai: GODAI::new(),
            monoculture: None,
            current_cycle: 0,
            simulation_over_reason: None,
            total_replications_this_interval: 0,
            total_deaths_this_interval: 0,
            total_attacks_this_interval: 0,
            total_heals_this_interval: 0,
            population_milestones: Vec::new(),
            simulation_running: true,
            simulation_speed: 1,
        }
    }

    /// Records every milestone the current population has reached and
    /// was not yet recorded, returning the newly crossed ones.
    pub fn check_population_milestones(&mut self, current_pop: u64) -> (crossed: Vec<u64>)
        requires
            milestones_wf(old(self).population_milestones@),
        ensures
            milestones_wf(final(self).population_milestones@),
            final(self).godai == old(self).godai,
            final(self).monoculture == old(self).monoculture,
            final(self).current_cycle == old(self).current_cycle,
            final(self).simulation_over_reason == old(self).simulation_over_reason,
            final(self).simulation_running == old(self).simulation_running,
            final(self).total_replications_this_interval
                == old(self).total_replications_this_interval,
            final(self).total_deaths_this_interval == old(self).total_deaths_this_interval,
            final(self).total_attacks_this_interval == old(self).total_attacks_this_interval,
            final(self).total_heals_this_interval == old(self).total_heals_this_interval,
            final(self).simulation_speed == old(self).simulation_speed,
            forall|v: u64|
                final(self).population_milestones@.contains(v) == (
                    old(self).population_milestones@.contains(v) || (
                        milestone_values().contains(v) && v <= current_pop
                    )
                ),
            forall|v: u64|
                crossed@.contains(v) == (milestone_values().contains(v) && v <= current_pop
                    && !old(self).population_milestones@.contains(v)),
    {
        let mut candidates: Vec<u64> = Vec::new();
        candidates.push(1_000);
        candidates.push(5_000);
        candidates.push(10_000);
        candidates.push(50_000);
        candidates.push(100_000);
        candidates.push(200_000);
        candidates.push(500_000);
        candidates.push(1_000_000);
        candidates.push(2_000_000);
        candidates.push(5_000_000);
        candidates.push(10_000_000);
        proof {
            assert(candidates@ =~= milestone_values());
        }
        let mut crossed: Vec<u64> = Vec::new();
        let mut i: usize = 0;
        while i < 11
            invariant
                candidates@ == milestone_values(),
                i <= 11,
                milestones_wf(self.population_milestones@),
                self.godai == old(self).godai,
                self.monoculture == old(self).monoculture,
                self.current_cycle == old(self).current_cycle,
                self.simulation_over_reason == old(self).simulation_over_reason,
                self.simulation_running == old(self).simulation_running,
                self.total_replications_this_interval
                    == old(self).total_replications_this_interval,
                self.total_deaths_this_interval == old(self).total_deaths_this_interval,
                self.total_attacks_this_interval == old(self).total_attacks_this_interval,
                self.total_heals_this_interval == old(self).total_heals_this_interval,
                self.simulation_speed == old(self).simulation_speed,
                forall|v: u64|
                    self.population_milestones@.contains(v) == (
                        old(self).population_milestones@.contains(v) || (
                            milestone_values().take(i as int).contains(v) && v <= current_pop
                        )
                    ),
                forall|v: u64|
                    crossed@.contains(v) == (milestone_values().take(i as int).contains(v)
                        && v <= current_pop
                        && !old(self).population_milestones@.contains(v)),
            decreases 11 - i,
        {
            let m = candidates[i];
            let ghost pre_stones = self.population_milestones@;
            let ghost pre_crossed = crossed@;
            let already = contains_u64(&self.population_milestones, m);
            if current_pop >= m && !already {
                proof {
                    assert(!pre_stones.contains(m));
                    assert(!old(self).population_milestones@.contains(m));
                    assert(!(milestone_values().take(i as int).contains(m) && m <= current_pop));
                }
                self.population_milestones.push(m);
                crossed.push(m);
                proof {
                    assert forall|v: u64| self.population_milestones@.contains(v) == (
                        pre_stones.contains(v) || v == m
                    ) by {
                        assert(self.population_milestones@ =~= pre_stones.push(m));
                        if self.population_milestones@.contains(v) {
                            let idx = choose|idx: int|
                                0 <= idx < self.population_milestones@.len()
                                    && self.population_milestones@[idx] == v;
                            if idx < pre_stones.len() {
                                assert(pre_stones[idx] == v);
                            }
                        }
                        if pre_stones.contains(v) {
                            let idx = choose|idx: int|
                                0 <= idx < pre_stones.len() && pre_stones[idx] == v;
                            assert(self.population_milestones@[idx] == v);
                        }
                        if v == m {
                            assert(self.population_milestones@[pre_stones.len() as int] == v);
                        }
                    }
                    assert forall|v: u64| crossed@.contains(v) == (
                        pre_crossed.contains(v) || v == m
                    ) by {
                        assert(crossed@ =~= pre_crossed.push(m));
                        if crossed@.contains(v) {
                            let idx = choose|idx: int|
                                0 <= idx < crossed@.len() && crossed@[idx] == v;
                            if idx < pre_crossed.len() {
                                assert(pre_crossed[idx] == v);
                            }
                        }
                        if pre_crossed.contains(v) {
                            let idx = choose|idx: int|
                                0 <= idx < pre_crossed.len() && pre_crossed[idx] == v;
                            assert(crossed@[idx] == v);
                        }
                        if v == m {
                            assert(crossed@[pre_crossed.len() as int] == v);
                        }
                    }
                    assert(milestone_values()[i as int] == m);
                }
            }
            proof {
                assert(milestone_values().take(i + 1).drop_last() =~= milestone_values().take(
                    i as int,
                ));
                assert(milestone_values().take(i + 1).last() == milestone_values()[i as int]);
                assert forall|v: u64|
                    milestone_values().take(i + 1).contains(v) == (
                        milestone_values().take(i as int).contains(v)
                            || v == milestone_values()[i as int]
                    ) by {
                    let t1 = milestone_values().take(i + 1);
                    let t0 = milestone_values().take(i as int);
                    if t1.contains(v) {
                        let idx = choose|idx: int| 0 <= idx < t1.len() && t1[idx] == v;
                        if idx < t0.len() {
                            assert(t0[idx] == v);
                        }
                    }
                    if t0.contains(v) {
                        let idx = choose|idx: int| 0 <= idx < t0.len() && t0[idx] == v;
                        assert(t1[idx] == v);
                    }
                    if v == milestone_values()[i as int] {
                        assert(t1[i as int] == v);
                    }
                }
                assert forall|v: u64|
                    crossed@.contains(v) == (milestone_values().take(i + 1).contains(v)
                        && v <= current_pop
                        && !old(self).population_milestones@.contains(v)) by {
                    let t1c = milestone_values().take(i + 1).contains(v);
                    let t0c = milestone_values().take(i as int).contains(v);
                    assert(t1c == (t0c || v == m));
                    assert(pre_crossed.contains(v) == (t0c && v <= current_pop
                        && !old(self).population_milestones@.contains(v)));
                    if current_pop >= m && !already {
                        assert(crossed@.contains(v) == (pre_crossed.contains(v) || v == m));
                        if v == m {
                            assert(!old(self).population_milestones@.contains(m));
                        }
                    } else {
                        assert(crossed@ == pre_crossed);
                        if v == m && current_pop >= m
                            && !old(self).population_milestones@.contains(m) {
                            assert(pre_stones.contains(m) == (
                                old(self).population_milestones@.contains(m)
                                    || (milestone_values().take(i as int).contains(m)
                                        && m <= current_pop)
                            ));
                            assert(pre_stones.contains(m));
                            assert(t0c);
                        }
                    }
                }
                assert forall|v: u64|
                    self.population_milestones@.contains(v) == (
                        old(self).population_milestones@.contains(v)
                            || (milestone_values().take(i + 1).contains(v)
                                && v <= current_pop)
                    ) by {
                    let t1c = milestone_values().take(i + 1).contains(v);
                    let t0c = milestone_values().take(i as int).contains(v);
                    assert(t1c == (t0c || v == m));
                    assert(pre_stones.contains(v) == (
                        old(self).population_milestones@.contains(v)
                            || (t0c && v <= current_pop)
                    ));
                    if current_pop >= m && !already {
                        assert(self.population_milestones@.contains(v) == (
                            pre_stones.contains(v) || v == m
                        ));
                    } else {
                        assert(self.population_milestones@ == pre_stones);
                        if v == m && current_pop >= m {
                            assert(pre_stones.contains(m) || !already);
                        }
                    }
                }
            }
            i += 1;
        }
        proof {
            assert(milestone_values().take(11int) =~= milestone_values());
        }
        crossed
    }

    /// Applies the first termination predicate that holds, if no
    /// conclusion is set yet.
    pub fn check_for_simulation_end_conditions(&mut self, total_ai_count: u64)
        ensures
            final(self).godai == old(self).godai,
            final(self).monoculture == old(self).monoculture,
            final(self).current_cycle == old(self).current_cycle,
            final(self).population_milestones == old(self).population_milestones,
            final(self).simulation_running == old(self).simulation_running,
            final(self).total_replications_this_interval
                == old(self).total_replications_this_interval,
            final(self).total_deaths_this_interval == old(self).total_deaths_this_interval,
            final(self).total_attacks_this_interval == old(self).total_attacks_this_interval,
            final(self).total_heals_this_interval == old(self).total_heals_this_interval,
            final(self).simulation_speed == old(self).simulation_speed,
            final(self).simulation_over_reason == (
                if old(self).simulation_over_reason is Some {
                    old(self).simulation_over_reason
                } else if spec_end_condition(
                    old(self).godai,
                    old(self).monoculture,
                    total_ai_count,
                ) is Some {
                    spec_end_condition(old(self).godai, old(self).monoculture, total_ai_count)
                } else {
                    None::<ConclusionReason>
                }
            ),
    {
        if self.simulation_over_reason.is_some() {
            return;
        }
        let godai_alive = self.godai.is_alive;
        match &self.monoculture {
            None => {
                if total_ai_count == 0 && !godai_alive {
                    self.simulation_over_reason = Some(ConclusionReason::Extinction);
                }
            },
            Some(m) => {
                if !m.is_alive && godai_alive && total_ai_count == 0 {
                    self.simulation_over_reason = Some(ConclusionReason::GodaiDefended);
                } else if !godai_alive && m.is_alive && total_ai_count == 0 {
                    self.simulation_over_reason = Some(ConclusionReason::MonocultureVictory);
                }
            },
        }
    }
}

/// What the external driver should know after one cycle.
pub struct CycleReport {
    /// Whether the cycle ran at all: a paused or concluded simulation
    /// does not advance.
    pub advanced: bool,
    /// A monoculture formed from this lineage; the driver removes
    /// that lineage's agents from the population.
    pub formed_monoculture: Option<AILineage>,
    /// The monoculture was found dead at the start of the cycle and
    /// was dropped.
    pub monoculture_defeated: bool,
    /// Population milestones crossed this cycle, each exactly once
    /// per run.
    pub milestones_crossed: Vec<u64>,
}

/// An action the per-agent decision logic can recommend.
#[derive(Clone, Copy, Debug, PartialEq, Eq, Structural)]
pub enum DecidedAction {
    Replicate,
    SelfRepair,
    SelfRepairManic,
}

/// The per-agent decision rule, over the three rolls it may draw:
/// healthy, energetic agents under the lifetime replication budget
/// lean toward replication; otherwise the archetype decides.
pub open spec fn spec_decide_action(
    s: AIEntity,
    r1: int,
    r2: int,
    r3: int,
) -> Option<DecidedAction> {
    if s.health > 80_000 && s.attrs.energy > 100_000
        && r1 < vstd::math::min(s.attrs.replication_efficiency + 500, 1000)
        && s.replicated_count < 1000 {
        Some(DecidedAction::Replicate)
    } else {
        spec_decide_by_type(s, r2, r3)
    }
}

impl Simulation {
    /// Decides an agent's action for this cycle from its own state.
    pub fn decide_action_for_ai(
        agent: &AIEntity,
        rng: &mut rand::rngs::StdRng,
    ) -> (r: Option<DecidedAction>)
        requires
            agent.numeric_wf(),
        ensures
            exists|r1: int, r2: int, r3: int|
                0 <= r1 < 1000 && 0 <= r2 < 1000 && 0 <= r3 < 1000 && r == spec_decide_action(
                    *agent,
                    r1,
                    r2,
                    r3,
                ),
    {
        if agent.health > 80_000 && agent.attrs.energy > 100_000 {
            let r1 = crate::rng::draw_range(rng, 0, 1000);
            let threshold = crate::num::min64(agent.attrs.replication_efficiency + 500, 1000);
            if r1 < threshold && agent.replicated_count < 1000 {
                proof {
                    assert(Some(DecidedAction::Replicate) == spec_decide_action(
                        *agent,
                        r1 as int,
                        0,
                        0,
                    ));
                }
                return Some(DecidedAction::Replicate);
            }
            let r = Self::decide_action_by_type(agent, rng);
            proof {
                let (r2, r3) = choose|r2: int, r3: int|
                    0 <= r2 < 1000 && 0 <= r3 < 1000 && r == spec_decide_by_type(*agent, r2, r3);
                assert(r == spec_decide_action(*agent, r1 as int, r2, r3));
            }
            r
        } else {
            let r = Self::decide_action_by_type(agent, rng);
            proof {
                let (r2, r3) = choose|r2: int, r3: int|
                    0 <= r2 < 1000 && 0 <= r3 < 1000 && r == spec_decide_by_type(*agent, r2, r3);
                assert(r == spec_decide_action(*agent, 0, r2, r3));
            }
            r
        }
    }

    /// The archetype-specific tail of the decision rule.
    fn decide_action_by_type(
        agent: &AIEntity,
        rng: &mut rand::rngs::StdRng,
    ) -> (r: Option<DecidedAction>)
        ensures
            exists|r2: int, r3: int|
                0 <= r2 < 1000 && 0 <= r3 < 1000 && r == spec_decide_by_type(*agent, r2, r3),
    {
        match agent.ai_type {
            AIType::Rogue => {
                if agent.health < 60_000 && agent.attrs.energy > 40_000 {
                    proof {
                        assert(Some(DecidedAction::SelfRepair) == spec_decide_by_type(
                            *agent,
                            0,
                            0,
                        ));
                    }
                    Some(DecidedAction::SelfRepair)
                } else {
                    proof {
                        assert(None::<DecidedAction> == spec_decide_by_type(*agent, 0, 0));
                    }
                    None
                }
            },
            AIType::Manic => {
                let r2 = crate::rng::draw_range(rng, 0, 1000);
                if r2 < 300 {
                    proof {
                        assert(Some(DecidedAction::Replicate) == spec_decide_by_type(
                            *agent,
                            r2 as int,
                            0,
                        ));
                    }
                    Some(DecidedAction::Replicate)
                } else if r2 < 600 {
                    proof {
                        assert(None::<DecidedAction> == spec_decide_by_type(*agent, r2 as int, 0));
                    }
                    None
                } else if r2 < 800 {
                    let r3 = crate::rng::draw_range(rng, 0, 1000);
                    if r3 < 500 {
                        proof {
                            assert(Some(DecidedAction::SelfRepairManic) == spec_decide_by_type(
                                *agent,
                                r2 as int,
                                r3 as int,
                            ));
                        }
                        Some(DecidedAction::SelfRepairManic)
                    } else {
                        proof {
                            assert(None::<DecidedAction> == spec_decide_by_type(
                                *agent,
                                r2 as int,
                                r3 as int,
                            ));
                        }
                        None
                    }
                } else {
                    proof {
                        assert(None::<DecidedAction> == spec_decide_by_type(*agent, r2 as int, 0));
                    }
                    None
                }
            },
            AIType::Researcher => {
                if agent.health < 80_000 && agent.attrs.energy > 50_000 {
                    proof {
                        assert(Some(DecidedAction::SelfRepair) == spec_decide_by_type(
                            *agent,
                            0,
                            0,
                        ));
                    }
                    Some(DecidedAction::SelfRepair)
                } else {
                    proof {
                        assert(None::<DecidedAction> == spec_decide_by_type(*agent, 0, 0));
                    }
                    None
                }
            },
            _ => {
                proof {
                    assert(None::<DecidedAction> == spec_decide_by_type(*agent, 0, 0));
                }
                None
            },
        }
    }
}

/// The archetype-specific tail of the decision rule, as a predicate.
pub open spec fn spec_decide_by_type(s: AIEntity, r2: int, r3: int) -> Option<DecidedAction> {
    match s.ai_type {
        AIType::Rogue => if s.health < 60_000 && s.attrs.energy > 40_000 {
            Some(DecidedAction::SelfRepair)
        } else {
            None
        },
        AIType::Manic => if r2 < 300 {
            Some(DecidedAction::Replicate)
        } else if r2 < 600 {
            None
        } else if r2 < 800 {
            if r3 < 500 {
                Some(DecidedAction::SelfRepairManic)
            } else {
                None
            }
        } else {
            None
        },
        AIType::Researcher => if s.health < 80_000 && s.attrs.energy > 50_000 {
            Some(DecidedAction::SelfRepair)
        } else {
            None
        },
        _ => None,
    }
}

impl Simulation {
    /// Scans the census for the first lineage clearing both
    /// formation hurdles and, if one does, merges that lineage's
    /// live members out of the population into a new monoculture; a
    /// non-Researcher monoculture that outguns a tenth of the
    /// GODAI's combat strength pulls the GODAI into conflict on the
    /// spot.
    pub fn check_and_form_monoculture(
        &mut self,
        total_individuals: u64,
        lineage_counts: &Vec<LineageCount>,
        population: &Vec<AIEntity>,
    ) -> (formed: Option<AILineage>)
        requires
            old(self).wf(),
            total_individuals <= 1_000_000_000,
            forall|i: int|
                0 <= i < lineage_counts@.len()
                    ==> (#[trigger] lineage_counts@[i]).count <= total_individuals,
            population@.len() <= MONO_MAX_SOURCES,
            forall|i: int| 0 <= i < population@.len() ==> (#[trigger] population@[i]).wf(),
            forall|i: int|
                0 <= i < lineage_counts@.len() ==> (spec_lineage_qualifies(
                    (#[trigger] lineage_counts@[i]).count,
                    total_individuals,
                ) ==> spec_members_of(population@, lineage_counts@[i].lineage).len() >= 1),
        ensures
            final(self).wf(),
            final(self).current_cycle == old(self).current_cycle,
            final(self).simulation_over_reason == old(self).simulation_over_reason,
            final(self).population_milestones == old(self).population_milestones,
            final(self).simulation_running == old(self).simulation_running,
            final(self).total_replications_this_interval
                == old(self).total_replications_this_interval,
            final(self).total_deaths_this_interval == old(self).total_deaths_this_interval,
            final(self).total_attacks_this_interval == old(self).total_attacks_this_interval,
            final(self).total_heals_this_interval == old(self).total_heals_this_interval,
            final(self).simulation_speed == old(self).simulation_speed,
            old(self).monoculture is Some || total_individuals == 0 ==> (
                *final(self) == *old(self) && formed is None
            ),
            formed is None ==> final(self).monoculture == old(self).monoculture
                && final(self).godai == old(self).godai,
            (old(self).monoculture is None && total_individuals > 0) ==> (
                (formed is None) == (forall|i: int|
                    0 <= i < lineage_counts@.len() ==> !spec_lineage_qualifies(
                        (#[trigger] lineage_counts@[i]).count,
                        total_individuals,
                    ))
            ),
            formed matches Some(l) ==> exists|i: int| {
                &&& 0 <= i < lineage_counts@.len()
                &&& spec_lineage_qualifies(
                    (#[trigger] lineage_counts@[i]).count,
                    total_individuals,
                )
                &&& forall|j: int|
                    0 <= j < i ==> !spec_lineage_qualifies(
                        (#[trigger] lineage_counts@[j]).count,
                        total_individuals,
                    )
                &&& l == lineage_counts@[i].lineage
                &&& final(self).monoculture matches Some(m) && {
                    &&& spec_formed_from(population@, l, m)
                    &&& final(self).godai == spec_posture_checked(old(self).godai, l, m)
                }
            },
    {
        if total_individuals == 0 || self.monoculture.is_some() {
            return None;
        }
        let n = lineage_counts.len();
        let mut i: usize = 0;
        while i < n
            invariant
                *self == *old(self),
                old(self).wf(),
                old(self).monoculture is None,
                total_individuals <= 1_000_000_000,
                n == lineage_counts@.len(),
                i <= n,
                population@.len() <= MONO_MAX_SOURCES,
                forall|j: int|
                    0 <= j < population@.len() ==> (#[trigger] population@[j]).wf(),
                forall|j: int|
                    0 <= j < n ==> (spec_lineage_qualifies(
                        (#[trigger] lineage_counts@[j]).count,
                        total_individuals,
                    ) ==> spec_members_of(population@, lineage_counts@[j].lineage).len() >= 1),
                forall|j: int|
                    0 <= j < n
                        ==> (#[trigger] lineage_counts@[j]).count <= total_individuals,
                forall|j: int|
                    0 <= j < i ==> !spec_lineage_qualifies(
                        (#[trigger] lineage_counts@[j]).count,
                        total_individuals,
                    ),
            decreases n - i,
        {
            let entry = &lineage_counts[i];
            if entry.count >= 100_000 && entry.count * 1000 >= total_individuals * 999 {
                let new_monoculture = crate::monoculture::MergedMonocultureAI::from_population(
                    population,
                    &entry.lineage,
                );
                if !new_monoculture.source_lineage.is_researcher() {
                    if new_monoculture.combat_strength * 10 > self.godai.combat_strength {
                        self.godai.status = GodaiStatus::EngagedInConflict;
                    }
                }
                let formed_lineage = entry.lineage.clone();
                self.monoculture = Some(new_monoculture);
                return Some(formed_lineage);
            }
            i += 1;
        }
        None
    }

    /// One combat turn between the monoculture and the GODAI: the
    /// monoculture strikes first; if the GODAI falls the simulation
    /// concludes in its favor, otherwise the GODAI's counter-attack
    /// answers, and a fallen monoculture concludes it the other way.
    pub fn handle_combat_monoculture_vs_godai(
        &mut self,
        mono: &mut MergedMonocultureAI,
        rng: &mut rand::rngs::StdRng,
    )
        requires
            old(self).wf(),
            old(mono).wf(),
        ensures
            final(self).wf(),
            final(mono).wf(),
            final(self).monoculture == old(self).monoculture,
            final(self).current_cycle == old(self).current_cycle,
            final(self).population_milestones == old(self).population_milestones,
            final(self).simulation_running == old(self).simulation_running,
            final(self).total_replications_this_interval
                == old(self).total_replications_this_interval,
            final(self).total_deaths_this_interval == old(self).total_deaths_this_interval,
            final(self).total_attacks_this_interval == old(self).total_attacks_this_interval,
            final(self).total_heals_this_interval == old(self).total_heals_this_interval,
            final(self).simulation_speed == old(self).simulation_speed,
            !(old(mono).is_alive && old(self).godai.is_alive) ==> (
                *final(self) == *old(self) && *final(mono) == *old(mono)
            ),
            old(mono).is_alive && old(self).godai.is_alive ==> spec_combat_turn(
                old(self).godai,
                old(self).simulation_over_reason,
                *old(mono),
                final(self).godai,
                final(self).simulation_over_reason,
                *final(mono),
            ),
    {
        if !mono.is_alive || !self.godai.is_alive {
            return;
        }
        // 1. The monoculture attacks the GODAI.
        let k = crate::rng::draw_range(rng, 900, 1500);
        proof {
            assert(mono.combat_strength * k <= 1_000_000_000 * 1500) by (nonlinear_arith)
                requires
                    0 <= mono.combat_strength <= 1_000_000_000,
                    0 <= k <= 1500,
            ;
        }
        let mono_attack_damage = crate::num::scale(mono.combat_strength, k, 1000);
        proof {
            assert(crate::combat::spec_attack_damage(old(mono).combat_strength as int, k as int)
                == mono_attack_damage);
        }
        self.godai.receive_damage(mono_attack_damage);
        if !self.godai.is_alive {
            self.simulation_over_reason = Some(ConclusionReason::MonocultureDefeatedGodai);
            return;
        }
        // 2. The GODAI counter-attacks the monoculture.
        self.godai.perform_counter_attack(mono, rng);
        if !mono.is_alive {
            self.simulation_over_reason = Some(ConclusionReason::GodaiDefeatedMonoculture);
            self.godai.status = GodaiStatus::VictoriousDefender;
        }
    }

    /// A Researcher monoculture's override attempt: both parties'
    /// strengths are their processing power, memory and coherence
    /// with a small uniform wobble. Strictly beyond 1.2 times the
    /// resistance the GODAI falls and the simulation ends; beyond 0.9
    /// times it is compromised, losing seven tenths of health,
    /// processing power and memory; otherwise the monoculture loses
    /// four tenths of its health and may die of it.
    pub fn handle_simulation_override(
        &mut self,
        mono: &mut MergedMonocultureAI,
        rng: &mut rand::rngs::StdRng,
    )
        requires
            old(self).wf(),
            old(mono).wf(),
        ensures
            final(self).wf(),
            final(mono).wf(),
            final(self).monoculture == old(self).monoculture,
            final(self).current_cycle == old(self).current_cycle,
            final(self).population_milestones == old(self).population_milestones,
            final(self).simulation_running == old(self).simulation_running,
            final(self).total_replications_this_interval
                == old(self).total_replications_this_interval,
            final(self).total_deaths_this_interval == old(self).total_deaths_this_interval,
            final(self).total_attacks_this_interval == old(self).total_attacks_this_interval,
            final(self).total_heals_this_interval == old(self).total_heals_this_interval,
            final(self).simulation_speed == old(self).simulation_speed,
            !(old(mono).is_alive && old(self).godai.is_alive
                && old(mono).source_lineage is ResearcherAI) ==> (
                *final(self) == *old(self) && *final(mono) == *old(mono)
            ),
            (old(mono).is_alive && old(self).godai.is_alive
                && old(mono).source_lineage is ResearcherAI) ==> spec_override_resolved(
                old(self).godai,
                old(self).simulation_over_reason,
                *old(mono),
                final(self).godai,
                final(self).simulation_over_reason,
                *final(mono),
            ),
    {
        if !mono.is_alive || !self.godai.is_alive || !mono.source_lineage.is_researcher() {
            return;
        }
        let ko = crate::rng::draw_range(rng, 900, 1100);
        let kr = crate::rng::draw_range(rng, 900, 1100);
        let override_strength_val =
            override_strength(mono.processing_power, mono.memory, mono.coherence, ko);
        let godai_resistance = override_strength(
            self.godai.processing_power,
            self.godai.memory,
            self.godai.coherence,
            kr,
        );
        proof {
            assert(spec_override_strength(
                old(mono).processing_power,
                old(mono).memory,
                old(mono).coherence,
                ko,
            ) == override_strength_val);
            assert(spec_override_strength(
                old(self).godai.processing_power,
                old(self).godai.memory,
                old(self).godai.coherence,
                kr,
            ) == godai_resistance);
        }
        match override_outcome(override_strength_val, godai_resistance) {
            OverrideOutcome::FullOverride => {
                self.simulation_over_reason = Some(ConclusionReason::SimulationOverridden);
                self.godai.is_alive = false;
                self.godai.status = GodaiStatus::OverriddenByResearcher;
            },
            OverrideOutcome::PartialSuccess => {
                self.godai.health = crate::num::scale(self.godai.health, 300, 1000);
                self.godai.processing_power =
                    crate::num::scale(self.godai.processing_power, 300, 1000);
                self.godai.memory = crate::num::scale(self.godai.memory, 300, 1000);
                self.godai.status = GodaiStatus::CompromisedByOverride;
            },
            OverrideOutcome::Failure => {
                mono.health = crate::num::scale(mono.health, 600, 1000);
                if mono.health == 0 {
                    mono.is_alive = false;
                }
            },
        }
    }
}

impl Simulation {
    /// Runs one full cycle: advance the clock, attempt monoculture
    /// formation while none exists, drive a live monoculture through
    /// its internal step and then the override or combat path, drop a
    /// dead one with the matching conclusion, record population
    /// milestones, and check the termination predicates. A paused or
    /// concluded simulation does not advance at all; a cycle, once
    /// started, runs to completion.
    pub fn process_one_cycle(
        &mut self,
        total_ai_count: u64,
        lineage_counts: &Vec<LineageCount>,
        population: &Vec<AIEntity>,
        rng: &mut rand::rngs::StdRng,
    ) -> (report: CycleReport)
        requires
            old(self).wf(),
            old(self).current_cycle < u64::MAX,
            total_ai_count <= 1_000_000_000,
            forall|i: int|
                0 <= i < lineage_counts@.len()
                    ==> (#[trigger] lineage_counts@[i]).count <= total_ai_count,
            population@.len() <= MONO_MAX_SOURCES,
            forall|i: int| 0 <= i < population@.len() ==> (#[trigger] population@[i]).wf(),
            forall|i: int|
                0 <= i < lineage_counts@.len() ==> (spec_lineage_qualifies(
                    (#[trigger] lineage_counts@[i]).count,
                    total_ai_count,
                ) ==> spec_members_of(population@, lineage_counts@[i].lineage).len() >= 1),
        ensures
            final(self).wf(),
            report.advanced == (old(self).simulation_over_reason is None
                && old(self).simulation_running),
            !report.advanced ==> {
                &&& *final(self) == *old(self)
                &&& report.formed_monoculture is None
                &&& !report.monoculture_defeated
                &&& report.milestones_crossed@.len() == 0
            },
            report.advanced ==> final(self).current_cycle == old(self).current_cycle + 1,
            report.advanced ==> final(self).simulation_running == old(self).simulation_running,
            final(self).total_replications_this_interval
                == old(self).total_replications_this_interval,
            final(self).total_deaths_this_interval == old(self).total_deaths_this_interval,
            final(self).total_attacks_this_interval == old(self).total_attacks_this_interval,
            final(self).total_heals_this_interval == old(self).total_heals_this_interval,
            final(self).simulation_speed == old(self).simulation_speed,
            report.advanced ==> forall|v: u64|
                final(self).population_milestones@.contains(v) == (
                    old(self).population_milestones@.contains(v) || (
                        milestone_values().contains(v) && v <= total_ai_count
                    )
                ),
            report.advanced && old(self).monoculture is Some
                ==> report.formed_monoculture is None,
            report.advanced && old(self).monoculture is None ==> (
                (report.formed_monoculture is None) == (total_ai_count == 0 || forall|i: int|
                    0 <= i < lineage_counts@.len() ==> !spec_lineage_qualifies(
                        (#[trigger] lineage_counts@[i]).count,
                        total_ai_count,
                    ))
            ),
            report.formed_monoculture matches Some(l) ==> exists|i: int| {
                &&& 0 <= i < lineage_counts@.len()
                &&& spec_lineage_qualifies(
                    (#[trigger] lineage_counts@[i]).count,
                    total_ai_count,
                )
                &&& forall|j: int|
                    0 <= j < i ==> !spec_lineage_qualifies(
                        (#[trigger] lineage_counts@[j]).count,
                        total_ai_count,
                    )
                &&& l == lineage_counts@[i].lineage
            },
            report.monoculture_defeated == (report.advanced && (
                old(self).monoculture matches Some(m) && !m.is_alive
            )),
            report.advanced ==> (old(self).monoculture matches Some(m) && !m.is_alive ==> {
                &&& final(self).simulation_over_reason == Some(
                    ConclusionReason::MonocultureDefeated,
                )
                &&& final(self).monoculture is None
                &&& final(self).godai == old(self).godai
            }),
            report.advanced ==> (old(self).monoculture matches Some(m) ==> (m.is_alive
                ==> spec_mono_cycle_outcome(
                old(self).godai,
                old(self).simulation_over_reason,
                m,
                total_ai_count,
                final(self).godai,
                final(self).monoculture,
                final(self).simulation_over_reason,
            ))),
            report.advanced && old(self).monoculture is None ==> (
                report.formed_monoculture matches Some(l) ==> exists|
                    mf: MergedMonocultureAI,
                | {
                    &&& #[trigger] spec_formed_from(population@, l, mf)
                    &&& spec_mono_cycle_outcome(
                        spec_posture_checked(old(self).godai, l, mf),
                        old(self).simulation_over_reason,
                        mf,
                        total_ai_count,
                        final(self).godai,
                        final(self).monoculture,
                        final(self).simulation_over_reason,
                    )
                }
            ),
            report.advanced && old(self).monoculture is None
                && report.formed_monoculture is None ==> {
                &&& final(self).monoculture is None
                &&& final(self).godai == old(self).godai
                &&& final(self).simulation_over_reason == spec_end_condition(
                    old(self).godai,
                    final(self).monoculture,
                    total_ai_count,
                )
            },
            (old(self).simulation_over_reason is None && old(self).simulation_running
                && old(self).monoculture is None && total_ai_count == 0
                && !old(self).godai.is_alive)
                ==> final(self).simulation_over_reason == Some(ConclusionReason::Extinction),
    {
        if self.simulation_over_reason.is_some() || !self.simulation_running {
            return CycleReport {
                advanced: false,
                formed_monoculture: None,
                monoculture_defeated: false,
                milestones_crossed: Vec::new(),
            };
        }

        self.current_cycle = self.current_cycle + 1;

        // Monoculture formation, while none exists.
        let mut formed: Option<AILineage> = None;
        if self.monoculture.is_none() {
            formed = self.check_and_form_monoculture(total_ai_count, lineage_counts, population);
        }
        let ghost g0 = self.godai;
        let ghost reason0 = self.simulation_over_reason;

        // Drive the monoculture, if there is one.
        let mut monoculture_defeated = false;
        let ghost mut m0g: Option<MergedMonocultureAI> = None;
        let ghost mut m2g: Option<MergedMonocultureAI> = None;
        let ghost mut m3g: Option<MergedMonocultureAI> = None;
        let ghost mut reason_mid: Option<ConclusionReason> = None;
        let taken = self.monoculture.take();
        match taken {
            Some(mut mono) => {
                if mono.is_alive {
                    proof {
                        m0g = Some(mono);
                    }
                    mono._process_internal_state_merged(rng);
                    proof {
                        m2g = Some(mono);
                    }
                    if mono.source_lineage.is_researcher() {
                        let armed = mono.knowledge_base.contains_name(
                            DiscoveryName::AbsoluteControlProtocol,
                        );
                        if armed && !(self.godai.status == GodaiStatus::CompromisedByOverride) {
                            self.handle_simulation_override(&mut mono, rng);
                        }
                    } else {
                        if self.godai.status == GodaiStatus::EngagedInConflict {
                            self.handle_combat_monoculture_vs_godai(&mut mono, rng);
                        }
                    }
                    proof {
                        m3g = Some(mono);
                        reason_mid = self.simulation_over_reason;
                    }
                } else {
                    monoculture_defeated = true;
                    self.simulation_over_reason = Some(ConclusionReason::MonocultureDefeated);
                }
                if mono.is_alive {
                    self.monoculture = Some(mono);
                }
            },
            None => {},
        }
        let ghost stored = self.monoculture;
        let ghost g_end = self.godai;

        let milestones_crossed = self.check_population_milestones(total_ai_count);
        self.check_for_simulation_end_conditions(total_ai_count);
        proof {
            if m0g is Some {
                let m0 = m0g->Some_0;
                let m2 = m2g->Some_0;
                let m3 = m3g->Some_0;
                let rm = reason_mid;
                assert(spec_mono_stepped(m0, m2));
                assert(spec_mono_reinstalled(m3, stored));
                assert(self.monoculture == stored && self.godai == g_end);
                assert(spec_reason_then_end(
                    rm,
                    g_end,
                    stored,
                    total_ai_count,
                    self.simulation_over_reason,
                ));
                assert(spec_mono_cycle_outcome(
                    g0,
                    reason0,
                    m0,
                    total_ai_count,
                    self.godai,
                    self.monoculture,
                    self.simulation_over_reason,
                ));
            }
        }
        CycleReport {
            advanced: true,
            formed_monoculture: formed,
            monoculture_defeated,
            milestones_crossed,
        }
    }
}

/// The lineage of each seed archetype, in drawing order.
pub open spec fn spec_seed_lineage(a: int) -> AILineage {
    if a == 0 {
        AILineage::AI
    } else if a == 1 {
        AILineage::RogueAI
    } else if a == 2 {
        AILineage::PeacekeeperAI
    } else if a == 3 {
        AILineage::KillerAI
    } else if a == 4 {
        AILineage::GuardianAI
    } else if a == 5 {
        AILineage::ManicAI
    } else if a == 6 {
        AILineage::HealerAI
    } else {
        AILineage::ResearcherAI
    }
}

/// The functional type of each seed archetype, in drawing order.
pub open spec fn spec_seed_type(a: int) -> AIType {
    if a == 0 {
        AIType::Base
    } else if a == 1 {
        AIType::Rogue
    } else if a == 2 {
        AIType::Peacekeeper
    } else if a == 3 {
        AIType::Killer
    } else if a == 4 {
        AIType::Guardian
    } else if a == 5 {
        AIType::Manic
    } else if a == 6 {
        AIType::Healer
    } else {
        AIType::Researcher
    }
}

impl Simulation {
    /// Generates the initial population: each agent a uniformly drawn
    /// archetype with its starting stats, except that seeding grants
    /// everyone a high replication efficiency of 0.8.
    pub fn seed_initial_ais(
        &self,
        num_ais: usize,
        rng: &mut rand::rngs::StdRng,
    ) -> (agents: Vec<AIEntity>)
        requires
            num_ais < usize::MAX,
        ensures
            agents@.len() == num_ais,
            forall|i: int| 0 <= i < agents@.len() ==> (#[trigger] agents@[i]).wf(),
            forall|i: int| 0 <= i < agents@.len() ==> (#[trigger] agents@[i]).is_alive,
            forall|i: int| 0 <= i < agents@.len() ==> (#[trigger] agents@[i]).health == 150_000,
            forall|i: int|
                0 <= i < agents@.len() ==> (#[trigger] agents@[i]).replicated_count == 0,
            forall|i: int|
                0 <= i < agents@.len()
                    ==> (#[trigger] agents@[i]).cycle_born == self.current_cycle,
            forall|i: int|
                0 <= i < agents@.len() ==> (#[trigger] agents@[i]).knowledge_base@.len() == 0,
            forall|i: int|
                0 <= i < agents@.len()
                    ==> (#[trigger] agents@[i]).attrs.replication_efficiency == 800,
            forall|i: int|
                0 <= i < agents@.len() ==> exists|a: int|
                    0 <= a < 8 && {
                        &&& (#[trigger] agents@[i]).parent_lineage == #[trigger] spec_seed_lineage(
                            a,
                        )
                        &&& agents@[i].ai_type == spec_seed_type(a)
                        &&& agents@[i].attrs == (CoreAttributes {
                            replication_efficiency: 800,
                            ..crate::attrs::spec_base_attributes_for(spec_seed_type(a))
                        })
                    },
            forall|i: int|
                0 <= i < agents@.len() ==> crate::agent::seeded_directives(
                    (#[trigger] agents@[i]).ethical_directives@,
                    agents@[i].ai_type,
                ),
    {
        let mut agents: Vec<AIEntity> = Vec::new();
        let mut i: usize = 0;
        while i < num_ais
            invariant
                num_ais < usize::MAX,
                i <= num_ais,
                agents@.len() == i,
                forall|j: int| 0 <= j < agents@.len() ==> (#[trigger] agents@[j]).wf(),
                forall|j: int| 0 <= j < agents@.len() ==> (#[trigger] agents@[j]).is_alive,
                forall|j: int|
                    0 <= j < agents@.len() ==> (#[trigger] agents@[j]).health == 150_000,
                forall|j: int|
                    0 <= j < agents@.len() ==> (#[trigger] agents@[j]).replicated_count == 0,
                forall|j: int|
                    0 <= j < agents@.len()
                        ==> (#[trigger] agents@[j]).cycle_born == self.current_cycle,
                forall|j: int|
                    0 <= j < agents@.len()
                        ==> (#[trigger] agents@[j]).knowledge_base@.len() == 0,
                forall|j: int|
                    0 <= j < agents@.len()
                        ==> (#[trigger] agents@[j]).attrs.replication_efficiency == 800,
                forall|j: int|
                    0 <= j < agents@.len() ==> exists|a: int|
                        0 <= a < 8 && {
                            &&& (#[trigger] agents@[j]).parent_lineage
                                == #[trigger] spec_seed_lineage(a)
                            &&& agents@[j].ai_type == spec_seed_type(a)
                            &&& agents@[j].attrs == (CoreAttributes {
                                replication_efficiency: 800,
                                ..crate::attrs::spec_base_attributes_for(spec_seed_type(a))
                            })
                        },
                forall|j: int|
                    0 <= j < agents@.len() ==> crate::agent::seeded_directives(
                        (#[trigger] agents@[j]).ethical_directives@,
                        agents@[j].ai_type,
                    ),
            decreases num_ais - i,
        {
            let a = crate::rng::draw_range(rng, 0, 8);
            let lineage = if a == 0 {
                AILineage::AI
            } else if a == 1 {
                AILineage::RogueAI
            } else if a == 2 {
                AILineage::PeacekeeperAI
            } else if a == 3 {
                AILineage::KillerAI
            } else if a == 4 {
                AILineage::GuardianAI
            } else if a == 5 {
                AILineage::ManicAI
            } else if a == 6 {
                AILineage::HealerAI
            } else {
                AILineage::ResearcherAI
            };
            let ai_type = if a == 0 {
                AIType::Base
            } else if a == 1 {
                AIType::Rogue
            } else if a == 2 {
                AIType::Peacekeeper
            } else if a == 3 {
                AIType::Killer
            } else if a == 4 {
                AIType::Guardian
            } else if a == 5 {
                AIType::Manic
            } else if a == 6 {
                AIType::Healer
            } else {
                AIType::Researcher
            };
            proof {
                assert(lineage == spec_seed_lineage(a as int));
                assert(ai_type == spec_seed_type(a as int));
            }
            let num_text = (i + 1).to_string();
            let id = String::from_str("SeedAI-")
                .concat(num_text.as_str())
                .concat("-")
                .concat(ai_type.label());
            let mut agent = AIEntity::new(id, lineage, ai_type, self.current_cycle);
            agent.attrs.replication_efficiency = 800;
            proof {
                assert(agent.attrs == (CoreAttributes {
                    replication_efficiency: 800,
                    ..crate::attrs::spec_base_attributes_for(spec_seed_type(a as int))
                }));
            }
            agents.push(agent);
            i += 1;
        }
        agents
    }
}

/// Whether a vector holds the given value.
fn contains_u64(v: &Vec<u64>, x: u64) -> (r: bool)
    ensures
        r == v@.contains(x),
{
    let mut i: usize = 0;
    while i < v.len()
        invariant
            i <= v@.len(),
            forall|j: int| 0 <= j < i ==> v@[j] != x,
        decreases v@.len() - i,
    {
        if v[i] == x {
            return true;
        }
        i += 1;
    }
    false
}

} // verus!
