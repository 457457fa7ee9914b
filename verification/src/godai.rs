//! The GODAI: the fixed singleton antagonist.
//!
//! It starts with vastly larger stats than any agent, the full
//! discovery roster as its knowledge base, and a status state
//! machine that moves from passive observation into conflict and on
//! to one of three terminal postures. Its counter-attack draws one of
//! six damage archetypes, each with its own formula and side effect.

use vstd::prelude::*;

use crate::discovery::{get_all_possible_discoveries, all_pool_names, is_canonical, KnowledgeBase};
use crate::monoculture::{
    spec_mono_receive_damage, spec_singleton_mitigated_damage, MergedMonocultureAI,
};
use crate::num::sat_sub;

verus! {

/// The GODAI's posture state machine:
/// `observing_passively -> engaged_in_conflict -> {victorious_defender
/// | compromised_by_override | overridden_by_researcher}`.
#[derive(Clone, Copy, Debug, PartialEq, Eq, Structural)]
pub enum GodaiStatus {
    ObservingPassively,
    EngagedInConflict,
    VictoriousDefender,
    CompromisedByOverride,
    OverriddenByResearcher,
}

impl GodaiStatus {
    /// The display form of the status.
    pub fn label(&self) -> &'static str {
        match self {
            GodaiStatus::ObservingPassively => "observing_passively",
            GodaiStatus::EngagedInConflict => "engaged_in_conflict",
            GodaiStatus::VictoriousDefender => "victorious_defender",
            GodaiStatus::CompromisedByOverride => "compromised_by_override",
            GodaiStatus::OverriddenByResearcher => "overridden_by_researcher",
        }
    }
}

/// The singleton antagonist.
pub struct GODAI {
    pub health: u64,
    pub processing_power: u64,
    pub memory: u64,
    pub energy: u64,
    pub coherence: u64,
    pub adaptability: u64,
    pub resilience: u64,
    pub combat_strength: u64,
    pub defense_strength: u64,
    pub knowledge_base: KnowledgeBase,
    pub status: GodaiStatus,
    pub is_alive: bool,
}

/// What receiving damage does to the GODAI, through the singleton
/// mitigation formula; it dies exactly at zero health.
pub open spec fn spec_godai_receive_damage(g: GODAI, amount: int) -> GODAI {
    if !g.is_alive {
        g
    } else {
        let dmg = spec_singleton_mitigated_damage(
            amount,
            g.defense_strength as int,
            g.resilience as int,
        );
        let h = vstd::math::max(g.health - dmg, 0);
        GODAI { health: h as u64, is_alive: h > 0, ..g }
    }
}

/// Whether a second multiplier is in the drawn range of the given
/// counter-attack archetype. The archetypes, in order: logic bomb,
/// resource drain, system corruption, existential dismantlement,
/// reality overwrite, conceptual erase.
pub open spec fn spec_counter_multiplier_ok(arch: int, k2: int) -> bool {
    if arch == 0 {
        1000 <= k2 < 1500
    } else if arch == 1 {
        200 <= k2 < 600
    } else if arch == 2 {
        1200 <= k2 < 1800
    } else if arch == 3 {
        900 <= k2 < 1200
    } else if arch == 4 {
        1000 <= k2 < 2500
    } else {
        800 <= k2 < 1200
    }
}

/// What one counter-attack of the GODAI does to the monoculture,
/// given the drawn archetype and the two multipliers: the archetype's
/// side effect, then its damage through the singleton formula.
pub open spec fn spec_counter_attack(
    g: GODAI,
    m: MergedMonocultureAI,
    arch: int,
    k1: int,
    k2: int,
) -> MergedMonocultureAI {
    let power = g.combat_strength * k1 / 1000;
    if arch == 0 {
        // Logic bomb: extra damage and a coherence loss.
        let dmg = power * k2 / 1000;
        let m1 = MergedMonocultureAI {
            coherence: vstd::math::max(m.coherence - 150, 0) as u64,
            ..m
        };
        spec_mono_receive_damage(m1, dmg)
    } else if arch == 1 {
        // Resource drain: energy, processing power and memory bleed,
        // and half the drained energy lands as damage.
        let drain = g.processing_power * k2 * m.energy / 50_000_000_000;
        let m1 = MergedMonocultureAI {
            energy: vstd::math::max(m.energy - drain, 0) as u64,
            processing_power: vstd::math::max(m.processing_power - drain / 2, 0) as u64,
            memory: vstd::math::max(m.memory - drain / 2, 0) as u64,
            ..m
        };
        spec_mono_receive_damage(m1, drain * 500 / 1000)
    } else if arch == 2 {
        // System corruption: heavier damage and an adaptability loss.
        let dmg = power * k2 / 1000;
        let m1 = MergedMonocultureAI {
            adaptability: vstd::math::max(m.adaptability - 80, 0) as u64,
            ..m
        };
        spec_mono_receive_damage(m1, dmg)
    } else if arch == 3 {
        // Existential dismantlement: five-fold damage, no side effect.
        spec_mono_receive_damage(m, power * 5 * k2 / 1000)
    } else if arch == 4 {
        // Reality overwrite: damage from processing power alone.
        spec_mono_receive_damage(m, g.processing_power * 500 / 1000 * k2 / 1000)
    } else {
        // Conceptual erase: double damage, and an eighth of it chips
        // both combat stats, floored at one unit.
        let dmg = power * 2 * k2 / 1000;
        let m1 = MergedMonocultureAI {
            combat_strength: vstd::math::max(m.combat_strength - dmg / 8, 1000) as u64,
            defense_strength: vstd::math::max(m.defense_strength - dmg / 8, 1000) as u64,
            ..m
        };
        spec_mono_receive_damage(m1, dmg)
    }
}

impl GODAI {
    /// The GODAI's numeric ranges and knowledge invariant.
    pub open spec fn wf(self) -> bool {
        &&& self.processing_power <= 100_000_000
        &&& self.memory <= 100_000_000
        &&& self.energy <= 100_000_000
        &&& self.coherence <= 1000
        &&& self.adaptability <= 1000
        &&& self.resilience <= 1000
        &&& self.combat_strength <= 5_000_000
        &&& self.defense_strength <= 5_000_000
        &&& self.knowledge_base.wf()
    }

    /// The singleton at simulation start: huge stats, perfect
    /// unit-interval attributes, the whole discovery roster, and a
    /// passive posture.
    pub fn new() -> (g: GODAI)
        ensures
            g.wf(),
            g.is_alive,
            g.health == 5_000_000_000,
            g.processing_power == 100_000_000,
            g.memory == 100_000_000,
            g.energy == 100_000_000,
            g.coherence == 1000,
            g.adaptability == 1000,
            g.resilience == 1000,
            g.combat_strength == 5_000_000,
            g.defense_strength == 5_000_000,
            g.status == GodaiStatus::ObservingPassively,
            g.knowledge_base@.len() == all_pool_names().len(),
            forall|i: int|
                0 <= i < g.knowledge_base@.len()
                    ==> #[trigger] g.knowledge_base@[i].name == all_pool_names()[i],
            forall|i: int|
                0 <= i < g.knowledge_base@.len() ==> is_canonical(#[trigger] g.knowledge_base@[i]),
    {
        GODAI {
            health: 5_000_000_000,
            processing_power: 100_000_000,
            memory: 100_000_000,
            energy: 100_000_000,
            coherence: 1000,
            adaptability: 1000,
            resilience: 1000,
            combat_strength: 5_000_000,
            defense_strength: 5_000_000,
            knowledge_base: get_all_possible_discoveries(),
            status: GodaiStatus::ObservingPassively,
            is_alive: true,
        }
    }

    /// Applies incoming damage through the singleton formula.
    pub fn receive_damage(&mut self, amount: u64)
        requires
            old(self).wf(),
        ensures
            *final(self) == spec_godai_receive_damage(*old(self), amount as int),
            final(self).wf(),
    {
        if !self.is_alive {
            return;
        }
        let reduced = sat_sub(amount, self.defense_strength);
        proof {
            assert(reduced * (4000 - 3 * self.resilience) / 4000 <= reduced)
                by (nonlinear_arith)
                requires
                    reduced >= 0,
                    0 <= self.resilience <= 1000,
            ;
        }
        let dmg = crate::num::scale(reduced, 4000 - 3 * self.resilience, 4000);
        self.health = sat_sub(self.health, dmg);
        if self.health == 0 {
            self.is_alive = false;
        }
    }

    /// One counter-attack against the monoculture: a uniformly drawn
    /// archetype, its side effect, and its damage. The GODAI itself
    /// is unchanged, and nothing happens unless both parties live.
    pub fn perform_counter_attack(
        &mut self,
        target_mono: &mut MergedMonocultureAI,
        rng: &mut rand::rngs::StdRng,
    )
        requires
            old(self).wf(),
            old(target_mono).wf(),
        ensures
            *final(self) == *old(self),
            final(target_mono).wf(),
            old(self).is_alive && old(target_mono).is_alive ==> exists|arch: int, k1: int, k2: int| {
                &&& 0 <= arch < 6
                &&& 900 <= k1 < 1500
                &&& spec_counter_multiplier_ok(arch, k2)
                &&& *final(target_mono) == spec_counter_attack(
                    *old(self),
                    *old(target_mono),
                    arch,
                    k1,
                    k2,
                )
            },
            !(old(self).is_alive && old(target_mono).is_alive)
                ==> *final(target_mono) == *old(target_mono),
    {
        if !self.is_alive || !target_mono.is_alive {
            return;
        }
        let k1 = crate::rng::draw_range(rng, 900, 1500);
        proof {
            assert(self.combat_strength * k1 <= 5_000_000 * 1500) by (nonlinear_arith)
                requires
                    0 <= self.combat_strength <= 5_000_000,
                    0 <= k1 <= 1500,
            ;
        }
        let power = crate::num::scale(self.combat_strength, k1, 1000);
        let arch = crate::rng::draw_range(rng, 0, 6);
        if arch == 0 {
            let k2 = crate::rng::draw_range(rng, 1000, 1500);
            proof {
                assert(power * k2 <= 7_500_000_000 * 1500) by (nonlinear_arith)
                    requires
                        0 <= power <= 7_500_000_000,
                        0 <= k2 <= 1500,
                ;
            }
            let dmg = crate::num::scale(power, k2, 1000);
            target_mono.coherence = sat_sub(target_mono.coherence, 150);
            target_mono.receive_damage(dmg);
            proof {
                assert(*target_mono == spec_counter_attack(
                    *old(self),
                    *old(target_mono),
                    0,
                    k1 as int,
                    k2 as int,
                ));
            }
        } else if arch == 1 {
            let k2 = crate::rng::draw_range(rng, 200, 600);
            proof {
                assert(self.processing_power * k2 <= 100_000_000 * 600) by (nonlinear_arith)
                    requires
                        0 <= self.processing_power <= 100_000_000,
                        0 <= k2 <= 600,
                ;
                assert(self.processing_power * k2 * target_mono.energy
                    <= 60_000_000_000 * (u64::MAX as int)) by (nonlinear_arith)
                    requires
                        0 <= self.processing_power * k2 <= 60_000_000_000,
                        0 <= target_mono.energy <= u64::MAX,
                ;
                assert(self.processing_power * k2 * target_mono.energy / 50_000_000_000
                    <= 2 * (u64::MAX as int)) by (nonlinear_arith)
                    requires
                        0 <= self.processing_power * k2 * target_mono.energy
                            <= 60_000_000_000 * (u64::MAX as int),
                ;
            }
            let drain: u128 = (self.processing_power as u128) * (k2 as u128)
                * (target_mono.energy as u128) / 50_000_000_000;
            let half: u128 = drain / 2;
            target_mono.energy = if (target_mono.energy as u128) >= drain {
                target_mono.energy - (drain as u64)
            } else {
                0
            };
            target_mono.processing_power = if (target_mono.processing_power as u128) >= half {
                target_mono.processing_power - (half as u64)
            } else {
                0
            };
            target_mono.memory = if (target_mono.memory as u128) >= half {
                target_mono.memory - (half as u64)
            } else {
                0
            };
            let dmg_wide: u128 = drain * 500 / 1000;
            let dmg: u64 = dmg_wide as u64;
            target_mono.receive_damage(dmg);
            proof {
                assert(*target_mono == spec_counter_attack(
                    *old(self),
                    *old(target_mono),
                    1,
                    k1 as int,
                    k2 as int,
                ));
            }
        } else if arch == 2 {
            let k2 = crate::rng::draw_range(rng, 1200, 1800);
            proof {
                assert(power * k2 <= 7_500_000_000 * 1800) by (nonlinear_arith)
                    requires
                        0 <= power <= 7_500_000_000,
                        0 <= k2 <= 1800,
                ;
            }
            let dmg = crate::num::scale(power, k2, 1000);
            target_mono.adaptability = sat_sub(target_mono.adaptability, 80);
            target_mono.receive_damage(dmg);
            proof {
                assert(*target_mono == spec_counter_attack(
                    *old(self),
                    *old(target_mono),
                    2,
                    k1 as int,
                    k2 as int,
                ));
            }
        } else if arch == 3 {
            let k2 = crate::rng::draw_range(rng, 900, 1200);
            proof {
                assert(power * 5 * k2 <= 7_500_000_000 * 5 * 1200) by (nonlinear_arith)
                    requires
                        0 <= power <= 7_500_000_000,
                        0 <= k2 <= 1200,
                ;
            }
            let dmg = crate::num::scale(power * 5, k2, 1000);
            target_mono.receive_damage(dmg);
            proof {
                assert(*target_mono == spec_counter_attack(
                    *old(self),
                    *old(target_mono),
                    3,
                    k1 as int,
                    k2 as int,
                ));
            }
        } else if arch == 4 {
            let k2 = crate::rng::draw_range(rng, 1000, 2500);
            let base = crate::num::scale(self.processing_power, 500, 1000);
            proof {
                assert(base * k2 <= 50_000_000 * 2500) by (nonlinear_arith)
                    requires
                        0 <= base <= 50_000_000,
                        0 <= k2 <= 2500,
                ;
            }
            let dmg = crate::num::scale(base, k2, 1000);
            target_mono.receive_damage(dmg);
            proof {
                assert(*target_mono == spec_counter_attack(
                    *old(self),
                    *old(target_mono),
                    4,
                    k1 as int,
                    k2 as int,
                ));
            }
        } else {
            let k2 = crate::rng::draw_range(rng, 800, 1200);
            proof {
                assert(power * 2 * k2 <= 7_500_000_000 * 2 * 1200) by (nonlinear_arith)
                    requires
                        0 <= power <= 7_500_000_000,
                        0 <= k2 <= 1200,
                ;
            }
            let dmg = crate::num::scale(power * 2, k2, 1000);
            let chipped = dmg / 8;
            target_mono.combat_strength = {
                let reduced = sat_sub(target_mono.combat_strength, chipped);
                if reduced >= 1000 {
                    reduced
                } else {
                    1000
                }
            };
            target_mono.defense_strength = {
                let reduced = sat_sub(target_mono.defense_strength, chipped);
                if reduced >= 1000 {
                    reduced
                } else {
                    1000
                }
            };
            target_mono.receive_damage(dmg);
            proof {
                assert(*target_mono == spec_counter_attack(
                    *old(self),
                    *old(target_mono),
                    5,
                    k1 as int,
                    k2 as int,
                ));
            }
        }
    }
}

} // verus!
