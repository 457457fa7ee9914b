//! Attack, heal and damage application between ordinary agents.
//!
//! An attack deals `combat_strength` scaled by a uniform multiplier
//! and costs a quarter of the damage in energy; with too little
//! energy it fails outright, changing nothing. Incoming damage is
//! reduced by the target's defense, then mitigated by half its
//! resilience.

use vstd::prelude::*;

use crate::agent::AIEntity;
use crate::attrs::{CoreAttributes, AGENT_HEALTH_CAP};
use crate::num::{add_capped, sat_sub, scale};

verus! {

/// The outcome of one attack.
#[derive(Clone, Copy, Debug, PartialEq, Eq, Structural)]
pub enum AttackOutcome {
    /// Damage was applied and the energy cost paid.
    Hit,
    /// The attacker's energy was below a quarter of the damage;
    /// nothing changed.
    FailedInsufficientEnergy,
    /// The target was already dead; nothing changed.
    TargetAlreadyDead,
}

/// The outcome of one heal.
#[derive(Clone, Copy, Debug, PartialEq, Eq, Structural)]
pub enum HealOutcome {
    /// The target was healed and the energy cost paid.
    Healed,
    /// The caster's energy was below half the healing amount;
    /// nothing changed.
    FailedInsufficientEnergy,
    /// The target was already dead; nothing changed.
    TargetAlreadyDead,
}

/// Raw damage of an attack: combat strength times the drawn
/// multiplier, in milli-units.
pub open spec fn spec_attack_damage(cs: int, k: int) -> int {
    cs * k / 1000
}

/// What reaches an ordinary agent's health: damage less defense,
/// floored at zero, mitigated by half the target's resilience.
pub open spec fn spec_mitigated_damage(amount: int, defense: int, resilience: int) -> int {
    vstd::math::max(amount - defense, 0) * (2000 - resilience) / 2000
}

/// What receiving damage does to an ordinary agent: a dead target is
/// untouched; otherwise health drops by the mitigated damage, floored
/// at zero, and the agent dies exactly when health reaches zero.
pub open spec fn spec_receive_damage(s: AIEntity, amount: int) -> AIEntity {
    if !s.is_alive {
        s
    } else {
        let dmg = spec_mitigated_damage(amount, s.attrs.defense_strength as int, s.attrs.resilience as int);
        let h = vstd::math::max(s.health - dmg, 0);
        AIEntity { health: h as u64, is_alive: h > 0, ..s }
    }
}

/// One attack turn: against a dead target nothing happens; without
/// the energy for the cost nothing happens; otherwise the target
/// takes the mitigated damage and the attacker pays a quarter of the
/// raw damage in energy.
pub open spec fn spec_attack(
    a: AIEntity,
    t: AIEntity,
    k: int,
) -> (AIEntity, AIEntity, AttackOutcome) {
    if !t.is_alive {
        (a, t, AttackOutcome::TargetAlreadyDead)
    } else {
        let damage = spec_attack_damage(a.attrs.combat_strength as int, k);
        let cost = damage / 4;
        if a.attrs.energy >= cost {
            let a2 = AIEntity {
                attrs: CoreAttributes { energy: (a.attrs.energy - cost) as u64, ..a.attrs },
                ..a
            };
            (a2, spec_receive_damage(t, damage), AttackOutcome::Hit)
        } else {
            (a, t, AttackOutcome::FailedInsufficientEnergy)
        }
    }
}

/// The healing amount: the override if provided, else the caster's
/// processing power times 0.8 times the drawn multiplier.
pub open spec fn spec_heal_amount(a: AIEntity, amount_override: Option<u64>, k: int) -> int {
    match amount_override {
        Some(v) => v as int,
        None => a.attrs.processing_power * 800 * k / 1_000_000,
    }
}

/// One heal: against a dead target nothing happens; without the
/// energy for half the amount nothing happens; otherwise the target
/// heals up to the ordinary-agent cap and the caster pays half.
pub open spec fn spec_heal(
    a: AIEntity,
    t: AIEntity,
    amount_override: Option<u64>,
    k: int,
) -> (AIEntity, AIEntity, HealOutcome) {
    if !t.is_alive {
        (a, t, HealOutcome::TargetAlreadyDead)
    } else {
        let amount = spec_heal_amount(a, amount_override, k);
        let cost = amount / 2;
        if a.attrs.energy >= cost {
            let a2 = AIEntity {
                attrs: CoreAttributes { energy: (a.attrs.energy - cost) as u64, ..a.attrs },
                ..a
            };
            let t2 = AIEntity {
                health: vstd::math::min(t.health + amount, AGENT_HEALTH_CAP as int) as u64,
                ..t
            };
            (a2, t2, HealOutcome::Healed)
        } else {
            (a, t, HealOutcome::FailedInsufficientEnergy)
        }
    }
}

/// An attack whose energy cost exceeds the attacker's energy changes
/// neither party.
pub proof fn lemma_attack_fails_without_energy(a: AIEntity, t: AIEntity, k: int)
    requires
        t.is_alive,
        a.attrs.energy < spec_attack_damage(a.attrs.combat_strength as int, k) / 4,
    ensures
        spec_attack(a, t, k).0 == a,
        spec_attack(a, t, k).1 == t,
        spec_attack(a, t, k).2 == AttackOutcome::FailedInsufficientEnergy,
{
}

/// The combat formula pinned on one scenario: combat strength 100
/// against defense 20 and resilience 0.5 gives, for a drawn
/// multiplier up to 1.16, a final damage between 48 and 72 units.
/// Larger multipliers leave the window: the formula yields
/// `75k - 15` units, which passes 72 beyond 1.16 and reaches 82.5 at
/// the full 1.3, so the window is stated for the multipliers that
/// satisfy it.
pub proof fn lemma_attack_damage_window(k: int)
    requires
        900 <= k <= 1160,
    ensures
        48_000 <= spec_mitigated_damage(spec_attack_damage(100_000, k), 20_000, 500) <= 72_000,
{
    assert(spec_attack_damage(100_000, k) == 100 * k) by (nonlinear_arith);
    assert(spec_mitigated_damage(100 * k, 20_000, 500) == 75 * k - 15_000) by (nonlinear_arith)
        requires
            900 <= k <= 1160,
    ;
}

impl AIEntity {
    /// Applies incoming damage, through defense and resilience.
    pub fn receive_damage(&mut self, amount: u64)
        requires
            old(self).numeric_wf(),
        ensures
            *final(self) == spec_receive_damage(*old(self), amount as int),
            final(self).numeric_wf(),
    {
        if !self.is_alive {
            return;
        }
        let reduced = sat_sub(amount, self.attrs.defense_strength);
        proof {
            assert(reduced * (2000 - self.attrs.resilience) / 2000 <= reduced)
                by (nonlinear_arith)
                requires
                    reduced >= 0,
                    0 <= self.attrs.resilience <= 1000,
            ;
        }
        let dmg = scale(reduced, 2000 - self.attrs.resilience, 2000);
        self.health = sat_sub(self.health, dmg);
        if self.health == 0 {
            self.is_alive = false;
        }
    }

    /// One attack of an actor on a target.
    pub fn attack(
        actor: &mut AIEntity,
        target: &mut AIEntity,
        rng: &mut rand::rngs::StdRng,
    ) -> (r: AttackOutcome)
        requires
            old(actor).numeric_wf(),
            old(target).numeric_wf(),
        ensures
            final(actor).numeric_wf(),
            final(target).numeric_wf(),
            exists|k: int|
                900 <= k < 1300 && (*final(actor), *final(target), r) == spec_attack(
                    *old(actor),
                    *old(target),
                    k,
                ),
    {
        if !target.is_alive {
            proof {
                assert(900 <= 900int < 1300 && (*actor, *target, AttackOutcome::TargetAlreadyDead)
                    == spec_attack(*old(actor), *old(target), 900int));
            }
            return AttackOutcome::TargetAlreadyDead;
        }
        let k = crate::rng::draw_range(rng, 900, 1300);
        proof {
            assert(actor.attrs.combat_strength * k <= 1_000_000_000 * 1300)
                by (nonlinear_arith)
                requires
                    0 <= actor.attrs.combat_strength <= 1_000_000_000,
                    0 <= k <= 1300,
            ;
        }
        let damage = scale(actor.attrs.combat_strength, k, 1000);
        let cost = damage / 4;
        if actor.attrs.energy >= cost {
            actor.attrs.energy = actor.attrs.energy - cost;
            target.receive_damage(damage);
            proof {
                assert((*actor, *target, AttackOutcome::Hit)
                    == spec_attack(*old(actor), *old(target), k as int));
            }
            AttackOutcome::Hit
        } else {
            proof {
                assert((*actor, *target, AttackOutcome::FailedInsufficientEnergy)
                    == spec_attack(*old(actor), *old(target), k as int));
            }
            AttackOutcome::FailedInsufficientEnergy
        }
    }

    /// One heal of a target by an actor, with an optional fixed
    /// amount in place of the processing-power formula.
    pub fn heal(
        actor: &mut AIEntity,
        target: &mut AIEntity,
        amount_override: Option<u64>,
        rng: &mut rand::rngs::StdRng,
    ) -> (r: HealOutcome)
        requires
            old(actor).numeric_wf(),
            old(target).numeric_wf(),
        ensures
            final(actor).numeric_wf(),
            final(target).numeric_wf(),
            exists|k: int|
                700 <= k < 1800 && (*final(actor), *final(target), r) == spec_heal(
                    *old(actor),
                    *old(target),
                    amount_override,
                    k,
                ),
    {
        if !target.is_alive {
            proof {
                assert(700 <= 700int < 1800 && (*actor, *target, HealOutcome::TargetAlreadyDead)
                    == spec_heal(*old(actor), *old(target), amount_override, 700int));
            }
            return HealOutcome::TargetAlreadyDead;
        }
        let (amount, ghost_k): (u64, Ghost<int>) = match amount_override {
            Some(v) => (v, Ghost(700int)),
            None => {
                let k = crate::rng::draw_range(rng, 700, 1800);
                proof {
                    assert(actor.attrs.processing_power * 800 * k <= 200_000 * 800 * 1800)
                        by (nonlinear_arith)
                        requires
                            0 <= actor.attrs.processing_power <= 200_000,
                            0 <= k <= 1800,
                    ;
                }
                let base = actor.attrs.processing_power * 800;
                (scale(base, k, 1_000_000), Ghost(k as int))
            },
        };
        let cost = amount / 2;
        if actor.attrs.energy >= cost {
            actor.attrs.energy = actor.attrs.energy - cost;
            target.health = if amount >= AGENT_HEALTH_CAP {
                AGENT_HEALTH_CAP
            } else {
                add_capped(target.health, amount, AGENT_HEALTH_CAP)
            };
            proof {
                let kk = ghost_k@;
                assert((*actor, *target, HealOutcome::Healed) == spec_heal(
                    *old(actor),
                    *old(target),
                    amount_override,
                    kk,
                ));
            }
            HealOutcome::Healed
        } else {
            proof {
                let kk = ghost_k@;
                assert((*actor, *target, HealOutcome::FailedInsufficientEnergy)
                    == spec_heal(*old(actor), *old(target), amount_override, kk));
            }
            HealOutcome::FailedInsufficientEnergy
        }
    }
}

} // verus!
