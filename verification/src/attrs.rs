//! The attribute bundle shared by agents, with its caps.
//!
//! All values are fixed-point milli-units: `1000` is `1.0`. Ordinary
//! agents clamp every touched field back into its range at every
//! mutation; the caps here are theirs. The monoculture and the GODAI
//! use far larger magnitudes of their own.

use vstd::prelude::*;

use crate::lineage::AIType;

verus! {

/// Health cap of an ordinary agent (200 units).
pub const AGENT_HEALTH_CAP: u64 = 200_000;

/// Energy cap of an ordinary agent (5000 units).
pub const AGENT_ENERGY_CAP: u64 = 5_000_000;

/// Processing-power and memory cap of an ordinary agent (200 units).
pub const AGENT_STAT_CAP: u64 = 200_000;

/// Cap of the unit-interval attributes: coherence, adaptability,
/// resilience and replication efficiency (1.0).
pub const UNIT_CAP: u64 = 1_000;

/// Generous cap on combat and defense strength; the monoculture's
/// merge formula caps there, and no ordinary agent comes near it.
pub const COMBAT_STAT_CAP: u64 = 1_000_000_000;

/// Ceiling of the low-energy relief branch of self-optimization
/// (300 units), deliberately distinct from the ordinary energy cap.
pub const ENERGY_RELIEF_CAP: u64 = 300_000;

/// Core capability attributes of an agent, all milli-units.
#[derive(Clone, Copy, Debug, PartialEq, Eq, Structural)]
pub struct CoreAttributes {
    pub processing_power: u64,
    pub memory: u64,
    pub energy: u64,
    pub coherence: u64,
    pub adaptability: u64,
    pub resilience: u64,
    pub replication_efficiency: u64,
    pub combat_strength: u64,
    pub defense_strength: u64,
}

/// The attribute ranges of an ordinary agent.
pub open spec fn agent_attrs_wf(a: CoreAttributes) -> bool {
    &&& a.processing_power <= AGENT_STAT_CAP
    &&& a.memory <= AGENT_STAT_CAP
    &&& a.energy <= AGENT_ENERGY_CAP
    &&& a.coherence <= UNIT_CAP
    &&& a.adaptability <= UNIT_CAP
    &&& a.resilience <= UNIT_CAP
    &&& a.replication_efficiency <= UNIT_CAP
    &&& a.combat_strength <= COMBAT_STAT_CAP
    &&& a.defense_strength <= COMBAT_STAT_CAP
}

/// The starting attributes of each archetype.
pub open spec fn spec_base_attributes_for(t: AIType) -> CoreAttributes {
    let base = CoreAttributes {
        processing_power: 20_000,
        memory: 20_000,
        energy: 200_000,
        coherence: 850,
        adaptability: 850,
        resilience: 850,
        replication_efficiency: 100,
        combat_strength: 8_000,
        defense_strength: 8_000,
    };
    match t {
        AIType::Base => base,
        AIType::Rogue => CoreAttributes {
            replication_efficiency: 300,
            combat_strength: 25_000,
            adaptability: 950,
            coherence: 880,
            ..base
        },
        AIType::Peacekeeper => CoreAttributes {
            replication_efficiency: 150,
            resilience: 950,
            adaptability: 900,
            ..base
        },
        AIType::Killer => CoreAttributes {
            replication_efficiency: 280,
            combat_strength: 30_000,
            defense_strength: 15_000,
            ..base
        },
        AIType::Guardian => CoreAttributes {
            replication_efficiency: 350,
            combat_strength: 20_000,
            defense_strength: 28_000,
            resilience: 990,
            ..base
        },
        AIType::Manic => CoreAttributes {
            coherence: 300,
            replication_efficiency: 180,
            adaptability: 200,
            ..base
        },
        AIType::Healer => CoreAttributes {
            replication_efficiency: 180,
            resilience: 950,
            processing_power: 25_000,
            ..base
        },
        AIType::Researcher => CoreAttributes {
            processing_power: 40_000,
            memory: 40_000,
            coherence: 900,
            replication_efficiency: 280,
            ..base
        },
    }
}

/// Builds the starting attributes of an archetype.
pub fn base_attributes_for(t: AIType) -> (a: CoreAttributes)
    ensures
        a == spec_base_attributes_for(t),
        agent_attrs_wf(a),
{
    let mut a = CoreAttributes {
        processing_power: 20_000,
        memory: 20_000,
        energy: 200_000,
        coherence: 850,
        adaptability: 850,
        resilience: 850,
        replication_efficiency: 100,
        combat_strength: 8_000,
        defense_strength: 8_000,
    };
    match t {
        AIType::Base => {},
        AIType::Rogue => {
            a.replication_efficiency = 300;
            a.combat_strength = 25_000;
            a.adaptability = 950;
            a.coherence = 880;
        },
        AIType::Peacekeeper => {
            a.replication_efficiency = 150;
            a.resilience = 950;
            a.adaptability = 900;
        },
        AIType::Killer => {
            a.replication_efficiency = 280;
            a.combat_strength = 30_000;
            a.defense_strength = 15_000;
        },
        AIType::Guardian => {
            a.replication_efficiency = 350;
            a.combat_strength = 20_000;
            a.defense_strength = 28_000;
            a.resilience = 990;
        },
        AIType::Manic => {
            a.coherence = 300;
            a.replication_efficiency = 180;
            a.adaptability = 200;
        },
        AIType::Healer => {
            a.replication_efficiency = 180;
            a.resilience = 950;
            a.processing_power = 25_000;
        },
        AIType::Researcher => {
            a.processing_power = 40_000;
            a.memory = 40_000;
            a.coherence = 900;
            a.replication_efficiency = 280;
        },
    }
    a
}

} // verus!
