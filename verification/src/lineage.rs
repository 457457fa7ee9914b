//! Lineage tags and functional archetypes of agents.

use vstd::prelude::*;

verus! {

/// The lineage or origin of an agent: the grouping key for dominance
/// checks, including the composite tag of a merged monoculture.
#[derive(Debug)]
pub enum AILineage {
    AI,
    RogueAI,
    PeacekeeperAI,
    KillerAI,
    GuardianAI,
    ManicAI,
    HealerAI,
    ResearcherAI,
    GODAI,
    OrchestratorAI,
    MergedMonoculture(Box<AILineage>),
}

impl Clone for AILineage {
    fn clone(&self) -> (res: Self)
        ensures
            res == *self,
        decreases *self,
    {
        match self {
            AILineage::AI => AILineage::AI,
            AILineage::RogueAI => AILineage::RogueAI,
            AILineage::PeacekeeperAI => AILineage::PeacekeeperAI,
            AILineage::KillerAI => AILineage::KillerAI,
            AILineage::GuardianAI => AILineage::GuardianAI,
            AILineage::ManicAI => AILineage::ManicAI,
            AILineage::HealerAI => AILineage::HealerAI,
            AILineage::ResearcherAI => AILineage::ResearcherAI,
            AILineage::GODAI => AILineage::GODAI,
            AILineage::OrchestratorAI => AILineage::OrchestratorAI,
            AILineage::MergedMonoculture(inner) => AILineage::MergedMonoculture(
                Box::new((&**inner).clone()),
            ),
        }
    }
}

impl AILineage {
    /// Whether this is the Researcher lineage, whose monoculture takes
    /// the override path instead of combat.
    pub fn is_researcher(&self) -> (r: bool)
        ensures
            r == (*self is ResearcherAI),
    {
        match self {
            AILineage::ResearcherAI => true,
            _ => false,
        }
    }

    /// Whether two lineage tags are the same.
    pub fn same_as(&self, other: &AILineage) -> (r: bool)
        ensures
            r == (*self == *other),
        decreases *self,
    {
        match (self, other) {
            (AILineage::AI, AILineage::AI) => true,
            (AILineage::RogueAI, AILineage::RogueAI) => true,
            (AILineage::PeacekeeperAI, AILineage::PeacekeeperAI) => true,
            (AILineage::KillerAI, AILineage::KillerAI) => true,
            (AILineage::GuardianAI, AILineage::GuardianAI) => true,
            (AILineage::ManicAI, AILineage::ManicAI) => true,
            (AILineage::HealerAI, AILineage::HealerAI) => true,
            (AILineage::ResearcherAI, AILineage::ResearcherAI) => true,
            (AILineage::GODAI, AILineage::GODAI) => true,
            (AILineage::OrchestratorAI, AILineage::OrchestratorAI) => true,
            (AILineage::MergedMonoculture(a), AILineage::MergedMonoculture(b)) => {
                (&**a).same_as(&**b)
            },
            _ => false,
        }
    }

    /// The display form of the lineage tag.
    pub fn label(&self) -> (s: String)
        decreases *self,
    {
        match self {
            AILineage::AI => String::from_str("AI"),
            AILineage::RogueAI => String::from_str("RogueAI"),
            AILineage::PeacekeeperAI => String::from_str("PeacekeeperAI"),
            AILineage::KillerAI => String::from_str("KillerAI"),
            AILineage::GuardianAI => String::from_str("GuardianAI"),
            AILineage::ManicAI => String::from_str("ManicAI"),
            AILineage::HealerAI => String::from_str("HealerAI"),
            AILineage::ResearcherAI => String::from_str("ResearcherAI"),
            AILineage::GODAI => String::from_str("GODAI"),
            AILineage::OrchestratorAI => String::from_str("OrchestratorAI"),
            AILineage::MergedMonoculture(inner) => {
                let tail = (&**inner).label();
                String::from_str("MONOCULTURE-OMEGA-").concat(tail.as_str())
            },
        }
    }
}

/// The functional archetype of an agent.
#[derive(Clone, Copy, Debug, PartialEq, Eq, Structural)]
pub enum AIType {
    Base,
    Rogue,
    Peacekeeper,
    Killer,
    Guardian,
    Manic,
    Healer,
    Researcher,
}

impl AIType {
    /// The display form of the archetype.
    pub fn label(&self) -> &'static str {
        match self {
            AIType::Base => "Base",
            AIType::Rogue => "Rogue",
            AIType::Peacekeeper => "Peacekeeper",
            AIType::Killer => "Killer",
            AIType::Guardian => "Guardian",
            AIType::Manic => "Manic",
            AIType::Healer => "Healer",
            AIType::Researcher => "Researcher",
        }
    }
}

} // verus!
