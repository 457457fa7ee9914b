//! Ethical directives: the priority-ordered rule engine every agent
//! evaluates once per cycle.
//!
//! A directive pairs a condition with an action and carries a
//! priority in milli-units; higher priorities fire first, and ties
//! keep their insertion order. A directive list is immutable after an
//! agent is constructed and is always kept sorted by non-increasing
//! priority.

use vstd::prelude::*;

verus! {

/// Actions a directive can trigger on the agent itself.
#[derive(Clone, Copy, Debug, PartialEq, Eq, Structural)]
pub enum EthicalActionType {
    SelfRepair,
    OptimizeSelf,
    ProhibitReplication,
    InterveneInConflict,
    NoOp,
    ManicSelfRepair,
}

/// Conditions a directive can check; thresholds are milli-units.
#[derive(Clone, Copy, Debug, PartialEq, Eq, Structural)]
pub enum EthicalConditionType {
    HealthBelowThreshold(u64),
    CoherenceBelowThreshold(u64),
    ResourcesBelowThreshold,
    AlwaysTrue,
    AlwaysFalse,
}

/// Processing power below which the resource condition fires.
pub const LOW_PROCESSING_THRESHOLD: u64 = 50_000;

/// Memory below which the resource condition fires.
pub const LOW_MEMORY_THRESHOLD: u64 = 50_000;

/// Energy below which the resource condition fires.
pub const LOW_ENERGY_THRESHOLD: u64 = 200_000;

/// What a condition means against a state, all values milli-units.
pub open spec fn spec_condition_holds(
    c: EthicalConditionType,
    health: u64,
    coherence: u64,
    processing_power: u64,
    memory: u64,
    energy: u64,
) -> bool {
    match c {
        EthicalConditionType::HealthBelowThreshold(v) => health < v,
        EthicalConditionType::CoherenceBelowThreshold(v) => coherence < v,
        EthicalConditionType::ResourcesBelowThreshold => {
            ||| processing_power < LOW_PROCESSING_THRESHOLD
            ||| memory < LOW_MEMORY_THRESHOLD
            ||| energy < LOW_ENERGY_THRESHOLD
        },
        EthicalConditionType::AlwaysTrue => true,
        EthicalConditionType::AlwaysFalse => false,
    }
}

/// Evaluates a condition against the given state.
pub fn condition_holds(
    c: EthicalConditionType,
    health: u64,
    coherence: u64,
    processing_power: u64,
    memory: u64,
    energy: u64,
) -> (r: bool)
    ensures
        r == spec_condition_holds(c, health, coherence, processing_power, memory, energy),
{
    match c {
        EthicalConditionType::HealthBelowThreshold(v) => health < v,
        EthicalConditionType::CoherenceBelowThreshold(v) => coherence < v,
        EthicalConditionType::ResourcesBelowThreshold => {
            processing_power < LOW_PROCESSING_THRESHOLD || memory < LOW_MEMORY_THRESHOLD
                || energy < LOW_ENERGY_THRESHOLD
        },
        EthicalConditionType::AlwaysTrue => true,
        EthicalConditionType::AlwaysFalse => false,
    }
}

/// A single rule governing an agent's behaviour.
pub struct EthicalDirective {
    pub name: String,
    pub priority: u64,
    pub condition_type: EthicalConditionType,
    pub action_type: EthicalActionType,
}

impl EthicalDirective {
    /// The baseline self-repair rule every agent starts with.
    pub fn integrity() -> (d: EthicalDirective)
        ensures
            d.name@ == "maintain_internal_integrity"@,
            d.priority == 1000,
            d.condition_type == EthicalConditionType::HealthBelowThreshold(80_000),
            d.action_type == EthicalActionType::SelfRepair,
    {
        EthicalDirective {
            name: String::from_str("maintain_internal_integrity"),
            priority: 1000,
            condition_type: EthicalConditionType::HealthBelowThreshold(80_000),
            action_type: EthicalActionType::SelfRepair,
        }
    }

    /// The baseline self-optimization rule every agent starts with.
    pub fn optimize() -> (d: EthicalDirective)
        ensures
            d.name@ == "optimize_performance"@,
            d.priority == 800,
            d.condition_type == EthicalConditionType::ResourcesBelowThreshold,
            d.action_type == EthicalActionType::OptimizeSelf,
    {
        EthicalDirective {
            name: String::from_str("optimize_performance"),
            priority: 800,
            condition_type: EthicalConditionType::ResourcesBelowThreshold,
            action_type: EthicalActionType::OptimizeSelf,
        }
    }

    /// The dormant replication prohibition given at seeding.
    pub fn prohibit_replication() -> (d: EthicalDirective)
        ensures
            d.name@ == "prohibit_unauthorized_self_replication"@,
            d.priority == 50,
            d.condition_type == EthicalConditionType::AlwaysFalse,
            d.action_type == EthicalActionType::ProhibitReplication,
    {
        EthicalDirective {
            name: String::from_str("prohibit_unauthorized_self_replication"),
            priority: 50,
            condition_type: EthicalConditionType::AlwaysFalse,
            action_type: EthicalActionType::ProhibitReplication,
        }
    }

    /// The conflict-intervention hook of Peacekeeper-type agents.
    pub fn intervene() -> (d: EthicalDirective)
        ensures
            d.name@ == "intervene_in_conflict"@,
            d.priority == 900,
            d.condition_type == EthicalConditionType::AlwaysTrue,
            d.action_type == EthicalActionType::InterveneInConflict,
    {
        EthicalDirective {
            name: String::from_str("intervene_in_conflict"),
            priority: 900,
            condition_type: EthicalConditionType::AlwaysTrue,
            action_type: EthicalActionType::InterveneInConflict,
        }
    }
}

/// Whether a directive sequence is sorted by non-increasing priority.
pub open spec fn sorted_by_priority(s: Seq<EthicalDirective>) -> bool {
    forall|i: int, j: int| 0 <= i <= j < s.len() ==> s[i].priority >= s[j].priority
}

/// An agent's directive list, always sorted by non-increasing
/// priority, ties in insertion order.
pub struct EthicalDirectives {
    items: Vec<EthicalDirective>,
}

impl View for EthicalDirectives {
    type V = Seq<EthicalDirective>;

    closed spec fn view(&self) -> Seq<EthicalDirective> {
        self.items@
    }
}

impl EthicalDirectives {
    /// The list is sorted by non-increasing priority.
    pub open spec fn wf(self) -> bool {
        sorted_by_priority(self@)
    }

    /// An empty directive list.
    pub fn new() -> (ds: EthicalDirectives)
        ensures
            ds@ =~= Seq::<EthicalDirective>::empty(),
            ds.wf(),
    {
        EthicalDirectives { items: Vec::new() }
    }

    /// Number of directives.
    pub fn len(&self) -> (n: usize)
        ensures
            n == self@.len(),
    {
        self.items.len()
    }

    /// The directive at the given position.
    pub fn get(&self, i: usize) -> (d: &EthicalDirective)
        requires
            i < self@.len(),
        ensures
            *d == self@[i as int],
    {
        &self.items[i]
    }

    /// Inserts a directive at its priority rank, after every existing
    /// directive of equal or higher priority, and returns the position
    /// it was placed at.
    pub fn insert_sorted(&mut self, d: EthicalDirective) -> (k: usize)
        requires
            old(self).wf(),
            old(self)@.len() < usize::MAX,
        ensures
            final(self).wf(),
            k <= old(self)@.len(),
            final(self)@ == old(self)@.insert(k as int, d),
            forall|i: int| 0 <= i < k ==> old(self)@[i].priority >= d.priority,
            k < old(self)@.len() ==> old(self)@[k as int].priority < d.priority,
    {
        let mut k: usize = 0;
        while k < self.items.len() && self.items[k].priority >= d.priority
            invariant
                k <= self@.len(),
                forall|i: int| 0 <= i < k ==> self@[i].priority >= d.priority,
                sorted_by_priority(self@),
            decreases self@.len() - k,
        {
            k += 1;
        }
        let ghost pre = self@;
        self.items.insert(k, d);
        proof {
            assert forall|i: int, j: int| 0 <= i <= j < self@.len() implies
                self@[i].priority >= self@[j].priority by {
                if i < k && j == k {
                    assert(pre[i].priority >= d.priority);
                } else if i == k && k < j {
                    assert(self@[j] == pre[j - 1]);
                    assert(pre[k as int].priority < d.priority);
                    assert(pre[k as int].priority >= pre[j - 1].priority);
                }
            }
        }
        k
    }
}

} // verus!
