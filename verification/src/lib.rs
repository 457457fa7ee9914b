//! Simulation engine for a population of autonomous numeric agents.
//!
//! Agents consume resources, reproduce with mutation, fight, heal and
//! accumulate knowledge; a dominant lineage can merge into a single
//! "monoculture" entity that challenges the fixed antagonist GODAI.
//!
//! Every attribute is a fixed-point number held in thousandths
//! (milli-units): the value `1500` stands for `1.5`. This keeps all of
//! the engine's arithmetic in integers, where each formula is stated
//! and proved exactly.

pub mod agent;
pub mod attrs;
pub mod combat;
pub mod directives;
pub mod discovery;
pub mod godai;
pub mod lineage;
pub mod monoculture;
pub mod num;
pub mod rng;
pub mod sim;
