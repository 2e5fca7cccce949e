//! A tick-scoped event queue: a bounded slot array of tagged records, the
//! protocol by which many pushers share it, a typed facade over it, and the
//! whole-number rules of the combat system that drains it.

pub mod arena;
pub mod combat;
pub mod gear;
pub mod model;
pub mod protocol;
pub mod raw;
pub mod record;
pub mod respawn;
pub mod typed;
