//! Game rules of a location-based zombie game server: player and zombie
//! engagements, duel resolution, health and experience bookkeeping, spawn
//! numbering and the parsing of client updates.

mod chance;
pub mod consts;
pub mod database;
pub mod duel;
pub mod update;
pub mod nearby;
pub mod clock;
pub mod world;
