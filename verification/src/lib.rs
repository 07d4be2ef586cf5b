//! A library for pairwise creature contests ("battles").
//!
//! The heart of the library is the battle resolution engine: a pure,
//! deterministic, total function that takes two creature stat snapshots,
//! fixes a turn order, simulates alternating attacks, and returns the
//! identifier of the winner. Around it stand the data model (creatures and
//! battle records), identifier validation, and the compute core of CSV bulk
//! import. HTTP routing and storage are left to the surrounding application.

pub mod api;
pub mod battle;
pub mod engine;
pub mod ids;
pub mod import;
pub mod monster;
