//! Typed feature flags: rulesets, deterministic evaluation, and the decisions of the stores that
//! keep them.

pub mod bucket;
pub mod choice;
pub mod config;
pub mod d1;
pub mod decimal;
pub mod domain;
pub mod evaluation;
pub mod json;
pub mod keyed;
pub mod laws;
pub mod page;
pub mod postgres;
pub mod qualification;
pub mod ruleset;
pub mod stamp;
pub mod text;
pub mod tools;
