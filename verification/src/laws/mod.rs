//! What the operations are for, told by their inputs and their results.

pub mod batches;
pub mod buckets;
pub mod calls;
pub mod configuration;
pub mod configuration_calls;
pub mod d1_calls;
pub mod d1_statements;
pub mod evaluation;
pub mod json;
pub mod models;
pub mod postgres_calls;
pub mod postgres_statements;
pub mod qualification;
pub mod qualification_calls;
pub mod receipts;
pub mod rules;
pub mod rulesets;
pub mod snapshots;
pub mod texts;
pub mod tool_calls;
pub mod tools;
pub mod transactions;
pub mod values;
pub mod writes;
