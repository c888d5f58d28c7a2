//! The qualification of the store on D1 in its host: the application that is composed for it, and
//! what it is put through.

pub mod composition;
pub mod exercise;
pub mod order;
