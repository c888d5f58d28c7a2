//! The store on PostgreSQL: each operation is one transaction, and its decisions are taken between
//! the transaction's statements.

pub mod evaluate;
pub mod query;
pub mod rows;
pub mod session;
pub mod work;
