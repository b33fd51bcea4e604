//! The persistence core of a personal-finance ledger: exact monetary
//! values, the stored forms of transactions, accounts and categories, a
//! store that skips rows it cannot read, and the forward-only migrations
//! that build the schema.

pub mod entities;
pub mod kinds;
pub mod ledger;
pub mod money;
pub mod schema;
pub mod transaction;
