//! Bitcoin key pairs, pay-to-public-key-hash addresses and the balance of an
//! address, computed from the unspent outputs that a block explorer reports.

pub mod address;
pub mod balance;
pub mod keys;
pub mod query;
