//! Player profiles on the tracker site: the reply's records, lookup keys and addresses.

pub mod trn;
pub mod service;
