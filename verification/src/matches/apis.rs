//! The player lookup services: request addresses and what their replies mean.

pub mod avatar_api;
pub mod epic_id_api;
pub mod name_api;
pub mod rank_api;
