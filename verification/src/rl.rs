//! Match state and rank lookups as the rank service reports them.

pub mod match_state;
pub mod skills;
