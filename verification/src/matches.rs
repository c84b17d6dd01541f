//! Matches: the current lobby, the history of past matches, and what is shown about them.

pub mod apis;
pub mod match_info;
pub mod service;
pub mod widgets;
