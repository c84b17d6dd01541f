//! Companion library for Rocket League: rank tables, match bookkeeping,
//! presence text, buddy badges and the small parsers the companion app needs.

pub mod text;
pub mod seqs;
pub mod common;
pub mod game;
pub mod rl_stats_api;
pub mod rocket_league;
pub mod stats_api;
pub mod rl;
pub mod ranks;
pub mod matches;
pub mod discord;
pub mod map_loader;
pub mod player_info;
pub mod my_stats;
pub mod music_control;
pub mod lobby;
pub mod panels;
pub mod hotkey;
pub mod auto_setup;
