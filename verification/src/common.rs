//! Shared building blocks: channels, event fan-out, time formatting, data paths.

pub mod channel;
pub mod eventsource;
pub mod timefmt;
pub mod clock;
pub mod url;
pub mod savedata;
pub mod http_api;
