//! Custom maps: the search page reader, the map records, the commands of the map loader and
//! the reading of map archives.

pub mod downloader;
pub mod service;
pub mod archive;

