//! The engine of a text-search channel for an interactive fuzzy finder.
//!
//! Lines of text files are discovered under fixed budgets, handed to an
//! incremental fuzzy-matching index, and read back as ranked, highlighted
//! entries by polling.

pub mod budget;
pub mod candidate;
pub mod channel;
pub mod crawl;
pub mod entry;
pub mod feed;
pub mod highlight;
pub mod icon;
pub mod index;
pub mod ingest;
pub mod limits;
pub mod line;
pub mod page;
pub mod path;
pub mod pipe;
pub mod sample;
pub mod select;
pub mod task;
