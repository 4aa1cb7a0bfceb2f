//! A live log dashboard's verified core: canonicalize raw log lines into
//! signatures, cluster them into patterns, keep rolling per-pattern and
//! per-source statistics, and drive the interactive state machine of the
//! terminal view. The runtime around it — terminals, channels, child
//! processes — stays outside; it hands this crate plain values and applies
//! what the contracts promise.

pub mod app;
pub mod config;
pub mod discovery;
pub mod ingest;
pub mod keys;
pub mod parse;
pub mod pattern;
pub mod profile;
pub mod search;
pub mod source_menu;
pub mod theme;
pub mod util;
