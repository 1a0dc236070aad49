//! Validation of HTTP forward proxies: the proxy list and configuration are read into plain
//! values, each `host:port` line is classified, and the outcomes of a run are counted.

pub mod text;
pub mod args;
pub mod entry;
pub mod check;
pub mod config;
pub mod tally;
pub mod run;
