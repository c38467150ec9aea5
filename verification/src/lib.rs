//! Snippet storage: records of code snippets kept by title, with verified
//! upsert, lookup, deletion, listing and id allocation; the choice of storage
//! from its setting; the action a command line selects; the log settings.

pub mod cli;
pub mod jsonrpc;
pub mod layered_config;
pub mod logging;
pub mod model;
pub mod storage;
