//! A small key/value store over one SQLite table, with the statements it
//! sends, the failures it reports and the command-line dispatch stated as
//! contracts.

pub mod cli;
pub mod database;
mod engine;
pub mod error;
pub mod record;
pub mod statement;
pub mod storage;
pub mod tables;
