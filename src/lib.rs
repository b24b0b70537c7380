pub mod error;
pub mod text;
pub mod schedule;
pub mod run;
pub mod url;
pub mod config;
pub mod payload;
pub mod sink;
pub mod manifest;
pub mod cli;
