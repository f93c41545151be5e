//! The command line: what it asks for, and what is reported to it.
pub mod args;
pub mod command;
pub mod drills;
pub mod manifest;
pub mod numbers;
pub mod profiles;
pub mod repeated;
pub mod reports;
