//! Windows: what the adapter accepts, and what it makes of what the system shows.
pub mod adapter;
pub mod keys;
pub mod policy;
pub mod search;
pub mod tasks;
pub mod titles;
