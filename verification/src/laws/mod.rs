//! What the operations of the library come to, said of their inputs and results.
pub mod adapters;
pub mod attempts;
pub mod basics;
pub mod choices;
pub mod commands;
pub mod documents;
pub mod errors;
pub mod evidence;
pub mod interpolation;
pub mod keyboards;
pub mod macos;
pub mod manifests;
pub mod outputs;
pub mod permissions;
pub mod pictures;
pub mod platforms;
pub mod records;
pub mod reports;
pub mod resolution;
pub mod runs;
pub mod search;
pub mod states;
pub mod texts;
pub mod validity;
pub mod values;
pub mod windows;
