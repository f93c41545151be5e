//! How a definition is written as a JSON document, and how it is read back.
pub mod action;
pub mod condition;
pub mod document;
pub mod inspection;
pub mod names;
pub mod readers;
pub mod records;
pub mod shapes;
pub mod step;
pub mod target;
pub mod variable;
