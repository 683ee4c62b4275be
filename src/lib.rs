//! A rule engine that reorganises files: each rule names a source folder, a
//! filename pattern and a destination folder. The engine decides, the caller
//! performs the filesystem work it asks for.

pub mod rules;
pub mod matcher;
pub mod outcome;
pub mod engine;
pub mod laws;
