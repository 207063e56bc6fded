//! Project scaffolding: a registry of template processors, the dispatch of a
//! requested template to the processor whose configuration section holds it,
//! and the git processor, which plans a clone and the removal of its history.

pub mod value;
pub mod parsers;
pub mod processor;
pub mod gitprocessor;
pub mod loader;
pub mod config;
pub mod dispatch;
pub mod commands;
