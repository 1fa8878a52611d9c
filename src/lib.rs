//! Safe command hooks for a WeeChat plugin: command descriptions, the guard
//! that owns one registration, and the dispatch of host calls to user
//! callbacks.

pub mod text;
pub mod settings;
pub mod host;
pub mod args;
pub mod hook;
pub mod commands;
