//! Resolves user-defined command folders into a display-ready registry and
//! maps package-manager names to their operation verbs.

pub mod command;
pub mod config;
pub mod packagemanagers;
