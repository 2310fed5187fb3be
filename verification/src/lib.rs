//! The decision logic of a terminal client for Warpgate SSH bastions.
pub mod text;
pub mod input;
pub mod warpgate;
pub mod utils;
pub mod fuzzy;
pub mod filter;
pub mod selection;
pub mod numbers;
pub mod config;
pub mod list;
pub mod keys;
pub mod groups;
pub mod app;
pub mod screens;
pub mod update;
pub mod laws;
