//! Branch-driven playlist selection: which playlist belongs to which git
//! branch, when a branch change asks for a new playlist, and the decisions of
//! a playback session.
pub mod cli;
pub mod config;
pub mod daemon;
pub mod player;
pub mod text;
pub mod watcher;
