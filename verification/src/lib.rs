//! Verified core of a Discord bot that links Discord members to Geometry
//! Dash accounts and keeps their roles on a game server in step.
pub mod commands;
pub mod config;
pub mod db;
pub mod link;
pub mod state;
pub mod sync;
pub mod sync_all;
pub mod status;
pub mod text;
