//! What holds of the supervisor as a whole, over the specifications that its
//! functions are proved to meet.

pub mod broadcasts;
pub mod commands;
pub mod config;
pub mod daemons;
pub mod life;
pub mod messages;
pub mod reaping;
pub mod requests;
pub mod startup;
pub mod steps;
pub mod whole_reap;
