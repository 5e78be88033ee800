//! Gather: the session and configuration logic of a Discord bot that
//! organises "looking for group" forum posts.

pub mod text;
pub mod session;
mod clock;
pub mod session_manager;
pub mod session_laws;
pub mod guild_config;
pub mod guild_config_laws;
pub mod reply;
pub mod permissions;
pub mod commands;
pub mod lfg;
pub mod events;
pub mod housekeeping;
pub mod presence;
