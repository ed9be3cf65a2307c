pub mod discord_command;
pub mod discord_event;
