pub mod commands;
pub mod events;
pub mod rpc_command;
pub mod rpc_event;
