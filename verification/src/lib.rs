//! Client-side building blocks for the Discord local RPC protocol: the
//! binary frame format spoken over the IPC pipe, the JSON payloads that the
//! client sends, and the data types that Discord answers with.

pub mod errors;
pub mod frame;
pub mod ipc;
pub mod json;
pub mod models;
pub mod opcodes;
pub mod rpc;
pub mod utils;

use vstd::prelude::*;

pub use errors::{DiscordRPCError, Result};
pub use ipc::{command_payload, handshake_payload, login_payload};
pub use opcodes::OPCODES;
pub use rpc::discord_command::DiscordCommand;
pub use rpc::discord_event::DiscordEvent;
pub use utils::{create_json, create_json_with_nonce, pack, unpack};

use models::commands::DiscordCommands;
use models::events::DiscordEvents;

verus! {

/// A message from Discord: an event, or the response to a command.
#[derive(Debug)]
pub enum DiscordMessage {
    Event(Box<DiscordEvents>),
    Command(DiscordCommands),
}

} // verus!
