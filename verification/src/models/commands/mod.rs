use vstd::prelude::*;

pub mod base;

pub use base::CommandReturn as DiscordCommands;

verus! {

/// A user's state in a voice channel.
#[derive(Default, Debug)]
pub struct VoiceState {
    pub nick: String,
}

/// A channel, as command responses describe it.
#[derive(Default, Debug)]
pub struct ChannelData {
    pub id: String,
    pub name: String,
    pub voice_states: Vec<VoiceState>,
}

} // verus!
