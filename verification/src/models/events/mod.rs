use vstd::prelude::*;

pub mod authenticate;

verus! {

/// The user that an event is about.
#[derive(Default, Debug)]
pub struct SpeakingData {
    pub user_id: String,
}

/// The events that Discord dispatches to a client.
#[derive(Debug)]
pub enum DiscordEvents {
    /// The connection is ready; the first message after the handshake.
    Ready {},
    /// A user started speaking in a subscribed channel.
    SpeakingStart { data: SpeakingData },
    /// A user stopped speaking in a subscribed channel.
    SpeakingStop { data: SpeakingData },
}

impl DiscordEvents {
    /// Whether this is the event that completes the handshake.
    pub fn is_ready(&self) -> (b: bool)
        ensures
            b <==> self is Ready,
    {
        match self {
            DiscordEvents::Ready { .. } => true,
            _ => false,
        }
    }
}

} // verus!
