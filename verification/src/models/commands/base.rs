use std::collections::HashMap;

use vstd::prelude::*;

use super::ChannelData;

verus! {

/// All command responses that come back from the Discord RPC.
#[derive(Debug)]
#[allow(inconsistent_fields)]
pub enum CommandReturn {
    /// The voice channel that the client is in, if any.
    GetSelectedVoiceChannel { data: Option<ChannelData> },
    /// The voice channel that the client was moved into.
    SelectVoiceChannel { data: ChannelData },
    /// The answer to a subscription.
    Subscribe { data: HashMap<String, String> },
    /// A dispatched message.
    Dispatch { data: HashMap<String, String> },
}

} // verus!
