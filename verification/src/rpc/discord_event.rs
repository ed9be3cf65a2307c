use vstd::prelude::*;
use vstd::string::*;

use crate::json::JsonModel;
use crate::models::rpc_event::RPCEvent;
use crate::utils::{create_json, is_json_of, is_uuid_v4_text, with_nonce};

verus! {

/// `{"cmd": "SUBSCRIBE", "evt": <evt>, "args": {"channel_id": <id>}}`.
pub open spec fn speaking_subscribe_model(evt: Seq<char>, id: Seq<char>) -> JsonModel {
    JsonModel::Object(
        Map::empty().insert("cmd"@, JsonModel::Str("SUBSCRIBE"@)).insert("evt"@, JsonModel::Str(evt)).insert(
            "args"@,
            JsonModel::Object(Map::empty().insert("channel_id"@, JsonModel::Str(id))),
        ),
    )
}

/// Builds the JSON payloads that subscribe to events.
pub struct DiscordEvent;

impl DiscordEvent {
    /// The payload that subscribes to `event`, with a fresh nonce.
    fn subscribe(event: RPCEvent) -> (res: crate::Result<String>)
        ensures
            exists|nonce: Seq<char>|
                is_uuid_v4_text(nonce) && is_json_of(res, with_nonce(event.subscribe_model(), nonce)),
    {
        let mut payload = event.subscribe_json();
        let ghost before = payload.model();
        let res = create_json(&mut payload);
        proof {
            let nonce = choose|nonce: Seq<char>|
                is_uuid_v4_text(nonce) && payload.model() == with_nonce(before, nonce);
            assert(is_uuid_v4_text(nonce) && is_json_of(res, with_nonce(event.subscribe_model(), nonce)));
        }
        res
    }

    /// The payload that subscribes to `SPEAKING_START` in the voice channel
    /// `id`: `{"cmd": "SUBSCRIBE", "evt": "SPEAKING_START",
    /// "args": {"channel_id": <id>}, "nonce": <uuid>}`.
    pub fn speaking_start(id: &str) -> (res: crate::Result<String>)
        ensures
            exists|nonce: Seq<char>|
                is_uuid_v4_text(nonce) && is_json_of(
                    res,
                    with_nonce(speaking_subscribe_model("SPEAKING_START"@, id@), nonce),
                ),
    {
        Self::subscribe(RPCEvent::SpeakingStart { channel_id: String::from_str(id) })
    }

    /// The payload that subscribes to `SPEAKING_STOP` in the voice channel
    /// `id`: `{"cmd": "SUBSCRIBE", "evt": "SPEAKING_STOP",
    /// "args": {"channel_id": <id>}, "nonce": <uuid>}`.
    pub fn speaking_stop(id: &str) -> (res: crate::Result<String>)
        ensures
            exists|nonce: Seq<char>|
                is_uuid_v4_text(nonce) && is_json_of(
                    res,
                    with_nonce(speaking_subscribe_model("SPEAKING_STOP"@, id@), nonce),
                ),
    {
        Self::subscribe(RPCEvent::SpeakingStop { channel_id: String::from_str(id) })
    }
}

/// A speaking subscription has exactly the keys `cmd`, holding `SUBSCRIBE`,
/// `evt`, holding the event name, and `args`, holding exactly the channel id
/// that was given, unchanged.
pub proof fn lemma_speaking_subscribe_payload(evt: Seq<char>, id: Seq<char>)
    ensures
        speaking_subscribe_model(evt, id) is Object,
        speaking_subscribe_model(evt, id)->Object_0.dom() == set!["cmd"@, "evt"@, "args"@],
        speaking_subscribe_model(evt, id)->Object_0["cmd"@] == JsonModel::Str("SUBSCRIBE"@),
        speaking_subscribe_model(evt, id)->Object_0["evt"@] == JsonModel::Str(evt),
        speaking_subscribe_model(evt, id)->Object_0["args"@] == JsonModel::Object(
            Map::<Seq<char>, JsonModel>::empty().insert("channel_id"@, JsonModel::Str(id)),
        ),
{
    reveal_strlit("cmd");
    reveal_strlit("evt");
    reveal_strlit("args");
    assert("cmd"@ != "evt"@) by {
        assert("cmd"@[0] != "evt"@[0]);
    }
    assert("cmd"@ != "args"@ && "evt"@ != "args"@) by {
        assert("cmd"@.len() != "args"@.len());
    }
    assert(speaking_subscribe_model(evt, id)->Object_0.dom() =~= set!["cmd"@, "evt"@, "args"@]);
}

} // verus!
