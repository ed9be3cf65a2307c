use vstd::prelude::*;
use vstd::string::*;

use crate::json::{JsonModel, JsonValue};
use crate::models::rpc_command::RPCCommand;
use crate::utils::{create_json, is_json_of, is_uuid_v4_text, with_nonce};

verus! {

/// Builds the JSON payloads that send commands.
pub struct DiscordCommand;

/// `{"cmd": "SELECT_VOICE_CHANNEL", "args": {"channel_id": <id>}, "evt": null}`.
pub open spec fn select_voice_channel_model(id: Seq<char>) -> JsonModel {
    JsonModel::Object(
        Map::empty().insert("cmd"@, JsonModel::Str(RPCCommand::SelectVoiceChannel.wire_name())).insert(
            "args"@,
            JsonModel::Object(Map::empty().insert("channel_id"@, JsonModel::Str(id))),
        ).insert("evt"@, JsonModel::Null),
    )
}

impl DiscordCommand {
    /// The payload of the `GET_SELECTED_VOICE_CHANNEL` command, which asks
    /// for the voice channel that the client is in:
    /// `{"cmd": "GET_SELECTED_VOICE_CHANNEL", "evt": null, "nonce": <uuid>}`.
    pub fn get_selected_voice_channel() -> (res: crate::Result<String>)
        ensures
            exists|nonce: Seq<char>|
                is_uuid_v4_text(nonce) && is_json_of(
                    res,
                    with_nonce(RPCCommand::GetSelectedVoiceChannel.json_model(), nonce),
                ),
    {
        let mut payload = RPCCommand::GetSelectedVoiceChannel.to_json();
        let ghost before = payload.model();
        let res = create_json(&mut payload);
        proof {
            let nonce = choose|nonce: Seq<char>|
                is_uuid_v4_text(nonce) && payload.model() == with_nonce(before, nonce);
            assert(is_uuid_v4_text(nonce) && is_json_of(
                res,
                with_nonce(RPCCommand::GetSelectedVoiceChannel.json_model(), nonce),
            ));
        }
        res
    }

    /// The payload of the `SELECT_VOICE_CHANNEL` command, which moves the
    /// client into the voice channel `id`:
    /// `{"cmd": "SELECT_VOICE_CHANNEL", "args": {"channel_id": <id>}, "evt": null, "nonce": <uuid>}`.
    pub fn select_voice_channel(id: &str) -> (res: crate::Result<String>)
        ensures
            exists|nonce: Seq<char>|
                is_uuid_v4_text(nonce) && is_json_of(
                    res,
                    with_nonce(select_voice_channel_model(id@), nonce),
                ),
    {
        let mut args = JsonValue::object();
        args.insert(String::from_str("channel_id"), JsonValue::string(id));
        let mut payload = JsonValue::object();
        payload.insert(String::from_str("cmd"), JsonValue::string(RPCCommand::SelectVoiceChannel.name()));
        payload.insert(String::from_str("args"), args);
        payload.insert(String::from_str("evt"), JsonValue::Null);
        let ghost before = payload.model();
        let res = create_json(&mut payload);
        proof {
            let nonce = choose|nonce: Seq<char>|
                is_uuid_v4_text(nonce) && payload.model() == with_nonce(before, nonce);
            assert(is_uuid_v4_text(nonce) && is_json_of(
                res,
                with_nonce(select_voice_channel_model(id@), nonce),
            ));
        }
        res
    }
}

/// The `SELECT_VOICE_CHANNEL` payload has exactly the keys `cmd`, `args`
/// and `evt`; `args` holds exactly the channel id that was given, unchanged,
/// and `evt` holds null.
pub proof fn lemma_select_voice_channel_payload(id: Seq<char>)
    ensures
        select_voice_channel_model(id) is Object,
        select_voice_channel_model(id)->Object_0.dom() == set!["cmd"@, "args"@, "evt"@],
        select_voice_channel_model(id)->Object_0["cmd"@] == JsonModel::Str("SELECT_VOICE_CHANNEL"@),
        select_voice_channel_model(id)->Object_0["args"@] == JsonModel::Object(
            Map::<Seq<char>, JsonModel>::empty().insert("channel_id"@, JsonModel::Str(id)),
        ),
        select_voice_channel_model(id)->Object_0["evt"@] == JsonModel::Null,
{
    reveal_strlit("cmd");
    reveal_strlit("evt");
    reveal_strlit("args");
    assert("cmd"@ != "evt"@) by {
        assert("cmd"@[0] != "evt"@[0]);
    }
    assert("cmd"@ != "args"@ && "evt"@ != "args"@) by {
        assert("cmd"@.len() != "args"@.len());
    }
    assert(select_voice_channel_model(id)->Object_0.dom() =~= set!["cmd"@, "args"@, "evt"@]);
}

} // verus!
