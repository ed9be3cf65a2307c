use vstd::prelude::*;
use vstd::string::*;

use crate::json::{JsonModel, JsonValue};

verus! {

/// The commands of the Discord RPC protocol.
#[derive(Debug, Clone, Copy, PartialEq, Eq, Structural)]
pub enum RPCCommand {
    Dispatch,
    Authorize,
    Authenticate,
    GetGuild,
    GetGuilds,
    GetChannel,
    GetChannels,
    CreateChannelInvite,
    GetRelationships,
    GetUser,
    Subscribe,
    Unsubscribe,
    SetUserVoiceSettings,
    SelectVoiceChannel,
    GetSelectedVoiceChannel,
    SelectTextChannel,
    GetVoiceSettings,
    SetVoiceSettings,
}

impl RPCCommand {
    /// The command's name on the wire, in upper snake case.
    pub open spec fn wire_name(self) -> Seq<char> {
        match self {
            RPCCommand::Dispatch => "DISPATCH"@,
            RPCCommand::Authorize => "AUTHORIZE"@,
            RPCCommand::Authenticate => "AUTHENTICATE"@,
            RPCCommand::GetGuild => "GET_GUILD"@,
            RPCCommand::GetGuilds => "GET_GUILDS"@,
            RPCCommand::GetChannel => "GET_CHANNEL"@,
            RPCCommand::GetChannels => "GET_CHANNELS"@,
            RPCCommand::CreateChannelInvite => "CREATE_CHANNEL_INVITE"@,
            RPCCommand::GetRelationships => "GET_RELATIONSHIPS"@,
            RPCCommand::GetUser => "GET_USER"@,
            RPCCommand::Subscribe => "SUBSCRIBE"@,
            RPCCommand::Unsubscribe => "UNSUBSCRIBE"@,
            RPCCommand::SetUserVoiceSettings => "SET_USER_VOICE_SETTINGS"@,
            RPCCommand::SelectVoiceChannel => "SELECT_VOICE_CHANNEL"@,
            RPCCommand::GetSelectedVoiceChannel => "GET_SELECTED_VOICE_CHANNEL"@,
            RPCCommand::SelectTextChannel => "SELECT_TEXT_CHANNEL"@,
            RPCCommand::GetVoiceSettings => "GET_VOICE_SETTINGS"@,
            RPCCommand::SetVoiceSettings => "SET_VOICE_SETTINGS"@,
        }
    }

    /// The command's name on the wire, in upper snake case.
    pub fn name(&self) -> (s: &'static str)
        ensures
            s@ == self.wire_name(),
    {
        match self {
            RPCCommand::Dispatch => "DISPATCH",
            RPCCommand::Authorize => "AUTHORIZE",
            RPCCommand::Authenticate => "AUTHENTICATE",
            RPCCommand::GetGuild => "GET_GUILD",
            RPCCommand::GetGuilds => "GET_GUILDS",
            RPCCommand::GetChannel => "GET_CHANNEL",
            RPCCommand::GetChannels => "GET_CHANNELS",
            RPCCommand::CreateChannelInvite => "CREATE_CHANNEL_INVITE",
            RPCCommand::GetRelationships => "GET_RELATIONSHIPS",
            RPCCommand::GetUser => "GET_USER",
            RPCCommand::Subscribe => "SUBSCRIBE",
            RPCCommand::Unsubscribe => "UNSUBSCRIBE",
            RPCCommand::SetUserVoiceSettings => "SET_USER_VOICE_SETTINGS",
            RPCCommand::SelectVoiceChannel => "SELECT_VOICE_CHANNEL",
            RPCCommand::GetSelectedVoiceChannel => "GET_SELECTED_VOICE_CHANNEL",
            RPCCommand::SelectTextChannel => "SELECT_TEXT_CHANNEL",
            RPCCommand::GetVoiceSettings => "GET_VOICE_SETTINGS",
            RPCCommand::SetVoiceSettings => "SET_VOICE_SETTINGS",
        }
    }

    /// The payload that issues this command without arguments:
    /// `{"cmd": <name>, "evt": null}`.
    pub open spec fn json_model(self) -> JsonModel {
        JsonModel::Object(
            Map::empty().insert("cmd"@, JsonModel::Str(self.wire_name())).insert(
                "evt"@,
                JsonModel::Null,
            ),
        )
    }

    /// The payload that issues this command without arguments:
    /// `{"cmd": <name>, "evt": null}`.
    pub fn to_json(&self) -> (v: JsonValue)
        ensures
            v is Object,
            v.model() == self.json_model(),
    {
        let mut v = JsonValue::object();
        v.insert(String::from_str("cmd"), JsonValue::string(self.name()));
        v.insert(String::from_str("evt"), JsonValue::Null);
        v
    }
}

/// Different commands have different names on the wire, so a name tells
/// its command.
pub proof fn lemma_command_names_distinct(a: RPCCommand, b: RPCCommand)
    ensures
        a.wire_name() == b.wire_name() ==> a == b,
{
    reveal_strlit("DISPATCH");
    reveal_strlit("AUTHORIZE");
    reveal_strlit("AUTHENTICATE");
    reveal_strlit("GET_GUILD");
    reveal_strlit("GET_GUILDS");
    reveal_strlit("GET_CHANNEL");
    reveal_strlit("GET_CHANNELS");
    reveal_strlit("CREATE_CHANNEL_INVITE");
    reveal_strlit("GET_RELATIONSHIPS");
    reveal_strlit("GET_USER");
    reveal_strlit("SUBSCRIBE");
    reveal_strlit("UNSUBSCRIBE");
    reveal_strlit("SET_USER_VOICE_SETTINGS");
    reveal_strlit("SELECT_VOICE_CHANNEL");
    reveal_strlit("GET_SELECTED_VOICE_CHANNEL");
    reveal_strlit("SELECT_TEXT_CHANNEL");
    reveal_strlit("GET_VOICE_SETTINGS");
    reveal_strlit("SET_VOICE_SETTINGS");
    if a.wire_name() == b.wire_name() {
        assert(a.wire_name().len() == b.wire_name().len());
        assert(a.wire_name()[0] == b.wire_name()[0]);
    }
}

/// The wire name of each command is its variant's name in upper snake case.
pub proof fn lemma_command_wire_names()
    ensures
        RPCCommand::Dispatch.wire_name() == "DISPATCH"@,
        RPCCommand::Authorize.wire_name() == "AUTHORIZE"@,
        RPCCommand::Authenticate.wire_name() == "AUTHENTICATE"@,
        RPCCommand::GetGuild.wire_name() == "GET_GUILD"@,
        RPCCommand::GetGuilds.wire_name() == "GET_GUILDS"@,
        RPCCommand::GetChannel.wire_name() == "GET_CHANNEL"@,
        RPCCommand::GetChannels.wire_name() == "GET_CHANNELS"@,
        RPCCommand::CreateChannelInvite.wire_name() == "CREATE_CHANNEL_INVITE"@,
        RPCCommand::GetRelationships.wire_name() == "GET_RELATIONSHIPS"@,
        RPCCommand::GetUser.wire_name() == "GET_USER"@,
        RPCCommand::Subscribe.wire_name() == "SUBSCRIBE"@,
        RPCCommand::Unsubscribe.wire_name() == "UNSUBSCRIBE"@,
        RPCCommand::SetUserVoiceSettings.wire_name() == "SET_USER_VOICE_SETTINGS"@,
        RPCCommand::SelectVoiceChannel.wire_name() == "SELECT_VOICE_CHANNEL"@,
        RPCCommand::GetSelectedVoiceChannel.wire_name() == "GET_SELECTED_VOICE_CHANNEL"@,
        RPCCommand::SelectTextChannel.wire_name() == "SELECT_TEXT_CHANNEL"@,
        RPCCommand::GetVoiceSettings.wire_name() == "GET_VOICE_SETTINGS"@,
        RPCCommand::SetVoiceSettings.wire_name() == "SET_VOICE_SETTINGS"@,
{
}

/// The payload of a command without arguments has exactly the keys `cmd`,
/// holding the command's wire name, and `evt`, holding null.
pub proof fn lemma_command_json(c: RPCCommand)
    ensures
        c.json_model() is Object,
        c.json_model()->Object_0.dom() == set!["cmd"@, "evt"@],
        c.json_model()->Object_0["cmd"@] == JsonModel::Str(c.wire_name()),
        c.json_model()->Object_0["evt"@] == JsonModel::Null,
{
    reveal_strlit("cmd");
    reveal_strlit("evt");
    assert("cmd"@ != "evt"@) by {
        assert("cmd"@[0] != "evt"@[0]);
    }
    assert(c.json_model()->Object_0.dom() =~= set!["cmd"@, "evt"@]);
}

} // verus!
