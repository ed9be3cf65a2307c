use vstd::prelude::*;
use vstd::string::*;

use crate::json::{JsonModel, JsonValue};

verus! {

/// The events of the Discord RPC protocol that a client can subscribe to;
/// the speaking events are about one voice channel.
#[derive(Debug)]
pub enum RPCEvent {
    CurrentUserUpdate,
    VoiceChannelSelect,
    VoiceStateCreate,
    VoiceStateDelete,
    VoiceStateUpdate,
    VoiceSettingsUpdate,
    VoiceConnectionStatus,
    SpeakingStart { channel_id: String },
    SpeakingStop { channel_id: String },
    Ready,
    Error,
}

impl RPCEvent {
    /// The event's name on the wire, in upper snake case.
    pub open spec fn wire_name(self) -> Seq<char> {
        match self {
            RPCEvent::CurrentUserUpdate => "CURRENT_USER_UPDATE"@,
            RPCEvent::VoiceChannelSelect => "VOICE_CHANNEL_SELECT"@,
            RPCEvent::VoiceStateCreate => "VOICE_STATE_CREATE"@,
            RPCEvent::VoiceStateDelete => "VOICE_STATE_DELETE"@,
            RPCEvent::VoiceStateUpdate => "VOICE_STATE_UPDATE"@,
            RPCEvent::VoiceSettingsUpdate => "VOICE_SETTINGS_UPDATE"@,
            RPCEvent::VoiceConnectionStatus => "VOICE_CONNECTION_STATUS"@,
            RPCEvent::SpeakingStart { .. } => "SPEAKING_START"@,
            RPCEvent::SpeakingStop { .. } => "SPEAKING_STOP"@,
            RPCEvent::Ready => "READY"@,
            RPCEvent::Error => "ERROR"@,
        }
    }

    /// The event's name on the wire, in upper snake case.
    pub fn name(&self) -> (s: &'static str)
        ensures
            s@ == self.wire_name(),
    {
        match self {
            RPCEvent::CurrentUserUpdate => "CURRENT_USER_UPDATE",
            RPCEvent::VoiceChannelSelect => "VOICE_CHANNEL_SELECT",
            RPCEvent::VoiceStateCreate => "VOICE_STATE_CREATE",
            RPCEvent::VoiceStateDelete => "VOICE_STATE_DELETE",
            RPCEvent::VoiceStateUpdate => "VOICE_STATE_UPDATE",
            RPCEvent::VoiceSettingsUpdate => "VOICE_SETTINGS_UPDATE",
            RPCEvent::VoiceConnectionStatus => "VOICE_CONNECTION_STATUS",
            RPCEvent::SpeakingStart { .. } => "SPEAKING_START",
            RPCEvent::SpeakingStop { .. } => "SPEAKING_STOP",
            RPCEvent::Ready => "READY",
            RPCEvent::Error => "ERROR",
        }
    }

    /// The arguments that go with the event: the channel of a speaking
    /// event, nothing for the others.
    pub open spec fn args_model(self) -> Map<Seq<char>, JsonModel> {
        match self {
            RPCEvent::SpeakingStart { channel_id } => Map::empty().insert(
                "channel_id"@,
                JsonModel::Str(channel_id@),
            ),
            RPCEvent::SpeakingStop { channel_id } => Map::empty().insert(
                "channel_id"@,
                JsonModel::Str(channel_id@),
            ),
            _ => Map::empty(),
        }
    }

    /// The arguments that go with the event, as a JSON object.
    pub fn args(&self) -> (v: JsonValue)
        ensures
            v is Object,
            v.model() == JsonModel::Object(self.args_model()),
    {
        let mut v = JsonValue::object();
        match self {
            RPCEvent::SpeakingStart { channel_id } => {
                v.insert(String::from_str("channel_id"), JsonValue::String(channel_id.clone()));
            },
            RPCEvent::SpeakingStop { channel_id } => {
                v.insert(String::from_str("channel_id"), JsonValue::String(channel_id.clone()));
            },
            _ => {},
        }
        v
    }

    /// The payload that subscribes to this event:
    /// `{"cmd": "SUBSCRIBE", "evt": <name>, "args": <args>}`.
    pub open spec fn subscribe_model(self) -> JsonModel {
        JsonModel::Object(
            Map::empty().insert("cmd"@, JsonModel::Str("SUBSCRIBE"@)).insert(
                "evt"@,
                JsonModel::Str(self.wire_name()),
            ).insert("args"@, JsonModel::Object(self.args_model())),
        )
    }

    /// The payload that subscribes to this event:
    /// `{"cmd": "SUBSCRIBE", "evt": <name>, "args": <args>}`.
    pub fn subscribe_json(&self) -> (v: JsonValue)
        ensures
            v is Object,
            v.model() == self.subscribe_model(),
    {
        let mut v = JsonValue::object();
        v.insert(String::from_str("cmd"), JsonValue::string("SUBSCRIBE"));
        v.insert(String::from_str("evt"), JsonValue::string(self.name()));
        v.insert(String::from_str("args"), self.args());
        v
    }
}

/// Events of different kinds have different names on the wire, so a name
/// tells the kind of its event.
pub proof fn lemma_event_names_distinct(a: RPCEvent, b: RPCEvent)
    ensures
        a.wire_name() == b.wire_name() ==> {
            &&& (a is CurrentUserUpdate <==> b is CurrentUserUpdate)
            &&& (a is VoiceChannelSelect <==> b is VoiceChannelSelect)
            &&& (a is VoiceStateCreate <==> b is VoiceStateCreate)
            &&& (a is VoiceStateDelete <==> b is VoiceStateDelete)
            &&& (a is VoiceStateUpdate <==> b is VoiceStateUpdate)
            &&& (a is VoiceSettingsUpdate <==> b is VoiceSettingsUpdate)
            &&& (a is VoiceConnectionStatus <==> b is VoiceConnectionStatus)
            &&& (a is SpeakingStart <==> b is SpeakingStart)
            &&& (a is SpeakingStop <==> b is SpeakingStop)
            &&& (a is Ready <==> b is Ready)
            &&& (a is Error <==> b is Error)
        },
{
    reveal_strlit("CURRENT_USER_UPDATE");
    reveal_strlit("VOICE_CHANNEL_SELECT");
    reveal_strlit("VOICE_STATE_CREATE");
    reveal_strlit("VOICE_STATE_DELETE");
    reveal_strlit("VOICE_STATE_UPDATE");
    reveal_strlit("VOICE_SETTINGS_UPDATE");
    reveal_strlit("VOICE_CONNECTION_STATUS");
    reveal_strlit("SPEAKING_START");
    reveal_strlit("SPEAKING_STOP");
    reveal_strlit("READY");
    reveal_strlit("ERROR");
    if a.wire_name() == b.wire_name() {
        assert(a.wire_name().len() == b.wire_name().len());
        assert(a.wire_name()[0] == b.wire_name()[0]);
        assert(a.wire_name()[12] == b.wire_name()[12]);
    }
}

/// The wire name of each event is its variant's name in upper snake case,
/// whatever channel a speaking event names.
pub proof fn lemma_event_wire_names(id: String)
    ensures
        RPCEvent::CurrentUserUpdate.wire_name() == "CURRENT_USER_UPDATE"@,
        RPCEvent::VoiceChannelSelect.wire_name() == "VOICE_CHANNEL_SELECT"@,
        RPCEvent::VoiceStateCreate.wire_name() == "VOICE_STATE_CREATE"@,
        RPCEvent::VoiceStateDelete.wire_name() == "VOICE_STATE_DELETE"@,
        RPCEvent::VoiceStateUpdate.wire_name() == "VOICE_STATE_UPDATE"@,
        RPCEvent::VoiceSettingsUpdate.wire_name() == "VOICE_SETTINGS_UPDATE"@,
        RPCEvent::VoiceConnectionStatus.wire_name() == "VOICE_CONNECTION_STATUS"@,
        (RPCEvent::SpeakingStart { channel_id: id }).wire_name() == "SPEAKING_START"@,
        (RPCEvent::SpeakingStop { channel_id: id }).wire_name() == "SPEAKING_STOP"@,
        RPCEvent::Ready.wire_name() == "READY"@,
        RPCEvent::Error.wire_name() == "ERROR"@,
{
}

/// The payload that subscribes to an event has exactly the keys `cmd`,
/// holding `SUBSCRIBE`, `evt`, holding the event's wire name, and `args`; a
/// speaking event's arguments are exactly its channel, unchanged, and the
/// other events have none.
pub proof fn lemma_subscribe_json(e: RPCEvent)
    ensures
        e.subscribe_model() is Object,
        e.subscribe_model()->Object_0.dom() == set!["cmd"@, "evt"@, "args"@],
        e.subscribe_model()->Object_0["cmd"@] == JsonModel::Str("SUBSCRIBE"@),
        e.subscribe_model()->Object_0["evt"@] == JsonModel::Str(e.wire_name()),
        e.subscribe_model()->Object_0["args"@] == JsonModel::Object(e.args_model()),
        e matches RPCEvent::SpeakingStart { channel_id } ==> e.args_model() == Map::<
            Seq<char>,
            JsonModel,
        >::empty().insert("channel_id"@, JsonModel::Str(channel_id@)),
        e matches RPCEvent::SpeakingStop { channel_id } ==> e.args_model() == Map::<
            Seq<char>,
            JsonModel,
        >::empty().insert("channel_id"@, JsonModel::Str(channel_id@)),
        !(e is SpeakingStart || e is SpeakingStop) ==> e.args_model() == Map::<
            Seq<char>,
            JsonModel,
        >::empty(),
{
    reveal_strlit("cmd");
    reveal_strlit("evt");
    reveal_strlit("args");
    assert("cmd"@ != "evt"@) by {
        assert("cmd"@[0] != "evt"@[0]);
    }
    assert("cmd"@ != "args"@ && "evt"@ != "args"@) by {
        assert("cmd"@.len() != "args"@.len());
    }
    assert(e.subscribe_model()->Object_0.dom() =~= set!["cmd"@, "evt"@, "args"@]);
}

} // verus!
