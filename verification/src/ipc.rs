use vstd::prelude::*;
use vstd::string::*;

use crate::json::{JsonModel, JsonValue};
use crate::models::rpc_command::RPCCommand;
use crate::utils::{create_json, is_json_of, is_uuid_v4_text, with_nonce};

verus! {

/// The handshake that opens a connection:
/// `{"v": 1, "client_id": <client id>}`.
pub open spec fn handshake_model(client_id: Seq<char>) -> JsonModel {
    JsonModel::Object(
        Map::empty().insert("v"@, JsonModel::Number(1)).insert("client_id"@, JsonModel::Str(client_id)),
    )
}

/// The payload of the handshake frame for the application `client_id`.
pub fn handshake_payload(client_id: &str) -> (res: crate::Result<String>)
    ensures
        is_json_of(res, handshake_model(client_id@)),
{
    let mut payload = JsonValue::object();
    payload.insert(String::from_str("v"), JsonValue::Number(1));
    payload.insert(String::from_str("client_id"), JsonValue::string(client_id));
    payload.to_json_string()
}

/// The command that logs in with an OAuth2 access token:
/// `{"cmd": "AUTHENTICATE", "args": {"access_token": <token>}}`.
pub open spec fn login_model(access_token: Seq<char>) -> JsonModel {
    JsonModel::Object(
        Map::empty().insert("cmd"@, JsonModel::Str(RPCCommand::Authenticate.wire_name())).insert(
            "args"@,
            JsonModel::Object(Map::empty().insert("access_token"@, JsonModel::Str(access_token))),
        ),
    )
}

/// The payload of the login command, with a fresh nonce.
pub fn login_payload(access_token: &str) -> (res: crate::Result<String>)
    ensures
        exists|nonce: Seq<char>|
            is_uuid_v4_text(nonce) && is_json_of(res, with_nonce(login_model(access_token@), nonce)),
{
    let mut args = JsonValue::object();
    args.insert(String::from_str("access_token"), JsonValue::string(access_token));
    let mut payload = JsonValue::object();
    payload.insert(String::from_str("cmd"), JsonValue::string(RPCCommand::Authenticate.name()));
    payload.insert(String::from_str("args"), args);
    let ghost before = payload.model();
    let res = create_json(&mut payload);
    proof {
        let nonce = choose|nonce: Seq<char>|
            is_uuid_v4_text(nonce) && payload.model() == with_nonce(before, nonce);
        assert(is_uuid_v4_text(nonce) && is_json_of(res, with_nonce(login_model(access_token@), nonce)));
    }
    res
}

/// The payload that issues `command` without arguments, with a fresh nonce.
pub fn command_payload(command: &RPCCommand) -> (res: crate::Result<String>)
    ensures
        exists|nonce: Seq<char>|
            is_uuid_v4_text(nonce) && is_json_of(res, with_nonce(command.json_model(), nonce)),
{
    let mut payload = command.to_json();
    let ghost before = payload.model();
    let res = create_json(&mut payload);
    proof {
        let nonce = choose|nonce: Seq<char>|
            is_uuid_v4_text(nonce) && payload.model() == with_nonce(before, nonce);
        assert(is_uuid_v4_text(nonce) && is_json_of(res, with_nonce(command.json_model(), nonce)));
    }
    res
}

/// The handshake has exactly the keys `v`, holding the protocol version 1,
/// and `client_id`, holding the application id that was given, unchanged.
pub proof fn lemma_handshake_payload(client_id: Seq<char>)
    ensures
        handshake_model(client_id) is Object,
        handshake_model(client_id)->Object_0.dom() == set!["v"@, "client_id"@],
        handshake_model(client_id)->Object_0["v"@] == JsonModel::Number(1),
        handshake_model(client_id)->Object_0["client_id"@] == JsonModel::Str(client_id),
{
    reveal_strlit("v");
    reveal_strlit("client_id");
    assert("v"@ != "client_id"@) by {
        assert("v"@.len() != "client_id"@.len());
    }
    assert(handshake_model(client_id)->Object_0.dom() =~= set!["v"@, "client_id"@]);
}

/// The login command has exactly the keys `cmd`, holding `AUTHENTICATE`, and
/// `args`, holding exactly the access token that was given, unchanged.
pub proof fn lemma_login_payload(access_token: Seq<char>)
    ensures
        login_model(access_token) is Object,
        login_model(access_token)->Object_0.dom() == set!["cmd"@, "args"@],
        login_model(access_token)->Object_0["cmd"@] == JsonModel::Str("AUTHENTICATE"@),
        login_model(access_token)->Object_0["args"@] == JsonModel::Object(
            Map::<Seq<char>, JsonModel>::empty().insert("access_token"@, JsonModel::Str(access_token)),
        ),
{
    reveal_strlit("cmd");
    reveal_strlit("args");
    assert("cmd"@ != "args"@) by {
        assert("cmd"@.len() != "args"@.len());
    }
    assert(login_model(access_token)->Object_0.dom() =~= set!["cmd"@, "args"@]);
}

} // verus!
