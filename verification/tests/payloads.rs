use rpc_discord::json::JsonValue;
use rpc_discord::models::rpc_command::RPCCommand;
use rpc_discord::models::rpc_event::RPCEvent;
use rpc_discord::{
    command_payload, create_json, create_json_with_nonce, handshake_payload, login_payload,
    DiscordCommand, DiscordEvent,
};
use serde_json::Value;

fn is_uuid_v4_text(s: &str) -> bool {
    let b = s.as_bytes();
    b.len() == 36
        && b.iter().enumerate().all(|(i, c)| {
            if i == 8 || i == 13 || i == 18 || i == 23 {
                *c == b'-'
            } else {
                c.is_ascii_digit() || (b'a'..=b'f').contains(c)
            }
        })
        && b[14] == b'4'
        && matches!(b[19], b'8' | b'9' | b'a' | b'b')
}

fn parse(text: &str) -> Value {
    serde_json::from_str(text).unwrap()
}

#[test]
fn json_text_of_a_built_object() {
    let mut args = JsonValue::object();
    args.insert("channel_id".to_string(), JsonValue::string("42"));
    let mut v = JsonValue::object();
    v.insert("b".to_string(), JsonValue::Bool(true));
    v.insert("a".to_string(), args);
    v.insert("n".to_string(), JsonValue::Null);
    v.insert("x".to_string(), JsonValue::Number(7));
    assert_eq!(
        v.to_json_string().unwrap(),
        "{\"a\":{\"channel_id\":\"42\"},\"b\":true,\"n\":null,\"x\":7}"
    );
}

#[test]
fn a_later_insert_replaces_the_value() {
    let mut v = JsonValue::object();
    v.insert("k".to_string(), JsonValue::string("old"));
    v.insert("k".to_string(), JsonValue::string("new"));
    assert_eq!(v.to_json_string().unwrap(), "{\"k\":\"new\"}");
}

#[test]
fn strings_are_escaped() {
    let v = JsonValue::string("a\"b\\c\n");
    assert_eq!(v.to_json_string().unwrap(), "\"a\\\"b\\\\c\\n\"");
}

#[test]
fn create_json_with_nonce_adds_the_nonce() {
    let mut v = JsonValue::object();
    v.insert("cmd".to_string(), JsonValue::string("DISPATCH"));
    let text = create_json_with_nonce(&mut v, "abc".to_string()).unwrap();
    assert_eq!(text, "{\"cmd\":\"DISPATCH\",\"nonce\":\"abc\"}");
    assert_eq!(v.to_json_string().unwrap(), text);
}

#[test]
fn create_json_with_nonce_replaces_an_old_nonce() {
    let mut v = JsonValue::object();
    v.insert("nonce".to_string(), JsonValue::Number(3));
    let text = create_json_with_nonce(&mut v, "n2".to_string()).unwrap();
    assert_eq!(text, "{\"nonce\":\"n2\"}");
}

#[test]
fn create_json_adds_a_random_uuid() {
    let mut v = JsonValue::object();
    v.insert("evt".to_string(), JsonValue::Null);
    let first = parse(&create_json(&mut v).unwrap());
    let mut w = JsonValue::object();
    let second = parse(&create_json(&mut w).unwrap());
    let n1 = first["nonce"].as_str().unwrap().to_string();
    let n2 = second["nonce"].as_str().unwrap().to_string();
    assert!(is_uuid_v4_text(&n1));
    assert!(is_uuid_v4_text(&n2));
    assert_ne!(n1, n2);
    assert_eq!(first["evt"], Value::Null);
    assert_eq!(first.as_object().unwrap().len(), 2);
}

#[test]
fn handshake_payload_names_version_and_client() {
    assert_eq!(
        handshake_payload("1023308619497873419").unwrap(),
        "{\"client_id\":\"1023308619497873419\",\"v\":1}"
    );
}

#[test]
fn login_payload_authenticates_with_the_token() {
    let v = parse(&login_payload("SECRET-REDACTED").unwrap());
    assert_eq!(v["cmd"], "AUTHENTICATE");
    assert_eq!(v["args"]["access_token"], "SECRET-REDACTED");
    assert!(is_uuid_v4_text(v["nonce"].as_str().unwrap()));
    assert_eq!(v.as_object().unwrap().len(), 3);
}

#[test]
fn get_selected_voice_channel_payload() {
    let v = parse(&DiscordCommand::get_selected_voice_channel().unwrap());
    assert_eq!(v["cmd"], "GET_SELECTED_VOICE_CHANNEL");
    assert_eq!(v["evt"], Value::Null);
    assert!(is_uuid_v4_text(v["nonce"].as_str().unwrap()));
    assert_eq!(v.as_object().unwrap().len(), 3);
}

#[test]
fn select_voice_channel_payload() {
    let v = parse(&DiscordCommand::select_voice_channel("975086424049213564").unwrap());
    assert_eq!(v["cmd"], "SELECT_VOICE_CHANNEL");
    assert_eq!(v["args"]["channel_id"], "975086424049213564");
    assert_eq!(v["evt"], Value::Null);
    assert!(is_uuid_v4_text(v["nonce"].as_str().unwrap()));
    assert_eq!(v.as_object().unwrap().len(), 4);
}

#[test]
fn speaking_start_payload() {
    let v = parse(&DiscordEvent::speaking_start("1023308619497873419").unwrap());
    assert_eq!(v["cmd"], "SUBSCRIBE");
    assert_eq!(v["evt"], "SPEAKING_START");
    assert_eq!(v["args"]["channel_id"], "1023308619497873419");
    assert!(is_uuid_v4_text(v["nonce"].as_str().unwrap()));
    assert_eq!(v.as_object().unwrap().len(), 4);
}

#[test]
fn speaking_stop_payload() {
    let v = parse(&DiscordEvent::speaking_stop("1022132922565804062").unwrap());
    assert_eq!(v["cmd"], "SUBSCRIBE");
    assert_eq!(v["evt"], "SPEAKING_STOP");
    assert_eq!(v["args"]["channel_id"], "1022132922565804062");
    assert_eq!(v.as_object().unwrap().len(), 4);
}

#[test]
fn command_payload_without_arguments() {
    let v = parse(&command_payload(&RPCCommand::GetSelectedVoiceChannel).unwrap());
    assert_eq!(v["cmd"], "GET_SELECTED_VOICE_CHANNEL");
    assert_eq!(v["evt"], Value::Null);
    assert!(is_uuid_v4_text(v["nonce"].as_str().unwrap()));
}

#[test]
fn command_names_are_upper_snake_case() {
    assert_eq!(RPCCommand::Dispatch.name(), "DISPATCH");
    assert_eq!(RPCCommand::CreateChannelInvite.name(), "CREATE_CHANNEL_INVITE");
    assert_eq!(RPCCommand::SetUserVoiceSettings.name(), "SET_USER_VOICE_SETTINGS");
    assert_eq!(RPCCommand::GetSelectedVoiceChannel.name(), "GET_SELECTED_VOICE_CHANNEL");
    assert_eq!(RPCCommand::SetVoiceSettings.name(), "SET_VOICE_SETTINGS");
}

#[test]
fn event_names_are_upper_snake_case() {
    assert_eq!(RPCEvent::CurrentUserUpdate.name(), "CURRENT_USER_UPDATE");
    assert_eq!(RPCEvent::VoiceConnectionStatus.name(), "VOICE_CONNECTION_STATUS");
    let e = RPCEvent::SpeakingStop { channel_id: "1".to_string() };
    assert_eq!(e.name(), "SPEAKING_STOP");
    assert_eq!(RPCEvent::Ready.name(), "READY");
    assert_eq!(RPCEvent::Error.name(), "ERROR");
}

#[test]
fn subscribing_to_an_event_without_channel_has_empty_args() {
    let text = RPCEvent::VoiceSettingsUpdate.subscribe_json().to_json_string().unwrap();
    assert_eq!(text, "{\"args\":{},\"cmd\":\"SUBSCRIBE\",\"evt\":\"VOICE_SETTINGS_UPDATE\"}");
}

#[test]
fn arrays_and_signed_numbers_are_written() {
    let mut v = JsonValue::object();
    v.insert(
        "items".to_string(),
        JsonValue::Array(vec![JsonValue::Int(-3), JsonValue::Number(4), JsonValue::Array(Vec::new())]),
    );
    v.insert("min".to_string(), JsonValue::Int(i64::MIN));
    v.insert("big".to_string(), JsonValue::Number(u64::MAX));
    assert_eq!(
        v.to_json_string().unwrap(),
        "{\"big\":18446744073709551615,\"items\":[-3,4,[]],\"min\":-9223372036854775808}"
    );
}

#[test]
fn a_non_negative_int_is_written_as_the_same_number() {
    assert_eq!(JsonValue::Int(12).to_json_string().unwrap(), JsonValue::Number(12).to_json_string().unwrap());
}

#[test]
fn create_json_keeps_arrays_in_the_payload() {
    let mut v = JsonValue::object();
    v.insert(
        "scopes".to_string(),
        JsonValue::Array(vec![JsonValue::string("rpc"), JsonValue::string("identify")]),
    );
    let parsed = parse(&create_json(&mut v).unwrap());
    assert_eq!(parsed["scopes"][0], "rpc");
    assert_eq!(parsed["scopes"][1], "identify");
    assert_eq!(parsed["scopes"].as_array().unwrap().len(), 2);
    assert!(is_uuid_v4_text(parsed["nonce"].as_str().unwrap()));
}
