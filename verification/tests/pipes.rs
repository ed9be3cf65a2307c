use rpc_discord::models::events::{DiscordEvents, SpeakingData};
use rpc_discord::utils::{pipe_candidates, pipe_prefixes};

fn sorted(mut v: Vec<String>) -> Vec<String> {
    v.sort();
    v
}

#[test]
fn unix_prefixes_with_both_variables() {
    let p = pipe_prefixes(false, true, Some("/var/T".to_string()), Some("/run/user/1000".to_string()));
    assert_eq!(
        sorted(p),
        vec![
            "/run/user/1000/app/com.discordapp.Discord/discord-ipc-".to_string(),
            "/run/user/1000/discord-ipc-".to_string(),
            "/tmp/discord-ipc-".to_string(),
            "/var/T/discord-ipc-".to_string(),
        ]
    );
}

#[test]
fn windows_prefix_alone() {
    let p = pipe_prefixes(true, false, None, None);
    assert_eq!(p, vec!["\\\\?\\pipe\\discord-ipc-".to_string()]);
}

#[test]
fn prefixes_are_not_repeated() {
    let p = pipe_prefixes(false, true, Some("/tmp".to_string()), Some("/tmp".to_string()));
    assert_eq!(
        sorted(p),
        vec![
            "/tmp/app/com.discordapp.Discord/discord-ipc-".to_string(),
            "/tmp/discord-ipc-".to_string(),
        ]
    );
}

#[test]
fn no_platform_and_no_variables_gives_no_prefix() {
    assert!(pipe_prefixes(false, false, None, None).is_empty());
}

#[test]
fn candidates_go_index_by_index() {
    let prefixes = vec!["/a/ipc-".to_string(), "/b/ipc-".to_string()];
    let c = pipe_candidates(&prefixes);
    assert_eq!(c.len(), 20);
    assert_eq!(c[0], "/a/ipc-0");
    assert_eq!(c[1], "/b/ipc-0");
    assert_eq!(c[2], "/a/ipc-1");
    assert_eq!(c[19], "/b/ipc-9");
}

#[test]
fn candidates_of_no_prefix_are_none() {
    assert!(pipe_candidates(&Vec::new()).is_empty());
}

#[test]
fn ready_event_is_recognised() {
    assert!(DiscordEvents::Ready {}.is_ready());
    let e = DiscordEvents::SpeakingStart { data: SpeakingData { user_id: "9".to_string() } };
    assert!(!e.is_ready());
}
