use hooker::state_manager::app_state::{AppState, Channel, Client};
use hooker::ts3_parser::data_parser::VoiceData;
use hooker::ts3_parser::get_last_voice_data;

fn voice(voice_id: u16) -> VoiceData {
    VoiceData { client_id: None, voice_id, codec: 4, raw_data: vec![voice_id as u8] }
}

fn client(id: u16, nickname: &str) -> Client {
    Client {
        id,
        channel_id: 1,
        nickname: nickname.to_string(),
        database_id: 1000 + id as u64,
        unique_id: format!("uid-{}", id),
        last_voice_data: None,
    }
}

#[test]
fn a_new_store_is_empty() {
    let state = AppState::new();
    assert_eq!(state.client_count(), 0);
    assert_eq!(state.channel_count(), 0);
    assert!(state.snapshot_client_ids().is_empty());
    assert!(state.client(0).is_none());
    assert!(state.channel(0).is_none());
    assert!(get_last_voice_data(&state, 0).is_none());
}

#[test]
fn a_placeholder_is_entered_once() {
    let mut state = AppState::new();
    state.upsert_client_placeholder(12);
    state.upsert_client_placeholder(12);
    assert_eq!(state.client_count(), 1);
    let placeholder = state.client(12).unwrap();
    assert_eq!(placeholder.id, 12);
    assert_eq!(placeholder.channel_id, 0);
    assert_eq!(placeholder.nickname, "Unknown");
    assert_eq!(placeholder.database_id, 0);
    assert_eq!(placeholder.unique_id, "");
    assert!(placeholder.last_voice_data.is_none());
}

#[test]
fn a_placeholder_does_not_replace_a_known_client() {
    let mut state = AppState::new();
    state.replace_all(vec![client(12, "Ann")], vec![]);
    state.record_voice(12, voice(3));
    state.upsert_client_placeholder(12);
    let ann = state.client(12).unwrap();
    assert_eq!(ann.nickname, "Ann");
    assert_eq!(ann.channel_id, 1);
    assert_eq!(ann.last_voice_data.unwrap().voice_id, 3);
}

#[test]
fn voice_of_an_unknown_client_is_not_recorded() {
    let mut state = AppState::new();
    state.record_voice(5, voice(1));
    assert_eq!(state.client_count(), 0);
    assert!(get_last_voice_data(&state, 5).is_none());
}

#[test]
fn only_the_last_voice_is_kept() {
    let mut state = AppState::new();
    state.observe_voice(5, voice(1));
    state.observe_voice(5, voice(2));
    state.observe_voice(5, voice(3));
    assert_eq!(state.client_count(), 1);
    let last = get_last_voice_data(&state, 5).unwrap();
    assert_eq!(last.voice_id, 3);
    assert_eq!(last.raw_data, vec![3]);
    assert_eq!(last.codec, 4);
    assert_eq!(state.last_voice_data(5).unwrap().voice_id, 3);
}

#[test]
fn the_last_voice_is_handed_out_as_a_copy() {
    let mut state = AppState::new();
    state.observe_voice(5, voice(1));
    let mut copy = get_last_voice_data(&state, 5).unwrap();
    copy.raw_data.push(99);
    copy.voice_id = 77;
    let again = get_last_voice_data(&state, 5).unwrap();
    assert_eq!(again.voice_id, 1);
    assert_eq!(again.raw_data, vec![1]);
}

#[test]
fn ids_are_listed_in_rising_order() {
    let mut state = AppState::new();
    for id in [500u16, 3, 65535, 0, 42, 3, 7] {
        state.observe_voice(id, voice(id));
    }
    assert_eq!(state.snapshot_client_ids(), vec![0, 3, 7, 42, 500, 65535]);
    assert_eq!(state.client_count(), 6);
}

#[test]
fn a_snapshot_does_not_follow_the_store() {
    let mut state = AppState::new();
    state.observe_voice(1, voice(1));
    let ids = state.snapshot_client_ids();
    state.observe_voice(2, voice(2));
    assert_eq!(ids, vec![1]);
    assert_eq!(state.snapshot_client_ids(), vec![1, 2]);
}

#[test]
fn a_roster_replaces_clients_and_channels_together() {
    let mut state = AppState::new();
    state.observe_voice(9, voice(1));
    state.replace_all(
        vec![client(1, "Ann"), client(2, "Ben")],
        vec![
            Channel { id: 10, name: String::from("Lobby") },
            Channel { id: 11, name: String::from("Away") },
        ],
    );
    assert_eq!(state.snapshot_client_ids(), vec![1, 2]);
    assert!(state.client(9).is_none());
    assert_eq!(state.channel_count(), 2);
    assert_eq!(state.channel(10).unwrap().name, "Lobby");
    assert_eq!(state.channel(11).unwrap().id, 11);
    state.replace_all(vec![client(3, "Cid")], vec![Channel { id: 12, name: String::new() }]);
    assert_eq!(state.snapshot_client_ids(), vec![3]);
    assert_eq!(state.channel_count(), 1);
    assert!(state.channel(10).is_none());
    assert!(state.channel(11).is_none());
    assert_eq!(state.channel(12).unwrap().name, "");
    state.replace_all(vec![], vec![]);
    assert_eq!(state.client_count(), 0);
    assert_eq!(state.channel_count(), 0);
}

#[test]
fn of_two_roster_entries_with_one_id_the_later_one_counts() {
    let mut state = AppState::new();
    state.replace_all(
        vec![client(1, "first"), client(2, "other"), client(1, "second")],
        vec![
            Channel { id: 5, name: String::from("old") },
            Channel { id: 5, name: String::from("new") },
        ],
    );
    assert_eq!(state.client_count(), 2);
    assert_eq!(state.client(1).unwrap().nickname, "second");
    assert_eq!(state.client(2).unwrap().nickname, "other");
    assert_eq!(state.channel_count(), 1);
    assert_eq!(state.channel(5).unwrap().name, "new");
}

#[test]
fn a_roster_overwrites_a_placeholder() {
    let mut state = AppState::new();
    state.observe_voice(1, voice(8));
    state.replace_all(vec![client(1, "Ann")], vec![]);
    let ann = state.client(1).unwrap();
    assert_eq!(ann.nickname, "Ann");
    assert_eq!(ann.database_id, 1001);
    assert_eq!(ann.unique_id, "uid-1");
    assert!(ann.last_voice_data.is_none());
}

#[test]
fn a_roster_entry_keeps_its_voice() {
    let mut state = AppState::new();
    let mut ann = client(1, "Ann");
    ann.last_voice_data = Some(voice(6));
    state.replace_all(vec![ann], vec![]);
    assert_eq!(get_last_voice_data(&state, 1).unwrap().voice_id, 6);
}

#[test]
fn a_channel_keeps_the_low_bits_of_its_listed_id() {
    let channel = Channel::from_listing(5, String::from("Lobby"));
    assert_eq!(channel.id, 5);
    assert_eq!(channel.name, "Lobby");
    assert_eq!(Channel::from_listing(65535, String::new()).id, 65535);
    assert_eq!(Channel::from_listing(65536, String::new()).id, 0);
    assert_eq!(Channel::from_listing(65536 + 7, String::new()).id, 7);
    assert_eq!(Channel::from_listing(u64::MAX, String::new()).id, 65535);
}

#[test]
fn copies_hold_what_was_copied() {
    let mut ann = client(1, "Ann");
    ann.last_voice_data = Some(voice(6));
    let copy = ann.clone();
    assert_eq!(copy.id, 1);
    assert_eq!(copy.channel_id, 1);
    assert_eq!(copy.nickname, "Ann");
    assert_eq!(copy.database_id, 1001);
    assert_eq!(copy.unique_id, "uid-1");
    assert_eq!(copy.last_voice_data.unwrap().raw_data, vec![6]);
    let channel = Channel { id: 3, name: String::from("Lobby") }.clone();
    assert_eq!(channel.id, 3);
    assert_eq!(channel.name, "Lobby");
    let frame = VoiceData { client_id: Some(2), voice_id: 3, codec: 4, raw_data: vec![5, 6] };
    let copy = frame.clone();
    assert_eq!(copy.client_id, Some(2));
    assert_eq!(copy.voice_id, 3);
    assert_eq!(copy.codec, 4);
    assert_eq!(copy.raw_data, vec![5, 6]);
}
