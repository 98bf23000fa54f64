use netplay::auth::AuthStamp;
use netplay::message::{create_room_request, players_request, NetplayRoom};
use netplay::settings::{
    cheats_from_parse, parse_cheats, parse_flag, settings_for_guest, settings_for_host,
};
use netplay::string_map::StringMap;

fn room_with(features: &[(&str, &str)]) -> NetplayRoom {
    let mut map: StringMap<String> = StringMap::new();
    for (name, text) in features {
        map.insert(name.to_string(), text.to_string());
    }
    let mut room = players_request(1).room.unwrap();
    room.features = Some(map);
    room
}

#[test]
fn only_true_switches_a_flag_on() {
    assert!(parse_flag("true"));
    assert!(!parse_flag("false"));
    assert!(!parse_flag("True"));
    assert!(!parse_flag("1"));
    assert!(!parse_flag(""));
}

#[test]
fn cheats_are_read_from_json() {
    let cheats = parse_cheats("{\"Infinite lives\":null,\"Level\":\"3\"}");
    assert_eq!(cheats.get("Infinite lives"), Some(&None));
    assert_eq!(cheats.get("Level"), Some(&Some("3".to_string())));
    assert_eq!(cheats.into_entries().len(), 2);
}

#[test]
fn repeated_cheat_takes_its_last_value() {
    let cheats = parse_cheats("{\"a\":\"1\",\"a\":null}");
    assert_eq!(cheats.into_entries(), vec![("a".to_string(), None)]);
}

#[test]
fn unreadable_cheats_are_none() {
    assert!(parse_cheats("not json").into_entries().is_empty());
    assert!(parse_cheats("{\"a\":1}").into_entries().is_empty());
    assert!(parse_cheats("{}").into_entries().is_empty());
}

#[test]
fn failed_parse_gives_no_cheats() {
    let error = serde_json::from_str::<u8>("x").unwrap_err();
    assert!(cheats_from_parse(Err(error)).into_entries().is_empty());
    let cheats = cheats_from_parse(Ok(vec![("a".to_string(), None)]));
    assert_eq!(cheats.get("a"), Some(&None));
}

#[test]
fn features_determine_a_guests_settings() {
    let room = room_with(&[
        ("overclock", "true"),
        ("disable_expansion_pak", "true"),
        ("cheats", "{\"a\":\"b\"}"),
    ]);
    let settings = settings_for_guest(true, &room);
    assert!(settings.fullscreen);
    assert!(settings.overclock);
    assert!(settings.disable_expansion_pak);
    assert_eq!(settings.cheats.get("a"), Some(&Some("b".to_string())));
}

#[test]
fn missing_features_are_off() {
    let mut room = room_with(&[]);
    let settings = settings_for_guest(false, &room);
    assert!(!settings.fullscreen && !settings.overclock && !settings.disable_expansion_pak);
    assert!(settings.cheats.into_entries().is_empty());
    room.features = None;
    let settings = settings_for_guest(false, &room);
    assert!(!settings.overclock && !settings.disable_expansion_pak);
    assert!(settings.cheats.into_entries().is_empty());
}

#[test]
fn guest_of_a_hosts_room_plays_with_the_hosts_settings() {
    let request = create_room_request(
        &"Host".to_string(),
        &"sha".to_string(),
        AuthStamp::at(0),
        "room".to_string(),
        "game".to_string(),
        "hash".to_string(),
    );
    let guest = settings_for_guest(true, &request.room.unwrap());
    let host = settings_for_host(true);
    assert_eq!(guest.fullscreen, host.fullscreen);
    assert_eq!(guest.overclock, host.overclock);
    assert_eq!(guest.disable_expansion_pak, host.disable_expansion_pak);
    assert_eq!(guest.cheats.into_entries(), host.cheats.into_entries());
}
