//! The settings with which a game runs, and how a room's features determine them.

use std::collections::HashMap;

use vstd::prelude::*;

use crate::message::{host_features, NetplayRoom};
use crate::string_map::{distinct_keys, entries_map, StringMap};
use crate::text::same_text;

verus! {

/// `serde_json::Error`, the reason for which a JSON text was refused.
#[verifier::external_type_specification]
#[verifier::external_body]
pub struct ExJsonError(serde_json::Error);

/// The object that a JSON text holds, if it holds one whose members are strings or null.
pub uninterp spec fn json_string_map(text: Seq<char>) -> Option<Map<Seq<char>, Option<Seq<char>>>>;

/// Calls `serde_json::from_str` for a map from strings to optional strings.
/// Trusted: whether the text parses, and the map that it stands for, depend on the text alone; the
/// entries of that map come out once each, in any order; and `{}` is the empty map.
#[verifier::external_body]
fn parse_string_map(text: &str) -> (r: Result<Vec<(String, Option<String>)>, serde_json::Error>)
    ensures
        match r {
            Ok(entries) => distinct_keys(entries@) && json_string_map(text@) == Some(
                entries_map(entries@),
            ),
            Err(_) => json_string_map(text@) is None,
        },
        text@ == "{}"@ ==> r is Ok && r->Ok_0@.len() == 0,
{
    serde_json::from_str::<HashMap<String, Option<String>>>(text).map(|m| m.into_iter().collect())
}

/// The settings of a game.
#[derive(Debug)]
pub struct GameSettings {
    pub fullscreen: bool,
    pub overclock: bool,
    pub disable_expansion_pak: bool,
    pub cheats: StringMap<Option<String>>,
}

/// What [`GameSettings`] say.
pub struct SettingsModel {
    pub fullscreen: bool,
    pub overclock: bool,
    pub disable_expansion_pak: bool,
    pub cheats: Map<Seq<char>, Option<Seq<char>>>,
}

impl View for GameSettings {
    type V = SettingsModel;

    open spec fn view(&self) -> SettingsModel {
        SettingsModel {
            fullscreen: self.fullscreen,
            overclock: self.overclock,
            disable_expansion_pak: self.disable_expansion_pak,
            cheats: self.cheats@,
        }
    }
}

/// The feature called `name`, if the room has it.
pub open spec fn feature(features: Option<Map<Seq<char>, Seq<char>>>, name: Seq<char>) -> Option<
    Seq<char>,
> {
    match features {
        Some(map) => if map.contains_key(name) {
            Some(map[name])
        } else {
            None
        },
        None => None,
    }
}

/// A switch is on if the room has the feature and its text is exactly `true`.
pub open spec fn switched_on(
    features: Option<Map<Seq<char>, Seq<char>>>,
    name: Seq<char>,
) -> bool {
    feature(features, name) == Some("true"@)
}

/// The cheats that a parse gave: none at all where it failed.
pub open spec fn cheats_or_none(parsed: Option<Map<Seq<char>, Option<Seq<char>>>>) -> Map<
    Seq<char>,
    Option<Seq<char>>,
> {
    match parsed {
        Some(cheats) => cheats,
        None => Map::empty(),
    }
}

/// The cheats of a room: what its `cheats` feature holds as JSON, and none without that feature.
pub open spec fn room_cheats(features: Option<Map<Seq<char>, Seq<char>>>) -> Map<
    Seq<char>,
    Option<Seq<char>>,
> {
    match feature(features, "cheats"@) {
        Some(text) => cheats_or_none(json_string_map(text)),
        None => Map::empty(),
    }
}

/// The settings of a guest's game in a room with these features.
pub open spec fn guest_settings(
    fullscreen: bool,
    features: Option<Map<Seq<char>, Seq<char>>>,
) -> SettingsModel {
    SettingsModel {
        fullscreen,
        overclock: switched_on(features, "overclock"@),
        disable_expansion_pak: switched_on(features, "disable_expansion_pak"@),
        cheats: room_cheats(features),
    }
}

/// The settings of a host's game.
pub open spec fn host_settings(fullscreen: bool) -> SettingsModel {
    SettingsModel {
        fullscreen,
        overclock: false,
        disable_expansion_pak: false,
        cheats: Map::empty(),
    }
}

fn feature_or<'a>(
    features: &'a Option<StringMap<String>>,
    name: &str,
    default: &'a str,
) -> (r: &'a str)
    ensures
        r@ == match feature(features.deep_view(), name@) {
            Some(text) => text,
            None => default@,
        },
{
    match features {
        Some(map) => match map.get(name) {
            Some(text) => text.as_str(),
            None => default,
        },
        None => default,
    }
}

/// Reads a truth value: `true` is the one text that means yes.
pub fn parse_flag(text: &str) -> (r: bool)
    ensures
        r == (text@ == "true"@),
{
    same_text(text, "true")
}

/// The cheats that a parse gave: none at all where it failed.
pub fn cheats_from_parse(parsed: Result<Vec<(String, Option<String>)>, serde_json::Error>) -> (r:
    StringMap<Option<String>>)
    ensures
        r@ == match parsed {
            Ok(entries) => entries_map(entries@),
            Err(_) => Map::<Seq<char>, Option<Seq<char>>>::empty(),
        },
{
    match parsed {
        Ok(entries) => StringMap::from_entries(entries),
        Err(_) => StringMap::new(),
    }
}

/// Reads the text of a `cheats` feature: a text that cannot be read holds no cheats.
pub fn parse_cheats(text: &str) -> (r: StringMap<Option<String>>)
    ensures
        r@ == cheats_or_none(json_string_map(text@)),
        text@ == "{}"@ ==> r@ == Map::<Seq<char>, Option<Seq<char>>>::empty(),
{
    cheats_from_parse(parse_string_map(text))
}

/// The settings of a guest's game in `room`.
pub fn settings_for_guest(fullscreen: bool, room: &NetplayRoom) -> (r: GameSettings)
    ensures
        r@ == guest_settings(fullscreen, room@.features),
{
    proof {
        reveal_strlit("true");
        reveal_strlit("false");
        assert("true"@.len() != "false"@.len());
    }
    let overclock = parse_flag(feature_or(&room.features, "overclock", "false"));
    let disable_expansion_pak = parse_flag(
        feature_or(&room.features, "disable_expansion_pak", "false"),
    );
    let cheats = parse_cheats(feature_or(&room.features, "cheats", "{}"));
    GameSettings { fullscreen, overclock, disable_expansion_pak, cheats }
}

/// The settings of a host's game.
pub fn settings_for_host(fullscreen: bool) -> (r: GameSettings)
    ensures
        r@ == host_settings(fullscreen),
{
    GameSettings {
        fullscreen,
        overclock: false,
        disable_expansion_pak: false,
        cheats: StringMap::new(),
    }
}

/// A guest in a room that the server shows with the features with which the host opened it, and
/// possibly with others but without cheats, plays with the host's settings.
pub proof fn law_guest_settings_match_host(fullscreen: bool, features: Map<Seq<char>, Seq<char>>)
    requires
        host_features().submap_of(features),
        !features.contains_key("cheats"@),
    ensures
        guest_settings(fullscreen, Some(features)) == host_settings(fullscreen),
{
    reveal_strlit("true");
    reveal_strlit("false");
    reveal_strlit("overclock");
    reveal_strlit("disable_expansion_pak");
    assert("true"@.len() != "false"@.len());
    assert("overclock"@.len() != "disable_expansion_pak"@.len());
    assert(host_features().contains_key("overclock"@));
    assert(host_features().contains_key("disable_expansion_pak"@));
}

/// Settings say what each of their fields holds.
pub proof fn law_settings_say_their_fields(settings: GameSettings)
    ensures
        settings@.fullscreen == settings.fullscreen,
        settings@.overclock == settings.overclock,
        settings@.disable_expansion_pak == settings.disable_expansion_pak,
        settings@.cheats == settings.cheats@,
{
}

/// In a room with features each setting of a guest comes from its own feature: a switch is on
/// exactly if its feature is the text `true`, and the cheats are what the `cheats` feature parses
/// to, if it is there and parses. The screen is as the player wants it.
pub proof fn law_guest_settings_come_from_features(
    fullscreen: bool,
    features: Map<Seq<char>, Seq<char>>,
)
    ensures
        ({
            let settings = guest_settings(fullscreen, Some(features));
            &&& settings.fullscreen == fullscreen
            &&& settings.overclock <==> features.contains_key("overclock"@)
                && features["overclock"@] == "true"@
            &&& settings.disable_expansion_pak <==> features.contains_key(
                "disable_expansion_pak"@,
            ) && features["disable_expansion_pak"@] == "true"@
            &&& features.contains_key("cheats"@) && json_string_map(features["cheats"@]) is Some
                ==> settings.cheats == json_string_map(features["cheats"@])->0
            &&& !features.contains_key("cheats"@) || json_string_map(features["cheats"@]) is None
                ==> settings.cheats == Map::<Seq<char>, Option<Seq<char>>>::empty()
        }),
{
}

/// In a room without features a guest plays with both switches off and without cheats.
pub proof fn law_guest_settings_without_features(fullscreen: bool)
    ensures
        guest_settings(fullscreen, None) == (SettingsModel {
            fullscreen,
            overclock: false,
            disable_expansion_pak: false,
            cheats: Map::empty(),
        }),
{
}

/// Rooms that agree in one feature give a guest the same setting for it, whatever their other
/// features are.
pub proof fn law_guest_settings_do_not_mix(
    fullscreen: bool,
    left: Map<Seq<char>, Seq<char>>,
    right: Map<Seq<char>, Seq<char>>,
)
    ensures
        ({
            let one = guest_settings(fullscreen, Some(left));
            let other = guest_settings(fullscreen, Some(right));
            let agree = |key: Seq<char>|
                {
                    &&& left.contains_key(key) == right.contains_key(key)
                    &&& left.contains_key(key) ==> left[key] == right[key]
                };
            &&& agree("overclock"@) ==> one.overclock == other.overclock
            &&& agree("disable_expansion_pak"@) ==> one.disable_expansion_pak
                == other.disable_expansion_pak
            &&& agree("cheats"@) ==> one.cheats == other.cheats
        }),
{
}

/// A parse that succeeds gives its cheats, and one that fails gives none.
pub proof fn law_failed_parse_gives_no_cheats(cheats: Map<Seq<char>, Option<Seq<char>>>)
    ensures
        cheats_or_none(Some(cheats)) == cheats,
        cheats_or_none(None) == Map::<Seq<char>, Option<Seq<char>>>::empty(),
{
}

/// A host plays with both switches off and without cheats, on the screen that it wants.
pub proof fn law_host_settings_are_plain(fullscreen: bool)
    ensures
        host_settings(fullscreen) == (SettingsModel {
            fullscreen,
            overclock: false,
            disable_expansion_pak: false,
            cheats: Map::empty(),
        }),
{
}

} // verus!
