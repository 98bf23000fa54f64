//! The messages that a client and the netplay server exchange.

use vstd::prelude::*;

use crate::auth::{AuthStamp, EMU_NAME};
use crate::string_map::StringMap;

verus! {

/// The version of the netplay protocol that the client speaks.
pub const NETPLAY_VERSION: i32 = 17;

/// A room, as far as a message describes it.
#[derive(Debug)]
pub struct NetplayRoom {
    pub room_name: Option<String>,
    pub password: Option<String>,
    pub protected: Option<bool>,
    pub md5: Option<String>,
    pub game_name: Option<String>,
    pub port: Option<i32>,
    pub features: Option<StringMap<String>>,
    pub buffer_target: Option<i32>,
}

/// What a [`NetplayRoom`] says.
pub struct RoomModel {
    pub room_name: Option<Seq<char>>,
    pub password: Option<Seq<char>>,
    pub protected: Option<bool>,
    pub md5: Option<Seq<char>>,
    pub game_name: Option<Seq<char>>,
    pub port: Option<i32>,
    pub features: Option<Map<Seq<char>, Seq<char>>>,
    pub buffer_target: Option<i32>,
}

impl View for NetplayRoom {
    type V = RoomModel;

    open spec fn view(&self) -> RoomModel {
        RoomModel {
            room_name: self.room_name.deep_view(),
            password: self.password.deep_view(),
            protected: self.protected,
            md5: self.md5.deep_view(),
            game_name: self.game_name.deep_view(),
            port: self.port,
            features: self.features.deep_view(),
            buffer_target: self.buffer_target,
        }
    }
}

impl DeepView for NetplayRoom {
    type V = RoomModel;

    open spec fn deep_view(&self) -> RoomModel {
        self.view()
    }
}

/// A message in either direction.
#[derive(Debug)]
pub struct NetplayMessage {
    pub message_type: String,
    pub player_name: Option<String>,
    pub client_sha: Option<String>,
    pub netplay_version: Option<i32>,
    pub emulator: Option<String>,
    pub room: Option<NetplayRoom>,
    pub accept: Option<i32>,
    pub message: Option<String>,
    pub auth: Option<String>,
    pub player_names: Option<[String; 4]>,
    pub auth_time: Option<String>,
    pub rooms: Option<Vec<NetplayRoom>>,
}

/// What a [`NetplayMessage`] says.
pub struct MessageModel {
    pub message_type: Seq<char>,
    pub player_name: Option<Seq<char>>,
    pub client_sha: Option<Seq<char>>,
    pub netplay_version: Option<i32>,
    pub emulator: Option<Seq<char>>,
    pub room: Option<RoomModel>,
    pub accept: Option<i32>,
    pub message: Option<Seq<char>>,
    pub auth: Option<Seq<char>>,
    pub player_names: Option<Seq<Seq<char>>>,
    pub auth_time: Option<Seq<char>>,
    pub rooms: Option<Seq<RoomModel>>,
}

/// The names in the four seats of a room.
pub open spec fn seat_names(names: [String; 4]) -> Seq<Seq<char>> {
    Seq::new(4, |i: int| names@[i]@)
}

impl View for NetplayMessage {
    type V = MessageModel;

    open spec fn view(&self) -> MessageModel {
        MessageModel {
            message_type: self.message_type@,
            player_name: self.player_name.deep_view(),
            client_sha: self.client_sha.deep_view(),
            netplay_version: self.netplay_version,
            emulator: self.emulator.deep_view(),
            room: self.room.deep_view(),
            accept: self.accept,
            message: self.message.deep_view(),
            auth: self.auth.deep_view(),
            player_names: match self.player_names {
                Some(names) => Some(seat_names(names)),
                None => None,
            },
            auth_time: self.auth_time.deep_view(),
            rooms: self.rooms.deep_view(),
        }
    }
}

/// A room of which nothing is said.
pub open spec fn blank_room() -> RoomModel {
    RoomModel {
        room_name: None,
        password: None,
        protected: None,
        md5: None,
        game_name: None,
        port: None,
        features: None,
        buffer_target: None,
    }
}

/// A message that says no more than its type.
pub open spec fn blank_message(message_type: Seq<char>) -> MessageModel {
    MessageModel {
        message_type,
        player_name: None,
        client_sha: None,
        netplay_version: None,
        emulator: None,
        room: None,
        accept: None,
        message: None,
        auth: None,
        player_names: None,
        auth_time: None,
        rooms: None,
    }
}

/// A request in which the client presents itself: its name, build, protocol version, emulator and
/// stamp, and the room that it asks for.
pub open spec fn signed_request(
    message_type: Seq<char>,
    player_name: Seq<char>,
    client_sha: Seq<char>,
    auth_time: Seq<char>,
    auth: Seq<char>,
    room: RoomModel,
) -> MessageModel {
    MessageModel {
        player_name: Some(player_name),
        client_sha: Some(client_sha),
        netplay_version: Some(NETPLAY_VERSION),
        emulator: Some(EMU_NAME@),
        auth_time: Some(auth_time),
        auth: Some(auth),
        room: Some(room),
        ..blank_message(message_type)
    }
}

/// A request about the room on a port, with nothing else in it.
pub open spec fn room_request(message_type: Seq<char>, port: i32) -> MessageModel {
    MessageModel {
        room: Some(RoomModel { port: Some(port), ..blank_room() }),
        ..blank_message(message_type)
    }
}

/// The room that a join request asks for.
pub open spec fn wanted_room(game_hash: Seq<char>, port: i32) -> RoomModel {
    RoomModel {
        password: Some(Seq::empty()),
        md5: Some(game_hash),
        port: Some(port),
        ..blank_room()
    }
}

/// The features of a new room: no overclock, and the expansion pak in place.
pub open spec fn host_features() -> Map<Seq<char>, Seq<char>> {
    Map::empty().insert("overclock"@, "false"@).insert("disable_expansion_pak"@, "false"@)
}

/// The room that a create request asks for.
pub open spec fn new_room(
    room_name: Seq<char>,
    game_name: Seq<char>,
    game_hash: Seq<char>,
) -> RoomModel {
    RoomModel {
        room_name: Some(room_name),
        password: Some(Seq::empty()),
        game_name: Some(game_name),
        md5: Some(game_hash),
        features: Some(host_features()),
        ..blank_room()
    }
}

fn empty_room() -> (r: NetplayRoom)
    ensures
        r@ == blank_room(),
{
    NetplayRoom {
        room_name: None,
        password: None,
        protected: None,
        md5: None,
        game_name: None,
        port: None,
        features: None,
        buffer_target: None,
    }
}

fn empty_message(message_type: &str) -> (r: NetplayMessage)
    ensures
        r@ == blank_message(message_type@),
{
    NetplayMessage {
        message_type: message_type.to_string(),
        player_name: None,
        client_sha: None,
        netplay_version: None,
        emulator: None,
        room: None,
        accept: None,
        message: None,
        auth: None,
        player_names: None,
        auth_time: None,
        rooms: None,
    }
}

fn signed_message(
    message_type: &str,
    player_name: &String,
    client_sha: &String,
    stamp: AuthStamp,
    room: NetplayRoom,
) -> (r: NetplayMessage)
    ensures
        r@ == signed_request(
            message_type@,
            player_name@,
            client_sha@,
            stamp.auth_time@,
            stamp.auth@,
            room@,
        ),
{
    NetplayMessage {
        player_name: Some(player_name.clone()),
        client_sha: Some(client_sha.clone()),
        netplay_version: Some(NETPLAY_VERSION),
        emulator: Some(EMU_NAME.to_string()),
        auth_time: Some(stamp.auth_time),
        auth: Some(stamp.auth),
        room: Some(room),
        ..empty_message(message_type)
    }
}

fn room_message(message_type: &str, port: i32) -> (r: NetplayMessage)
    ensures
        r@ == room_request(message_type@, port),
{
    NetplayMessage {
        room: Some(NetplayRoom { port: Some(port), ..empty_room() }),
        ..empty_message(message_type)
    }
}

/// The request to join the room on `room_port` with the game whose hash is `game_hash`.
pub fn join_room_request(
    player_name: &String,
    client_sha: &String,
    stamp: AuthStamp,
    game_hash: String,
    room_port: i32,
) -> (r: NetplayMessage)
    ensures
        r@ == signed_request(
            "request_join_room"@,
            player_name@,
            client_sha@,
            stamp.auth_time@,
            stamp.auth@,
            wanted_room(game_hash@, room_port),
        ),
{
    let room = NetplayRoom {
        password: Some(String::new()),
        md5: Some(game_hash),
        port: Some(room_port),
        ..empty_room()
    };
    signed_message("request_join_room", player_name, client_sha, stamp, room)
}

/// The request to open a room under `room_name` for a game.
pub fn create_room_request(
    player_name: &String,
    client_sha: &String,
    stamp: AuthStamp,
    room_name: String,
    game_name: String,
    game_hash: String,
) -> (r: NetplayMessage)
    ensures
        r@ == signed_request(
            "request_create_room"@,
            player_name@,
            client_sha@,
            stamp.auth_time@,
            stamp.auth@,
            new_room(room_name@, game_name@, game_hash@),
        ),
{
    let mut features: StringMap<String> = StringMap::new();
    features.insert("overclock".to_string(), "false".to_string());
    features.insert("disable_expansion_pak".to_string(), "false".to_string());
    let room = NetplayRoom {
        room_name: Some(room_name),
        password: Some(String::new()),
        game_name: Some(game_name),
        md5: Some(game_hash),
        features: Some(features),
        ..empty_room()
    };
    signed_message("request_create_room", player_name, client_sha, stamp, room)
}

/// The request for the names of the players in the room on `port`.
pub fn players_request(port: i32) -> (r: NetplayMessage)
    ensures
        r@ == room_request("request_players"@, port),
{
    room_message("request_players", port)
}

/// The request to begin the game in the room on `port`.
pub fn begin_game_request(port: i32) -> (r: NetplayMessage)
    ensures
        r@ == room_request("request_begin_game"@, port),
{
    room_message("request_begin_game", port)
}

/// A room says what each of its fields holds.
pub proof fn law_room_says_its_fields(room: NetplayRoom)
    ensures
        room@.room_name == room.room_name.deep_view(),
        room@.password == room.password.deep_view(),
        room@.protected == room.protected,
        room@.md5 == room.md5.deep_view(),
        room@.game_name == room.game_name.deep_view(),
        room@.port == room.port,
        room.features is Some ==> room@.features == Some(room.features->0@),
        room.features is None ==> room@.features is None,
        room@.buffer_target == room.buffer_target,
{
}

/// A message says what each of its fields holds.
pub proof fn law_message_says_its_fields(message: NetplayMessage)
    ensures
        message@.message_type == message.message_type@,
        message@.player_name == message.player_name.deep_view(),
        message@.client_sha == message.client_sha.deep_view(),
        message@.netplay_version == message.netplay_version,
        message@.emulator == message.emulator.deep_view(),
        message.room is Some ==> message@.room == Some(message.room->0@),
        message.room is None ==> message@.room is None,
        message@.accept == message.accept,
        message@.message == message.message.deep_view(),
        message@.auth == message.auth.deep_view(),
        message.player_names is Some ==> message@.player_names is Some
            && message@.player_names->0.len() == 4 && forall|i: int|
            0 <= i < 4 ==> #[trigger] message@.player_names->0[i]
                == message.player_names->0@[i]@,
        message.player_names is None ==> message@.player_names is None,
        message@.auth_time == message.auth_time.deep_view(),
        message.rooms is Some ==> message@.rooms is Some && message@.rooms->0.len()
            == message.rooms->0@.len() && forall|i: int|
            0 <= i < message.rooms->0@.len() ==> #[trigger] message@.rooms->0[i]
                == message.rooms->0@[i]@,
        message.rooms is None ==> message@.rooms is None,
{
}

/// A signed request states the sender's name and build, the room, the time and the token that it is
/// made of, protocol version seventeen and the emulator `gopher64`, and nothing else.
pub proof fn law_signed_request_states(
    message_type: Seq<char>,
    player_name: Seq<char>,
    client_sha: Seq<char>,
    auth_time: Seq<char>,
    auth: Seq<char>,
    room: RoomModel,
)
    ensures
        signed_request(message_type, player_name, client_sha, auth_time, auth, room) == (
        MessageModel {
            message_type,
            player_name: Some(player_name),
            client_sha: Some(client_sha),
            netplay_version: Some(17i32),
            emulator: Some("gopher64"@),
            room: Some(room),
            accept: None,
            message: None,
            auth: Some(auth),
            player_names: None,
            auth_time: Some(auth_time),
            rooms: None,
        }),
{
}

/// A guest asks for the room by port and game, with an empty password, and says nothing else of it.
pub proof fn law_wanted_room_states(game_hash: Seq<char>, port: i32)
    ensures
        wanted_room(game_hash, port) == (RoomModel {
            room_name: None,
            password: Some(Seq::empty()),
            protected: None,
            md5: Some(game_hash),
            game_name: None,
            port: Some(port),
            features: None,
            buffer_target: None,
        }),
{
}

/// A host describes its room by its name, the game's name and hash and an empty password, with both
/// switches off and no other feature, and leaves the port to the server.
pub proof fn law_new_room_states(
    room_name: Seq<char>,
    game_name: Seq<char>,
    game_hash: Seq<char>,
    key: Seq<char>,
)
    ensures
        ({
            let room = new_room(room_name, game_name, game_hash);
            &&& room.room_name == Some(room_name)
            &&& room.password == Some(Seq::<char>::empty())
            &&& room.protected is None
            &&& room.md5 == Some(game_hash)
            &&& room.game_name == Some(game_name)
            &&& room.port is None
            &&& room.buffer_target is None
            &&& room.features is Some
            &&& room.features->0.contains_key(key) <==> key == "overclock"@ || key
                == "disable_expansion_pak"@
            &&& room.features->0.contains_key(key) ==> room.features->0[key] == "false"@
        }),
{
}

/// A request about a room states its type and the room's port, and nothing else.
pub proof fn law_room_request_states(message_type: Seq<char>, port: i32)
    ensures
        room_request(message_type, port) == (MessageModel {
            message_type,
            player_name: None,
            client_sha: None,
            netplay_version: None,
            emulator: None,
            room: Some(
                RoomModel {
                    room_name: None,
                    password: None,
                    protected: None,
                    md5: None,
                    game_name: None,
                    port: Some(port),
                    features: None,
                    buffer_target: None,
                },
            ),
            accept: None,
            message: None,
            auth: None,
            player_names: None,
            auth_time: None,
            rooms: None,
        }),
{
}

} // verus!
